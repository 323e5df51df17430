//! The form that configures an SPI bus.

use vstd::prelude::*;
use crate::config::{SpiConfig, SpiMode};
use crate::forms::input::{chars_of, parse_unsigned, trim, trim_bounds, unsigned_value};
use crate::forms::w5500::entry_at;
use crate::forms::{mode_from_index, spec_clamp_index, spec_mode_from_index, Choice};
use crate::gpio::{ChosenPin, ChosenSpiBus, SpiMapping};

verus! {

/// What tells two mappings apart in the list: their SCK, and their MISO and
/// MOSI where those lines are used.
pub open spec fn mapping_key(m: SpiMapping, use_miso: bool, use_mosi: bool) -> (ChosenPin, Option<ChosenPin>, Option<ChosenPin>) {
    (m.sck, if use_miso { Some(m.miso) } else { None }, if use_mosi { Some(m.mosi) } else { None })
}

/// Whether a mapping in the list already has the key of `m`.
pub open spec fn key_seen(list: Seq<SpiMapping>, m: SpiMapping, use_miso: bool, use_mosi: bool) -> bool {
    exists|i: int| 0 <= i < list.len() && mapping_key(#[trigger] list[i], use_miso, use_mosi) == mapping_key(m, use_miso, use_mosi)
}

/// The mappings the form offers: those of the chosen bus, in order, each key
/// once.
pub open spec fn mapping_options(all: Seq<SpiMapping>, bus: Option<ChosenSpiBus>, use_miso: bool, use_mosi: bool) -> Seq<SpiMapping>
    decreases all.len(),
{
    if all.len() == 0 {
        Seq::empty()
    } else {
        let prev = mapping_options(all.drop_last(), bus, use_miso, use_mosi);
        let m = all.last();
        if bus == Some(m.bus) && !key_seen(prev, m, use_miso, use_mosi) {
            prev.push(m)
        } else {
            prev
        }
    }
}

/// The label of a mapping in the list: `A5 / A6 / A7`.
pub open spec fn mapping_label(m: SpiMapping) -> Seq<char> {
    m.sck.spec_name() + " / "@ + m.miso.spec_name() + " / "@ + m.mosi.spec_name()
}

/// The state of the SPI form.
pub struct SpiForm {
    pub bus: Choice<ChosenSpiBus>,
    pub mode: Choice<SpiMode>,
    pub frequency: String,
    /// Every mapping of the buses on offer.
    pub all_mappings: Vec<SpiMapping>,
    /// The mappings of the chosen bus.
    pub mapping: Choice<SpiMapping>,
    pub use_miso: bool,
    pub use_mosi: bool,
    /// The message of the last refused submission.
    pub error: Option<String>,
}

/// Abstract view of an [`SpiForm`].
pub struct SpiFormView {
    pub buses: Seq<ChosenSpiBus>,
    pub bus_idx: nat,
    pub modes: Seq<SpiMode>,
    pub mode_idx: nat,
    pub frequency: Seq<char>,
    pub all_mappings: Seq<SpiMapping>,
    pub mappings: Seq<SpiMapping>,
    pub mapping_idx: nat,
    pub use_miso: bool,
    pub use_mosi: bool,
    pub error: Option<Seq<char>>,
}

impl View for SpiForm {
    type V = SpiFormView;

    open spec fn view(&self) -> SpiFormView {
        SpiFormView {
            buses: self.bus.items@,
            bus_idx: self.bus.selected_idx as nat,
            modes: self.mode.items@,
            mode_idx: self.mode.selected_idx as nat,
            frequency: self.frequency@,
            all_mappings: self.all_mappings@,
            mappings: self.mapping.items@,
            mapping_idx: self.mapping.selected_idx as nat,
            use_miso: self.use_miso,
            use_mosi: self.use_mosi,
            error: crate::config::board_pins::opt_text(self.error),
        }
    }
}

/// A change to the SPI form.
pub enum SpiFormInput {
    /// New buses and their mappings to choose from.
    UpdateOptions { buses: Vec<ChosenSpiBus>, mappings: Vec<SpiMapping> },
    BusSelected(usize),
    FrequencyChanged(String),
    ModeSelected(usize),
    MappingSelected(usize),
    UseMisoToggled(bool),
    UseMosiToggled(bool),
    /// Read the form into a configuration.
    Submit,
    SetError(String),
    ClearError,
    /// Start over after the configuration changed.
    ResetAfterChange,
}

impl SpiFormView {
    /// The frequency that the text gives: a positive number of MHz.
    pub open spec fn frequency_value(self) -> Option<u32> {
        match unsigned_value(trim(self.frequency), u32::MAX as nat) {
            Some(v) => if v > 0 { Some(v as u32) } else { None },
            None => None,
        }
    }

    /// What the form gives on submission: a configuration, or why it is
    /// refused. The checks run in the order of the fields.
    pub open spec fn result(self) -> Result<SpiConfig, Seq<char>> {
        match self.frequency_value() {
            None => Err("Частота SPI должна быть положительным числом"@),
            Some(frequency_mhz) => match entry_at(self.buses, self.bus_idx) {
                None => Err("Нет доступных SPI-шин для добавления"@),
                Some(bus) => match entry_at(self.mappings, self.mapping_idx) {
                    None => Err("Выберите совместимую распиновку SPI"@),
                    Some(m) => {
                        let miso = if self.use_miso { Some(m.miso) } else { None };
                        let mosi = if self.use_mosi { Some(m.mosi) } else { None };
                        match SpiConfig::spec_reused_pin(m.sck, miso, mosi) {
                            Some(p) => Err(crate::errors::ConfigError::PinAlreadyInUse(p).spec_message()),
                            None => Ok(SpiConfig {
                                bus: bus,
                                frequency_mhz: frequency_mhz,
                                mode: spec_mode_from_index(self.mode_idx),
                                sck: m.sck,
                                miso: miso,
                                mosi: mosi,
                            }),
                        }
                    },
                },
            },
        }
    }

    /// The form with the mappings of the chosen bus, the first one chosen.
    pub open spec fn rebuilt(self) -> SpiFormView {
        let mappings = mapping_options(self.all_mappings, entry_at(self.buses, self.bus_idx), self.use_miso, self.use_mosi);
        SpiFormView { mappings: mappings, mapping_idx: spec_clamp_index(0, mappings.len()), ..self }
    }

    /// The form after a submission: the message when it is refused.
    pub open spec fn submitted(self) -> SpiFormView {
        SpiFormView {
            error: match self.result() {
                Ok(_) => None,
                Err(message) => Some(message),
            },
            ..self
        }
    }

    /// The form after the configuration changed: first bus and mode, both
    /// lines used, ten MHz, mappings rebuilt.
    pub open spec fn reset(self) -> SpiFormView {
        SpiFormView {
            bus_idx: spec_clamp_index(0, self.buses.len()),
            mode_idx: spec_clamp_index(0, self.modes.len()),
            use_miso: true,
            use_mosi: true,
            frequency: "10"@,
            ..self
        }.rebuilt()
    }
}

/// The form after a change.
pub open spec fn spi_form_after(f: SpiFormView, message: SpiFormInput) -> SpiFormView {
    match message {
        SpiFormInput::UpdateOptions { buses, mappings } => SpiFormView {
            buses: buses@,
            bus_idx: spec_clamp_index(f.bus_idx, buses@.len()),
            all_mappings: mappings@,
            ..f
        }.rebuilt(),
        SpiFormInput::BusSelected(idx) => if f.bus_idx == idx {
            f
        } else {
            SpiFormView { bus_idx: idx as nat, ..f }.rebuilt()
        },
        SpiFormInput::FrequencyChanged(text) => SpiFormView { frequency: text@, ..f },
        SpiFormInput::ModeSelected(idx) => SpiFormView { mode_idx: idx as nat, ..f },
        SpiFormInput::MappingSelected(idx) => SpiFormView { mapping_idx: idx as nat, ..f },
        SpiFormInput::UseMisoToggled(active) => if f.use_miso == active {
            f
        } else {
            SpiFormView { use_miso: active, ..f }.rebuilt()
        },
        SpiFormInput::UseMosiToggled(active) => if f.use_mosi == active {
            f
        } else {
            SpiFormView { use_mosi: active, ..f }.rebuilt()
        },
        SpiFormInput::Submit => f.submitted(),
        SpiFormInput::SetError(text) => SpiFormView { error: Some(text@), ..f },
        SpiFormInput::ClearError => SpiFormView { error: None, ..f },
        SpiFormInput::ResetAfterChange => f.reset(),
    }
}

/// Returns whether two mappings have the same key.
fn same_key(a: &SpiMapping, b: &SpiMapping, use_miso: bool, use_mosi: bool) -> (same: bool)
    ensures
        same == (mapping_key(*a, use_miso, use_mosi) == mapping_key(*b, use_miso, use_mosi)),
{
    a.sck == b.sck && (!use_miso || a.miso == b.miso) && (!use_mosi || a.mosi == b.mosi)
}

/// Returns the mappings the form offers.
fn build_mapping_options(all: &Vec<SpiMapping>, bus: Option<ChosenSpiBus>, use_miso: bool, use_mosi: bool) -> (options: Vec<SpiMapping>)
    ensures
        options@ == mapping_options(all@, bus, use_miso, use_mosi),
{
    let mut options: Vec<SpiMapping> = Vec::new();
    let mut i: usize = 0;
    while i < all.len()
        invariant
            i <= all@.len(),
            options@ == mapping_options(all@.take(i as int), bus, use_miso, use_mosi),
        decreases all@.len() - i,
    {
        let m = all[i];
        proof {
            assert(all@.take(i + 1).drop_last() =~= all@.take(i as int));
            assert(all@.take(i + 1).last() == m);
        }
        let on_bus = match bus {
            Some(b) => b == m.bus,
            None => false,
        };
        if on_bus {
            let mut seen = false;
            let mut j: usize = 0;
            while j < options.len()
                invariant
                    j <= options@.len(),
                    seen == exists|k: int| 0 <= k < j && mapping_key(#[trigger] options@[k], use_miso, use_mosi)
                        == mapping_key(m, use_miso, use_mosi),
                decreases options@.len() - j,
            {
                if same_key(&options[j], &m, use_miso, use_mosi) {
                    seen = true;
                }
                j += 1;
            }
            if !seen {
                options.push(m);
            }
        }
        i += 1;
    }
    proof {
        assert(all@.take(i as int) =~= all@);
    }
    options
}

/// Returns the label of a mapping: `A5 / A6 / A7`.
fn mapping_label_text(m: &SpiMapping) -> (label: String)
    ensures
        label@ == mapping_label(*m),
{
    let mut label = String::from_str(m.sck.variant_name());
    label.append(" / ");
    label.append(m.miso.variant_name());
    label.append(" / ");
    label.append(m.mosi.variant_name());
    label
}

impl SpiForm {
    /// A form with the four SPI modes, ten MHz, both lines used, and nothing
    /// else to choose yet.
    pub fn new() -> (form: Self)
        ensures
            form@ == (SpiFormView {
                buses: Seq::empty(),
                bus_idx: 0,
                modes: seq![SpiMode::Mode0, SpiMode::Mode1, SpiMode::Mode2, SpiMode::Mode3],
                mode_idx: 0,
                frequency: "10"@,
                all_mappings: Seq::empty(),
                mappings: Seq::empty(),
                mapping_idx: 0,
                use_miso: true,
                use_mosi: true,
                error: None,
            }),
    {
        let form = SpiForm {
            bus: Choice::empty(),
            mode: Choice::new(SpiMode::all()),
            frequency: String::from_str("10"),
            all_mappings: Vec::new(),
            mapping: Choice::empty(),
            use_miso: true,
            use_mosi: true,
            error: None,
        };
        proof {
            assert(form.bus.items@ =~= Seq::<ChosenSpiBus>::empty());
            assert(form.all_mappings@ =~= Seq::<SpiMapping>::empty());
            assert(form.mapping.items@ =~= Seq::<SpiMapping>::empty());
        }
        form
    }

    /// Offers the mappings of the chosen bus again and chooses the first one.
    pub fn rebuild_mapping_options(&mut self)
        ensures
            final(self)@ == old(self)@.rebuilt(),
    {
        let options = build_mapping_options(&self.all_mappings, self.bus.selected(), self.use_miso, self.use_mosi);
        self.mapping.replace_items(options);
        self.mapping.reset_selected(0);
    }

    /// Replaces the buses and mappings to choose from.
    pub fn update_options(&mut self, buses: Vec<ChosenSpiBus>, mappings: Vec<SpiMapping>)
        ensures
            final(self)@ == (SpiFormView {
                buses: buses@,
                bus_idx: spec_clamp_index(old(self)@.bus_idx, buses@.len()),
                all_mappings: mappings@,
                ..old(self)@
            }).rebuilt(),
    {
        self.bus.replace_items(buses);
        self.all_mappings = mappings;
        self.rebuild_mapping_options();
    }

    /// Returns whether the form can be submitted: a bus and a mapping are there.
    pub fn can_submit(&self) -> (ok: bool)
        ensures
            ok == (self@.buses.len() > 0 && self@.mappings.len() > 0),
    {
        !self.bus.is_empty() && !self.mapping.is_empty()
    }

    /// Returns the labels of the buses on offer.
    pub fn bus_labels(&self) -> (labels: Vec<&'static str>)
        ensures
            labels@.len() == self@.buses.len(),
            forall|i: int| 0 <= i < labels@.len() ==> (#[trigger] labels@[i])@ == self@.buses[i].spec_name(),
    {
        let mut labels: Vec<&'static str> = Vec::new();
        let mut i: usize = 0;
        while i < self.bus.items.len()
            invariant
                i <= self@.buses.len(),
                labels@.len() == i,
                forall|k: int| 0 <= k < i ==> (#[trigger] labels@[k])@ == self@.buses[k].spec_name(),
            decreases self@.buses.len() - i,
        {
            labels.push(self.bus.items[i].variant_name());
            i += 1;
        }
        labels
    }

    /// Returns the labels of the mappings on offer.
    pub fn mapping_labels(&self) -> (labels: Vec<String>)
        ensures
            labels@.len() == self@.mappings.len(),
            forall|i: int| 0 <= i < labels@.len() ==> (#[trigger] labels@[i])@ == mapping_label(self@.mappings[i]),
    {
        let mut labels: Vec<String> = Vec::new();
        let mut i: usize = 0;
        while i < self.mapping.items.len()
            invariant
                i <= self@.mappings.len(),
                labels@.len() == i,
                forall|k: int| 0 <= k < i ==> (#[trigger] labels@[k])@ == mapping_label(self@.mappings[k]),
            decreases self@.mappings.len() - i,
        {
            labels.push(mapping_label_text(&self.mapping.items[i]));
            i += 1;
        }
        labels
    }

    /// Returns the SCK of the chosen mapping, or `—`.
    pub fn selected_mapping_sck(&self) -> (name: &'static str)
        ensures
            name@ == match entry_at(self@.mappings, self@.mapping_idx) {
                Some(m) => m.sck.spec_name(),
                None => "—"@,
            },
    {
        match self.mapping.selected() {
            Some(m) => m.sck.variant_name(),
            None => "—",
        }
    }

    /// Returns the MISO of the chosen mapping, `отключён` when the line is
    /// not used, or `—`.
    pub fn selected_mapping_miso(&self) -> (name: &'static str)
        ensures
            name@ == if !self@.use_miso {
                "отключён"@
            } else {
                match entry_at(self@.mappings, self@.mapping_idx) {
                    Some(m) => m.miso.spec_name(),
                    None => "—"@,
                }
            },
    {
        if !self.use_miso {
            return "отключён";
        }
        match self.mapping.selected() {
            Some(m) => m.miso.variant_name(),
            None => "—",
        }
    }

    /// Returns the MOSI of the chosen mapping, `отключён` when the line is
    /// not used, or `—`.
    pub fn selected_mapping_mosi(&self) -> (name: &'static str)
        ensures
            name@ == if !self@.use_mosi {
                "отключён"@
            } else {
                match entry_at(self@.mappings, self@.mapping_idx) {
                    Some(m) => m.mosi.spec_name(),
                    None => "—"@,
                }
            },
    {
        if !self.use_mosi {
            return "отключён";
        }
        match self.mapping.selected() {
            Some(m) => m.mosi.variant_name(),
            None => "—",
        }
    }

    /// Reads the form into an SPI configuration, or says why it cannot.
    pub fn build_config(&self) -> (result: Result<SpiConfig, String>)
        ensures
            match self@.result() {
                Ok(config) => result == Ok::<SpiConfig, String>(config),
                Err(message) => result matches Err(e) && e@ == message,
            },
    {
        let chars = chars_of(self.frequency.as_str());
        let (start, end) = trim_bounds(&chars);
        let frequency_mhz = match parse_unsigned(&chars, start, end, 4294967295) {
            Some(f) if f > 0 => f as u32,
            _ => return Err(String::from_str("Частота SPI должна быть положительным числом")),
        };
        let bus = match self.bus.selected() {
            Some(b) => b,
            None => return Err(String::from_str("Нет доступных SPI-шин для добавления")),
        };
        let mapping = match self.mapping.selected() {
            Some(m) => m,
            None => return Err(String::from_str("Выберите совместимую распиновку SPI")),
        };
        let mode = mode_from_index(self.mode.selected_idx);
        let miso = if self.use_miso { Some(mapping.miso) } else { None };
        let mosi = if self.use_mosi { Some(mapping.mosi) } else { None };
        match SpiConfig::new(bus, frequency_mhz, mode, mapping.sck, miso, mosi) {
            Ok(config) => Ok(config),
            Err(e) => Err(e.message()),
        }
    }

    /// Reads the form and keeps the message when it is refused; returns the
    /// configuration to hand on when it is not.
    pub fn submit(&mut self) -> (submitted: Option<SpiConfig>)
        ensures
            final(self)@ == old(self)@.submitted(),
            match old(self)@.result() {
                Ok(config) => submitted == Some(config),
                Err(_) => submitted is None,
            },
    {
        match self.build_config() {
            Ok(config) => {
                self.error = None;
                Some(config)
            },
            Err(e) => {
                self.error = Some(e);
                None
            },
        }
    }

    /// Starts over after the configuration changed.
    pub fn reset_after_change(&mut self)
        ensures
            final(self)@ == old(self)@.reset(),
    {
        self.bus.reset_selected(0);
        self.mode.reset_selected(0);
        self.use_miso = true;
        self.use_mosi = true;
        self.frequency = String::from_str("10");
        self.rebuild_mapping_options();
    }

    /// Applies a change to the form; returns the configuration to hand on
    /// when the change submitted the form and it was accepted.
    pub fn update(&mut self, message: SpiFormInput) -> (submitted: Option<SpiConfig>)
        ensures
            final(self)@ == spi_form_after(old(self)@, message),
            message is Submit ==> match old(self)@.result() {
                Ok(config) => submitted == Some(config),
                Err(_) => submitted is None,
            },
            !(message is Submit) ==> submitted is None,
    {
        match message {
            SpiFormInput::UpdateOptions { buses, mappings } => self.update_options(buses, mappings),
            SpiFormInput::BusSelected(idx) => {
                if self.bus.selected_idx != idx {
                    self.bus.selected_idx = idx;
                    self.rebuild_mapping_options();
                }
            },
            SpiFormInput::FrequencyChanged(frequency) => self.frequency = frequency,
            SpiFormInput::ModeSelected(idx) => self.mode.selected_idx = idx,
            SpiFormInput::MappingSelected(idx) => self.mapping.selected_idx = idx,
            SpiFormInput::UseMisoToggled(active) => {
                if self.use_miso != active {
                    self.use_miso = active;
                    self.rebuild_mapping_options();
                }
            },
            SpiFormInput::UseMosiToggled(active) => {
                if self.use_mosi != active {
                    self.use_mosi = active;
                    self.rebuild_mapping_options();
                }
            },
            SpiFormInput::Submit => return self.submit(),
            SpiFormInput::SetError(message) => self.error = Some(message),
            SpiFormInput::ClearError => self.error = None,
            SpiFormInput::ResetAfterChange => self.reset_after_change(),
        }
        None
    }
}

} // verus!
