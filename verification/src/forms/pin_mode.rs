//! The form that configures the mode of a GPIO pin.

use vstd::prelude::*;
use crate::board::{Pin, PinType, PinView};
use crate::config::{PinConfig, PinConfigView};
use crate::config::board_pins::opt_text;
use crate::forms::input::{trim, trimmed};
use crate::forms::w5500::entry_at;
use crate::forms::{spec_clamp_index, Choice};
use crate::gpio::{properties_view, ChosenPinWithMode, PinModeUiInfo, PropertyView};
use crate::text::strs_view;

verus! {

/// The mode chosen for a pin in the form.
#[derive(Debug, Clone, Copy, PartialEq, Eq, Structural)]
pub enum PinMode {
    /// The pin is left out of the GPIO configuration.
    NotConfigured,
    /// The pin is configured in this mode.
    Configured(ChosenPinWithMode),
}

impl PinMode {
    /// The configured mode, if any.
    pub open spec fn spec_configured(self) -> Option<ChosenPinWithMode> {
        match self {
            PinMode::NotConfigured => None,
            PinMode::Configured(mode) => Some(mode),
        }
    }

    /// The properties of the configured mode; none when not configured.
    pub open spec fn spec_properties(self) -> Seq<PropertyView> {
        match self {
            PinMode::NotConfigured => Seq::empty(),
            PinMode::Configured(mode) => mode.spec_properties(),
        }
    }

    /// The mode after giving a property a value.
    pub open spec fn spec_set_property(self, prop_idx: nat, variant_idx: nat) -> PinMode {
        match self {
            PinMode::NotConfigured => PinMode::NotConfigured,
            PinMode::Configured(mode) => PinMode::Configured(mode.spec_set_property(prop_idx, variant_idx)),
        }
    }

    /// Returns the configured mode, if any.
    pub fn configured(self) -> (mode: Option<ChosenPinWithMode>)
        ensures
            mode == self.spec_configured(),
    {
        match self {
            PinMode::NotConfigured => None,
            PinMode::Configured(mode) => Some(mode),
        }
    }

    /// Returns the properties of the configured mode.
    pub fn properties(self) -> (props: Vec<(&'static str, Vec<&'static str>, usize)>)
        ensures
            properties_view(props@) == self.spec_properties(),
    {
        match self {
            PinMode::NotConfigured => {
                let props: Vec<(&'static str, Vec<&'static str>, usize)> = Vec::new();
                proof {
                    assert(properties_view(props@) =~= Seq::<PropertyView>::empty());
                }
                props
            },
            PinMode::Configured(mode) => mode.properties(),
        }
    }

    /// Gives a property of the configured mode a value.
    pub fn set_property(&mut self, prop_idx: usize, variant_idx: usize)
        ensures
            *final(self) == old(self).spec_set_property(prop_idx as nat, variant_idx as nat),
    {
        match self {
            PinMode::NotConfigured => {},
            PinMode::Configured(mode) => mode.set_property(prop_idx, variant_idx),
        }
    }
}

/// The modes offered for a pin: not configured, then each basic mode of the
/// MCU starting from the default mode; the basic mode of the current
/// configuration is offered as configured.
pub open spec fn mode_items(default: ChosenPinWithMode, config: Option<ChosenPinWithMode>) -> Seq<PinMode> {
    let base = seq![PinMode::NotConfigured] + Seq::new(
        default.spec_mode_variants().len(),
        |i: int| PinMode::Configured(default.spec_set_mode_index(i as nat)),
    );
    match config {
        Some(c) => if c.spec_mode_index() + 1 < base.len() {
            base.update(c.spec_mode_index() + 1int, PinMode::Configured(c))
        } else {
            base
        },
        None => base,
    }
}

/// What the form hands on when applied.
pub struct PinModeFormConfig {
    /// The chosen mode; `None` leaves the pin unconfigured.
    pub mode: Option<ChosenPinWithMode>,
    /// The alias, if one was typed.
    pub alias: Option<String>,
}

/// The state of the pin mode form.
pub struct PinModeForm {
    pub selected_pin: Option<Pin>,
    pub mode: Choice<PinMode>,
    pub mode_labels: Vec<&'static str>,
    pub alias: String,
    pub error: Option<String>,
}

/// Abstract view of a [`PinModeForm`].
pub struct PinModeFormView {
    pub selected_pin: Option<PinView>,
    pub modes: Seq<PinMode>,
    pub mode_labels: Seq<Seq<char>>,
    pub mode_idx: nat,
    pub alias: Seq<char>,
    pub error: Option<Seq<char>>,
}

impl View for PinModeForm {
    type V = PinModeFormView;

    open spec fn view(&self) -> PinModeFormView {
        PinModeFormView {
            selected_pin: match self.selected_pin {
                Some(p) => Some(p@),
                None => None,
            },
            modes: self.mode.items@,
            mode_labels: strs_view(self.mode_labels@),
            mode_idx: self.mode.selected_idx as nat,
            alias: self.alias@,
            error: opt_text(self.error),
        }
    }
}

/// A change to the pin mode form.
pub enum PinModeFormInput {
    /// A board pin was chosen, with its current GPIO configuration.
    SelectPin { pin: Pin, config: Option<PinConfig> },
    ClearSelection,
    AliasChanged(String),
    ModeSelected(usize),
    PropertyChanged(usize, usize),
    /// Hand on the chosen mode and alias.
    Apply,
    SetError(String),
    ClearError,
}

impl PinModeFormView {
    /// The form showing a board pin with its current configuration.
    pub open spec fn with_pin(self, pin: PinView, config: Option<PinConfigView>) -> PinModeFormView {
        let mode_config = match config {
            Some(c) => Some(c.pin),
            None => None,
        };
        let (modes, labels) = match pin.pin_type {
            PinType::Gpio(chosen) => (
                mode_items(chosen.spec_default_mode(), mode_config),
                seq!["Not Configured"@] + chosen.spec_default_mode().spec_mode_variants(),
            ),
            PinType::Power => (Seq::empty(), Seq::empty()),
        };
        let mode_idx = match pin.pin_type {
            PinType::Gpio(_) => spec_clamp_index(
                match mode_config {
                    Some(c) => c.spec_mode_index() + 1,
                    None => 0,
                },
                modes.len(),
            ),
            PinType::Power => 0,
        };
        PinModeFormView {
            selected_pin: Some(pin),
            modes: modes,
            mode_labels: labels,
            mode_idx: mode_idx,
            alias: match config {
                Some(c) => match c.label {
                    Some(l) => l,
                    None => Seq::empty(),
                },
                None => Seq::empty(),
            },
            error: None,
        }
    }

    /// The form with no pin chosen.
    pub open spec fn cleared(self) -> PinModeFormView {
        PinModeFormView {
            selected_pin: None,
            modes: Seq::empty(),
            mode_labels: Seq::empty(),
            mode_idx: 0,
            alias: Seq::empty(),
            error: None,
        }
    }

    /// The chosen mode, if the form offers it and it is configured.
    pub open spec fn selected_mode(self) -> Option<ChosenPinWithMode> {
        match entry_at(self.modes, self.mode_idx) {
            Some(m) => m.spec_configured(),
            None => None,
        }
    }

    /// The alias the form hands on: the typed text without surrounding
    /// whitespace, or none when that is empty.
    pub open spec fn alias_value(self) -> Option<Seq<char>> {
        if trim(self.alias).len() == 0 {
            None
        } else {
            Some(trim(self.alias))
        }
    }
}

/// The form after a change.
pub open spec fn pin_mode_form_after(f: PinModeFormView, message: PinModeFormInput) -> PinModeFormView {
    match message {
        PinModeFormInput::SelectPin { pin, config } => f.with_pin(pin@, match config {
            Some(c) => Some(c@),
            None => None,
        }),
        PinModeFormInput::ClearSelection => f.cleared(),
        PinModeFormInput::AliasChanged(text) => PinModeFormView { alias: text@, ..f },
        PinModeFormInput::ModeSelected(idx) => PinModeFormView { mode_idx: idx as nat, ..f },
        PinModeFormInput::PropertyChanged(prop_idx, variant_idx) => if f.mode_idx < f.modes.len() {
            PinModeFormView {
                modes: f.modes.update(f.mode_idx as int, f.modes[f.mode_idx as int].spec_set_property(prop_idx as nat, variant_idx as nat)),
                ..f
            }
        } else {
            f
        },
        PinModeFormInput::Apply => PinModeFormView { error: None, ..f },
        PinModeFormInput::SetError(text) => PinModeFormView { error: Some(text@), ..f },
        PinModeFormInput::ClearError => PinModeFormView { error: None, ..f },
    }
}

impl PinModeForm {
    /// A form with no pin chosen.
    pub fn new() -> (form: Self)
        ensures
            form@ == form@.cleared(),
    {
        let form = PinModeForm {
            selected_pin: None,
            mode: Choice::empty(),
            mode_labels: Vec::new(),
            alias: String::new(),
            error: None,
        };
        proof {
            assert(form.mode.items@ =~= Seq::<PinMode>::empty());
            assert(strs_view(form.mode_labels@) =~= Seq::<Seq<char>>::empty());
        }
        form
    }

    /// Offers the modes of the pin and chooses its current one.
    fn rebuild_mode_options(&mut self, pin: &Pin, config: Option<ChosenPinWithMode>)
        ensures
            final(self).selected_pin == old(self).selected_pin,
            final(self).alias == old(self).alias,
            final(self).error == old(self).error,
            final(self)@.modes == old(self)@.with_pin(pin@, match config {
                Some(c) => Some(PinConfigView { pin: c, label: None }),
                None => None,
            }).modes,
            final(self)@.mode_labels == old(self)@.with_pin(pin@, match config {
                Some(c) => Some(PinConfigView { pin: c, label: None }),
                None => None,
            }).mode_labels,
            final(self)@.mode_idx == old(self)@.with_pin(pin@, match config {
                Some(c) => Some(PinConfigView { pin: c, label: None }),
                None => None,
            }).mode_idx,
    {
        match pin.pin_type {
            PinType::Power => {
                self.mode.replace_items(Vec::new());
                self.mode_labels = Vec::new();
                proof {
                    assert(self.mode.items@ =~= Seq::<PinMode>::empty());
                    assert(strs_view(self.mode_labels@) =~= Seq::<Seq<char>>::empty());
                }
            },
            PinType::Gpio(chosen_pin) => {
                let default_mode = chosen_pin.default_mode();
                let mut items: Vec<PinMode> = vec![PinMode::NotConfigured];
                let mut labels: Vec<&'static str> = vec!["Not Configured"];
                let variants = default_mode.mode_variants();
                let ghost n = default_mode.spec_mode_variants().len();
                let ghost base = seq![PinMode::NotConfigured] + Seq::new(
                    n,
                    |i: int| PinMode::Configured(default_mode.spec_set_mode_index(i as nat)),
                );
                proof {
                    reveal_strlit("Not Configured");
                }
                let mut idx: usize = 0;
                while idx < variants.len()
                    invariant
                        strs_view(variants@) == default_mode.spec_mode_variants(),
                        n == variants@.len(),
                        base == seq![PinMode::NotConfigured] + Seq::new(
                            n,
                            |i: int| PinMode::Configured(default_mode.spec_set_mode_index(i as nat)),
                        ),
                        idx <= variants@.len(),
                        items@ == base.take(idx + 1),
                        strs_view(labels@) == seq!["Not Configured"@] + strs_view(variants@).take(idx as int),
                    decreases variants@.len() - idx,
                {
                    let mut mode = default_mode;
                    mode.set_mode_index(idx);
                    items.push(PinMode::Configured(mode));
                    let ghost labels_before = labels@;
                    labels.push(variants[idx]);
                    proof {
                        assert(strs_view(labels@) =~= strs_view(labels_before).push(variants@[idx as int]@));
                        assert(base.take(idx + 2) =~= base.take(idx + 1).push(PinMode::Configured(mode)));
                        assert(strs_view(variants@).take(idx + 1) =~= strs_view(variants@).take(idx as int).push(variants@[idx as int]@));
                    }
                    idx += 1;
                }
                proof {
                    assert(base.take(idx + 1) =~= base);
                    assert(strs_view(variants@).take(idx as int) =~= strs_view(variants@));
                }
                let selected_idx = match config {
                    Some(c) => {
                        let current = c.current_mode_index();
                        proof {
                            crate::gpio::lemma_mode_index_in_range(c);
                        }
                        if current + 1 < items.len() {
                            items.set(current + 1, PinMode::Configured(c));
                        }
                        current + 1
                    },
                    None => 0,
                };
                self.mode.replace_items(items);
                self.mode.reset_selected(selected_idx);
                self.mode_labels = labels;
            },
        }
    }

    /// Shows a board pin with its current GPIO configuration.
    pub fn select_pin(&mut self, pin: Pin, config: Option<PinConfig>)
        ensures
            final(self)@ == old(self)@.with_pin(pin@, match config {
                Some(c) => Some(c@),
                None => None,
            }),
    {
        self.error = None;
        let mode_config = match &config {
            Some(c) => Some(c.pin),
            None => None,
        };
        self.rebuild_mode_options(&pin, mode_config);
        self.selected_pin = Some(pin);
        self.alias = match config {
            Some(c) => match c.label {
                Some(l) => l,
                None => String::new(),
            },
            None => String::new(),
        };
    }

    /// Shows no pin.
    pub fn clear_selection(&mut self)
        ensures
            final(self)@ == old(self)@.cleared(),
    {
        self.selected_pin = None;
        self.mode.replace_items(Vec::new());
        self.mode_labels = Vec::new();
        self.alias = String::new();
        self.error = None;
        proof {
            assert(self.mode.items@ =~= Seq::<PinMode>::empty());
            assert(strs_view(self.mode_labels@) =~= Seq::<Seq<char>>::empty());
        }
    }

    /// Returns the chosen mode, if it is configured.
    pub fn selected_mode(&self) -> (mode: Option<ChosenPinWithMode>)
        ensures
            mode == self@.selected_mode(),
    {
        match self.mode.selected() {
            Some(m) => m.configured(),
            None => None,
        }
    }

    /// Returns the properties of the chosen mode.
    pub fn selected_properties(&self) -> (props: Vec<(&'static str, Vec<&'static str>, usize)>)
        ensures
            properties_view(props@) == match entry_at(self@.modes, self@.mode_idx) {
                Some(m) => m.spec_properties(),
                None => Seq::<PropertyView>::empty(),
            },
    {
        match self.mode.selected() {
            Some(m) => m.properties(),
            None => {
                let props: Vec<(&'static str, Vec<&'static str>, usize)> = Vec::new();
                proof {
                    assert(properties_view(props@) =~= Seq::<PropertyView>::empty());
                }
                props
            },
        }
    }

    /// Reads the chosen mode and alias to hand on.
    pub fn apply(&mut self) -> (config: PinModeFormConfig)
        ensures
            final(self)@ == (PinModeFormView { error: None, ..old(self)@ }),
            config.mode == old(self)@.selected_mode(),
            opt_text(config.alias) == old(self)@.alias_value(),
    {
        let alias = trimmed(self.alias.as_str());
        let config = PinModeFormConfig {
            mode: self.selected_mode(),
            alias: if alias.unicode_len() == 0 { None } else { Some(alias) },
        };
        self.error = None;
        config
    }

    /// Applies a change to the form; returns what to hand on when the
    /// change applied the form.
    pub fn update(&mut self, message: PinModeFormInput) -> (applied: Option<PinModeFormConfig>)
        ensures
            final(self)@ == pin_mode_form_after(old(self)@, message),
            message is Apply ==> (applied matches Some(c) && c.mode == old(self)@.selected_mode()
                && opt_text(c.alias) == old(self)@.alias_value()),
            !(message is Apply) ==> applied is None,
    {
        match message {
            PinModeFormInput::SelectPin { pin, config } => self.select_pin(pin, config),
            PinModeFormInput::ClearSelection => self.clear_selection(),
            PinModeFormInput::AliasChanged(alias) => self.alias = alias,
            PinModeFormInput::ModeSelected(idx) => self.mode.selected_idx = idx,
            PinModeFormInput::PropertyChanged(prop_idx, variant_idx) => {
                let idx = self.mode.selected_idx;
                if idx < self.mode.items.len() {
                    let mut mode = self.mode.items[idx];
                    mode.set_property(prop_idx, variant_idx);
                    self.mode.items.set(idx, mode);
                }
            },
            PinModeFormInput::Apply => return Some(self.apply()),
            PinModeFormInput::SetError(message) => self.error = Some(message),
            PinModeFormInput::ClearError => self.error = None,
        }
        None
    }
}

} // verus!
