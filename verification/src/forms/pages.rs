//! What the pages of the configurator decide: which buses, mappings and
//! pins to offer, and what a change does to the configuration.

use vstd::prelude::*;
use crate::board::{Pin, PinType, TargetBoard, TargetBoardId};
use crate::config::{gpio_position, Config, ConfigView, PeripheralId, PinConfig, PinConfigView, SpiConfig};
use crate::config::board_pins::opt_text;
use crate::errors::ConfigError;
use crate::gpio::{buses_contain, pins_contain, ChosenPin, ChosenPinWithMode, ChosenSpiBus, SpiMapping};
use crate::peripherals::Peripheral;
use crate::peripherals::ethernet::w5500::W5500Config;
use crate::seqs::first_index;
use crate::text::{decimal, flat_map, lemma_flat_map_push, push_number};

verus! {

/// The GPIO pins of the board that nothing uses yet, in board order.
pub open spec fn free_pins(c: ConfigView) -> Seq<ChosenPin> {
    c.board.spec_gpio_pins().filter(|p: ChosenPin| !c.used_pins().contains(p))
}

/// The buses that the SPI page offers: those the board can carry that are
/// not configured yet, in MCU order.
pub open spec fn offered_buses(c: ConfigView) -> Seq<ChosenSpiBus> {
    c.available_buses().filter(|b: ChosenSpiBus| !c.has_spi_bus(b))
}

/// Whether every pin of the mapping is a free pin of the board.
pub open spec fn mapping_free(c: ConfigView, m: SpiMapping) -> bool {
    &&& free_pins(c).contains(m.sck)
    &&& free_pins(c).contains(m.miso)
    &&& free_pins(c).contains(m.mosi)
}

/// The mappings that the SPI page offers: those of the offered buses whose
/// pins are all free, bus by bus.
pub open spec fn offered_mappings(c: ConfigView) -> Seq<SpiMapping> {
    flat_map(offered_buses(c), |b: ChosenSpiBus| b.spec_mappings().filter(|m: SpiMapping| mapping_free(c, m)))
}

/// Returns the GPIO pins of the board that nothing uses yet.
pub fn free_board_pins(config: &Config) -> (pins: Vec<ChosenPin>)
    ensures
        pins@ == free_pins(config@),
{
    let used = config.all_uses_pins();
    let board_pins = config.board().gpio_pins();
    let ghost pred = |p: ChosenPin| !config@.used_pins().contains(p);
    let mut pins: Vec<ChosenPin> = Vec::new();
    let mut i: usize = 0;
    while i < board_pins.len()
        invariant
            used@ == config@.used_pins(),
            board_pins@ == config@.board.spec_gpio_pins(),
            pred == (|p: ChosenPin| !config@.used_pins().contains(p)),
            i <= board_pins@.len(),
            pins@ == board_pins@.take(i as int).filter(pred),
        decreases board_pins@.len() - i,
    {
        let pin = board_pins[i];
        proof {
            reveal(Seq::filter);
            assert(board_pins@.take(i + 1).drop_last() =~= board_pins@.take(i as int));
            assert(board_pins@.take(i + 1).last() == pin);
        }
        if !pins_contain(&used, pin) {
            pins.push(pin);
        }
        i += 1;
    }
    proof {
        assert(board_pins@.take(i as int) =~= board_pins@);
    }
    pins
}

/// Returns the buses and mappings that the SPI page offers.
pub fn spi_page_options(config: &Config) -> (options: (Vec<ChosenSpiBus>, Vec<SpiMapping>))
    ensures
        options.0@ == offered_buses(config@),
        options.1@ == offered_mappings(config@),
{
    let available = config.available_spi_buses();
    let free = free_board_pins(config);
    let ghost bus_pred = |b: ChosenSpiBus| !config@.has_spi_bus(b);
    let ghost f = |b: ChosenSpiBus| b.spec_mappings().filter(|m: SpiMapping| mapping_free(config@, m));
    let mut buses: Vec<ChosenSpiBus> = Vec::new();
    let mut mappings: Vec<SpiMapping> = Vec::new();
    let mut i: usize = 0;
    while i < available.len()
        invariant
            available@ == config@.available_buses(),
            free@ == free_pins(config@),
            bus_pred == (|b: ChosenSpiBus| !config@.has_spi_bus(b)),
            f == (|b: ChosenSpiBus| b.spec_mappings().filter(|m: SpiMapping| mapping_free(config@, m))),
            i <= available@.len(),
            buses@ == available@.take(i as int).filter(bus_pred),
            mappings@ == flat_map(buses@, f),
        decreases available@.len() - i,
    {
        let bus = available[i];
        proof {
            reveal(Seq::filter);
            assert(available@.take(i + 1).drop_last() =~= available@.take(i as int));
            assert(available@.take(i + 1).last() == bus);
        }
        let configured = bus_configured(config, bus);
        if !configured {
            let bus_mappings = bus.spi_mappings();
            let ghost m_pred = |m: SpiMapping| mapping_free(config@, m);
            let ghost before = mappings@;
            let mut j: usize = 0;
            while j < bus_mappings.len()
                invariant
                    free@ == free_pins(config@),
                    bus_mappings@ == bus.spec_mappings(),
                    m_pred == (|m: SpiMapping| mapping_free(config@, m)),
                    j <= bus_mappings@.len(),
                    mappings@ == before + bus_mappings@.take(j as int).filter(m_pred),
                decreases bus_mappings@.len() - j,
            {
                let m = bus_mappings[j];
                proof {
                    reveal(Seq::filter);
                    assert(bus_mappings@.take(j + 1).drop_last() =~= bus_mappings@.take(j as int));
                    assert(bus_mappings@.take(j + 1).last() == m);
                }
                if pins_contain(&free, m.sck) && pins_contain(&free, m.miso) && pins_contain(&free, m.mosi) {
                    mappings.push(m);
                    proof {
                        assert(before + bus_mappings@.take(j + 1).filter(m_pred)
                            =~= (before + bus_mappings@.take(j as int).filter(m_pred)).push(m));
                    }
                }
                j += 1;
            }
            proof {
                assert(bus_mappings@.take(j as int) =~= bus_mappings@);
                assert(f(bus) == bus_mappings@.filter(m_pred));
                lemma_flat_map_push(buses@, f, bus);
            }
            buses.push(bus);
        }
        i += 1;
    }
    proof {
        assert(available@.take(i as int) =~= available@);
    }
    (buses, mappings)
}

/// Returns whether the bus is configured.
fn bus_configured(config: &Config, bus: ChosenSpiBus) -> (found: bool)
    ensures
        found == config@.has_spi_bus(bus),
{
    let spis = config.spi();
    let mut i: usize = 0;
    while i < spis.len()
        invariant
            spis@ == config@.spi,
            i <= spis@.len(),
            forall|j: int| 0 <= j < i ==> (#[trigger] spis@[j]).bus != bus,
        decreases spis@.len() - i,
    {
        if spis[i].bus == bus {
            return true;
        }
        i += 1;
    }
    false
}


/// Returns the configured buses and the free pins that the peripherals page
/// offers.
pub fn peripheral_page_options(config: &Config) -> (options: (Vec<ChosenSpiBus>, Vec<ChosenPin>))
    ensures
        options.0@ == config@.spi.map_values(|s: SpiConfig| s.bus),
        options.1@ == free_pins(config@),
{
    let spis = config.spi();
    let mut buses: Vec<ChosenSpiBus> = Vec::new();
    let mut i: usize = 0;
    while i < spis.len()
        invariant
            spis@ == config@.spi,
            i <= spis@.len(),
            buses@ == spis@.take(i as int).map_values(|s: SpiConfig| s.bus),
        decreases spis@.len() - i,
    {
        buses.push(spis[i].bus);
        proof {
            assert(spis@.take(i + 1).map_values(|s: SpiConfig| s.bus)
                =~= spis@.take(i as int).map_values(|s: SpiConfig| s.bus).push(spis@[i as int].bus));
        }
        i += 1;
    }
    proof {
        assert(spis@.take(i as int) =~= spis@);
    }
    (buses, free_board_pins(config))
}

/// Adds an SPI bus; a refusal comes back as its message.
pub fn add_bus(config: &mut Config, spi: SpiConfig) -> (result: Result<(), String>)
    ensures
        match old(config)@.spi_refusal(spi) {
            Some(e) => (result matches Err(m) && m@ == e.spec_message()) && final(config)@ == old(config)@,
            None => result is Ok && final(config)@ == old(config)@.with_spi(spi),
        },
        final(config)@.wf(),
{
    match config.add_spi_bus(spi) {
        Ok(()) => Ok(()),
        Err(e) => Err(e.message()),
    }
}

/// Why a bus cannot be removed: it is not configured.
pub open spec fn bus_not_found_message(bus: ChosenSpiBus) -> Seq<char> {
    "SPI-шина "@ + bus.spec_name() + " не найдена в конфигурации"@
}

/// Why a bus cannot be removed: a peripheral sits on it.
pub open spec fn bus_in_use_message() -> Seq<char> {
    "Шина используется периферией. Сначала удалите связанную периферию."@
}

/// Removes an SPI bus; a refusal comes back as its message.
pub fn remove_bus(config: &mut Config, bus: ChosenSpiBus) -> (result: Result<(), String>)
    ensures
        old(config)@.bus_has_peripheral(bus) ==> (result matches Err(m) && m@ == bus_in_use_message())
            && final(config)@ == old(config)@,
        !old(config)@.bus_has_peripheral(bus) ==> match first_index(old(config)@.spi, |s: SpiConfig| s.bus == bus) {
            Some(k) => result is Ok && final(config)@ == old(config)@.without_spi(k),
            None => (result matches Err(m) && m@ == bus_not_found_message(bus)) && final(config)@ == old(config)@,
        },
        final(config)@.wf(),
{
    match config.remove_spi(&bus) {
        Ok(Some(_)) => Ok(()),
        Ok(None) => {
            let mut message = String::from_str("SPI-шина ");
            message.append(bus.variant_name());
            message.append(" не найдена в конфигурации");
            Err(message)
        },
        Err(ConfigError::SpiBusInUse(_)) => Err(String::from_str(
            "Шина используется периферией. Сначала удалите связанную периферию.",
        )),
        Err(e) => Err(e.message()),
    }
}

/// Adds a W5500 module; a refusal comes back as its message.
pub fn add_w5500(config: &mut Config, w5500: W5500Config) -> (result: Result<PeripheralId, String>)
    requires
        old(config)@.next_id < u64::MAX,
    ensures
        match old(config)@.peripheral_refusal(Peripheral::W5500(w5500)) {
            Some(e) => (result matches Err(m) && m@ == e.spec_message()) && final(config)@ == old(config)@,
            None => result == Ok::<PeripheralId, String>(PeripheralId::with_number(old(config)@.next_id))
                && final(config)@ == old(config)@.with_peripheral(Peripheral::W5500(w5500)),
        },
        final(config)@.wf(),
{
    match config.add_peripheral(Peripheral::W5500(w5500)) {
        Ok(id) => Ok(id),
        Err(e) => Err(e.message()),
    }
}

/// Why a peripheral cannot be removed: its identifier is unknown.
pub open spec fn peripheral_not_found_message(id: PeripheralId) -> Seq<char> {
    "Периферия #"@ + decimal(id.spec_get() as nat) + " не найдена"@
}

/// Removes a peripheral; an unknown identifier comes back as a message.
pub fn remove_peripheral(config: &mut Config, id: PeripheralId) -> (result: Result<Peripheral, String>)
    ensures
        match first_index(old(config)@.peripherals, |e: (PeripheralId, Peripheral)| e.0 == id) {
            Some(k) => result == Ok::<Peripheral, String>(old(config)@.peripherals[k].1)
                && final(config)@ == old(config)@.without_peripheral(k),
            None => (result matches Err(m) && m@ == peripheral_not_found_message(id)) && final(config)@ == old(config)@,
        },
        final(config)@.wf(),
{
    match config.remove_peripheral(id) {
        Some(peripheral) => Ok(peripheral),
        None => {
            let mut message = String::from_str("Периферия #");
            push_number(&mut message, id.get());
            message.append(" не найдена");
            Err(message)
        },
    }
}

/// The configuration without the GPIO configuration of the pin.
pub open spec fn without_pin(c: ConfigView, pin: ChosenPin) -> ConfigView {
    match gpio_position(c.gpio, pin) {
        Some(k) => c.without_gpio(k),
        None => c,
    }
}

/// Replaces the GPIO configuration of a pin with the one the form applied:
/// the old configuration goes first; a new mode is then added, and a
/// refusal comes back as its message.
pub fn apply_pin_config(config: &mut Config, pin: ChosenPin, mode: Option<ChosenPinWithMode>, alias: Option<String>)
    -> (result: Result<(), String>)
    ensures
        match mode {
            None => result is Ok && final(config)@ == without_pin(old(config)@, pin),
            Some(m) => {
                let cleared = without_pin(old(config)@, pin);
                let g = PinConfigView { pin: m, label: opt_text(alias) };
                if cleared.used_pins().contains(m.spec_pin()) {
                    (result matches Err(e) && e@ == ConfigError::PinAlreadyInUse(m.spec_pin()).spec_message())
                        && final(config)@ == cleared
                } else if cleared.has_label(g.label_text()) {
                    (result matches Err(e) && e@ == "Название пина уже используется: "@ + g.label_text())
                        && final(config)@ == cleared
                } else {
                    result is Ok && final(config)@ == cleared.with_gpio(g)
                }
            },
        },
        final(config)@.wf(),
{
    let _removed = config.remove_gpio_pin(&pin);
    match mode {
        None => Ok(()),
        Some(m) => match config.add_gpio_pin(PinConfig { pin: m, label: alias }) {
            Ok(()) => Ok(()),
            Err(e) => Err(e.message()),
        },
    }
}

/// Returns whether an SPI bus or a peripheral takes the board pin, so that
/// the GPIO page must not edit it.
pub fn pin_locked_by_non_gpio(config: &Config, pin: &Pin) -> (locked: bool)
    ensures
        locked == match pin.pin_type {
            PinType::Gpio(chosen) => config@.not_gpio_pins().contains(chosen),
            PinType::Power => false,
        },
{
    match pin.pin_type {
        PinType::Gpio(chosen) => {
            let external = config.not_gpio_configured_pins();
            pins_contain(&external, chosen)
        },
        PinType::Power => false,
    }
}

/// Returns the current GPIO configuration of the board pin.
pub fn find_gpio_config(config: &Config, pin: &Pin) -> (found: Option<PinConfig>)
    ensures
        match pin.pin_type {
            PinType::Gpio(chosen) => match gpio_position(config@.gpio, chosen) {
                Some(k) => found matches Some(c) && c@ == config@.gpio[k],
                None => found is None,
            },
            PinType::Power => found is None,
        },
{
    match pin.pin_type {
        PinType::Gpio(chosen) => {
            let configured = config.gpio();
            proof {
                crate::config::lemma_gpio_position_bounds(config@.gpio, chosen);
            }
            match config.gpio_index(chosen) {
                Some(k) => {
                    proof {
                        assert(config@.gpio[k as int] == configured@[k as int]@);
                    }
                    Some(configured[k].clone())
                },
                None => None,
            }
        },
        PinType::Power => None,
    }
}


/// The pages of the configurator.
#[derive(Debug, PartialEq, Eq, Clone, Copy, Structural)]
pub enum Page {
    Start,
    Peripherals,
    Pins,
    Spi,
    Run,
}

/// The page whose tab has the name, if any.
pub open spec fn spec_page_of(name: Seq<char>) -> Option<Page> {
    if name == "start"@ {
        Some(Page::Start)
    } else if name == "pins"@ {
        Some(Page::Pins)
    } else if name == "spi"@ {
        Some(Page::Spi)
    } else if name == "peripherals"@ {
        Some(Page::Peripherals)
    } else if name == "run"@ {
        Some(Page::Run)
    } else {
        None
    }
}

/// Returns whether two texts are the same.
fn same_text(a: &str, b: &str) -> (same: bool)
    ensures
        same == (a@ == b@),
{
    let n = a.unicode_len();
    if n != b.unicode_len() {
        return false;
    }
    let mut i: usize = 0;
    while i < n
        invariant
            n == a@.len() && n == b@.len(),
            i <= n,
            forall|j: int| 0 <= j < i ==> a@[j] == b@[j],
        decreases n - i,
    {
        if a.get_char(i) != b.get_char(i) {
            return false;
        }
        i += 1;
    }
    proof {
        assert(a@ =~= b@);
    }
    true
}

/// Returns the page whose tab has the name, if any.
pub fn page_of(name: &str) -> (page: Option<Page>)
    ensures
        page == spec_page_of(name@),
{
    if same_text(name, "start") {
        Some(Page::Start)
    } else if same_text(name, "pins") {
        Some(Page::Pins)
    } else if same_text(name, "spi") {
        Some(Page::Spi)
    } else if same_text(name, "peripherals") {
        Some(Page::Peripherals)
    } else if same_text(name, "run") {
        Some(Page::Run)
    } else {
        None
    }
}

/// The boards the start page offers: the Black Pill with its STM32F401.
pub fn board_choices() -> (boards: Vec<TargetBoard>)
    ensures
        boards@.len() == 1,
        boards@[0].spec_id() == TargetBoardId::BlackPill,
        boards@[0].spec_mcu() == crate::gpio::TargetMcu::StmF401,
{
    match TargetBoard::try_new(TargetBoardId::BlackPill, crate::gpio::TargetMcu::StmF401) {
        Ok(black_pill) => vec![black_pill],
        Err(_) => {
            proof {
                assert(crate::board::spec_supported_mcus(TargetBoardId::BlackPill)[0] == crate::gpio::TargetMcu::StmF401);
            }
            Vec::new()
        },
    }
}

/// Whether a board of the list is `board`.
pub open spec fn is_board(board: TargetBoard) -> spec_fn(TargetBoard) -> bool {
    |b: TargetBoard| b == board
}

/// The index of the first board of the list that equals `board`, else `0`.
pub open spec fn board_position(boards: Seq<TargetBoard>, board: TargetBoard) -> nat {
    match first_index(boards, is_board(board)) {
        Some(k) => k as nat,
        None => 0,
    }
}

/// The state of the start page: the boards to choose from.
pub struct StartPage {
    pub board: crate::forms::Choice<TargetBoard>,
}

/// A change on the start page.
pub enum StartPageInput {
    /// The page became visible; show the board of the configuration.
    UpdateConfig,
    /// A board was chosen by its index.
    BoardSelected(usize),
}

impl StartPage {
    /// A start page offering the supported boards, showing the board of the
    /// configuration.
    pub fn new(config: &Config) -> (page: Self)
        ensures
            page.board.items@.len() == 1,
            page.board.items@[0].spec_id() == TargetBoardId::BlackPill,
            page.board.items@[0].spec_mcu() == crate::gpio::TargetMcu::StmF401,
            page.board.selected_idx == board_position(page.board.items@, config@.board),
    {
        let mut board = crate::forms::Choice::new(board_choices());
        board.selected_idx = Self::position_of(&board.items, config.board());
        StartPage { board }
    }

    /// Returns the index of the board in the list, else `0`.
    fn position_of(boards: &Vec<TargetBoard>, current: TargetBoard) -> (idx: usize)
        ensures
            idx == board_position(boards@, current),
    {
        let ghost pred = is_board(current);
        let mut i: usize = 0;
        while i < boards.len()
            invariant
                pred == is_board(current),
                i <= boards@.len(),
                first_index(boards@.take(i as int), pred) is None,
            decreases boards@.len() - i,
        {
            proof {
                crate::seqs::lemma_first_index_step(boards@, pred, i as int);
            }
            if boards[i] == current {
                proof {
                    assert(first_index(boards@, pred) == Some(i as int));
                }
                return i;
            }
            i += 1;
        }
        proof {
            assert(boards@.take(i as int) =~= boards@);
            assert(first_index(boards@, pred) is None);
        }
        0
    }

    /// Applies a change. Choosing another board starts a fresh configuration
    /// of it; an index that names no board keeps the choice inside the list.
    pub fn update(&mut self, config: &mut Config, message: StartPageInput)
        ensures
            final(self).board.items@ == old(self).board.items@,
            match message {
                StartPageInput::UpdateConfig => final(self).board.selected_idx == board_position(
                    old(self).board.items@,
                    old(config)@.board,
                ) && final(config)@ == old(config)@,
                StartPageInput::BoardSelected(idx) => if old(self).board.selected_idx == idx {
                    final(self).board.selected_idx == idx && final(config)@ == old(config)@
                } else if idx >= old(self).board.items@.len() {
                    final(self).board.selected_idx == crate::forms::spec_clamp_index(
                        old(self).board.selected_idx as nat,
                        old(self).board.items@.len(),
                    ) && final(config)@ == old(config)@
                } else {
                    let board = old(self).board.items@[idx as int];
                    &&& final(self).board.selected_idx == idx
                    &&& board == old(config)@.board ==> final(config)@ == old(config)@
                    &&& board != old(config)@.board ==> final(config)@.board == board
                        && final(config)@.gpio.len() == 0 && final(config)@.spi.len() == 0
                        && final(config)@.peripherals.len() == 0 && final(config)@.next_id == 0
                },
            },
            final(config)@.wf(),
    {
        proof {
            use_type_invariant(&*config);
        }
        match message {
            StartPageInput::UpdateConfig => {
                self.board.selected_idx = Self::position_of(&self.board.items, config.board());
            },
            StartPageInput::BoardSelected(idx) => {
                if self.board.selected_idx == idx {
                    return;
                }
                if idx >= self.board.items.len() {
                    self.board.clamp_selected();
                    return;
                }
                let board = self.board.items[idx];
                self.board.selected_idx = idx;
                if board != config.board() {
                    *config = Config::new(board);
                }
            },
        }
    }
}

} // verus!
