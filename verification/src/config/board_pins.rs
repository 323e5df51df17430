//! What the configuration means for the pins and buses of the board.

use vstd::prelude::*;
use crate::board::{Pin, PinType, PinView, pins_view};
use crate::config::{spi_uses, Config, SpiConfig, ConfigView, gpio_position, lemma_gpio_position_bounds, pin_configs_view};
use crate::gpio::{pins_contain, ChosenPin, ChosenSpiBus, SpiMapping};
use crate::seqs::{first_index, lemma_first_index_step};
use crate::text::strings_view;

verus! {

/// The text of an optional string.
pub open spec fn opt_text(s: Option<String>) -> Option<Seq<char>> {
    match s {
        Some(t) => Some(t@),
        None => None,
    }
}

impl ConfigView {
    /// Index of the first SPI bus that uses the pin.
    pub open spec fn spi_position(self, pin: ChosenPin) -> Option<int> {
        first_index(self.spi, |s: SpiConfig| spi_uses(s).contains(pin))
    }

    /// The buses of the microcontroller that the board can carry, in MCU order.
    pub open spec fn available_buses(self) -> Seq<ChosenSpiBus> {
        self.board.spec_mcu().spec_all_spi_buses().filter(|b: ChosenSpiBus| self.bus_available(b))
    }

    /// The alias of a board pin and whether it is configured: the label of
    /// its GPIO configuration, else the name of the SPI bus that uses it,
    /// else `"Peripheral"` when a peripheral uses it.
    pub open spec fn pin_alias(self, p: PinView) -> (Option<Seq<char>>, bool) {
        match p.pin_type {
            PinType::Gpio(chosen) => match gpio_position(self.gpio, chosen) {
                Some(k) => (self.gpio[k].label, true),
                None => match self.spi_position(chosen) {
                    Some(k) => (Some(self.spi[k].bus.spec_name()), true),
                    None => if crate::config::peripheral_pins_of(self.peripherals).contains(chosen) {
                        (Some("Peripheral"@), true)
                    } else {
                        (None, false)
                    },
                },
            },
            PinType::Power => (None, false),
        }
    }

    /// The key of a board pin that the GPIO page must not edit, if it is one.
    pub open spec fn locked_key(self, p: PinView) -> Option<Seq<char>> {
        match p.pin_type {
            PinType::Gpio(chosen) => if self.not_gpio_pins().contains(chosen) {
                Some(p.key)
            } else {
                None
            },
            PinType::Power => None,
        }
    }
}

impl Config {
    /// Returns whether the board brings out every pin of the mapping.
    fn mapping_on_board(board_pins: &Vec<ChosenPin>, m: SpiMapping) -> (found: bool)
        ensures
            found == (board_pins@.contains(m.sck) && board_pins@.contains(m.miso) && board_pins@.contains(m.mosi)),
    {
        pins_contain(board_pins, m.sck) && pins_contain(board_pins, m.miso) && pins_contain(board_pins, m.mosi)
    }

    /// Returns whether the bus has a mapping that the board brings out completely.
    fn bus_on_board(&self, board_pins: &Vec<ChosenPin>, bus: ChosenSpiBus) -> (found: bool)
        requires
            board_pins@ == self@.board.spec_gpio_pins(),
        ensures
            found == self@.bus_available(bus),
    {
        let mappings = bus.spi_mappings();
        let mut i: usize = 0;
        while i < mappings.len()
            invariant
                board_pins@ == self@.board.spec_gpio_pins(),
                mappings@ == bus.spec_mappings(),
                i <= mappings@.len(),
                forall|j: int| 0 <= j < i ==> !#[trigger] self@.mapping_on_board(mappings@[j]),
            decreases mappings@.len() - i,
        {
            if Self::mapping_on_board(board_pins, mappings[i]) {
                proof {
                    assert(self@.mapping_on_board(mappings@[i as int]));
                }
                return true;
            }
            i += 1;
        }
        false
    }

    /// Returns the SPI buses of the microcontroller for which the board brings
    /// out every pin of at least one mapping, in MCU order.
    pub fn available_spi_buses(&self) -> (buses: Vec<ChosenSpiBus>)
        ensures
            buses@ == self@.available_buses(),
    {
        let board_pins = self.board.gpio_pins();
        let all = self.board.mcu().all_spi_buses();
        let ghost pred = |b: ChosenSpiBus| self@.bus_available(b);
        let mut buses: Vec<ChosenSpiBus> = Vec::new();
        let mut i: usize = 0;
        while i < all.len()
            invariant
                board_pins@ == self@.board.spec_gpio_pins(),
                all@ == self@.board.spec_mcu().spec_all_spi_buses(),
                pred == (|b: ChosenSpiBus| self@.bus_available(b)),
                i <= all@.len(),
                buses@ == all@.take(i as int).filter(pred),
            decreases all@.len() - i,
        {
            let bus = all[i];
            proof {
                reveal(Seq::filter);
                assert(all@.take(i + 1).drop_last() =~= all@.take(i as int));
                assert(all@.take(i + 1).last() == bus);
            }
            if self.bus_on_board(&board_pins, bus) {
                buses.push(bus);
            }
            i += 1;
        }
        proof {
            assert(all@.take(i as int) =~= all@);
        }
        buses
    }

    /// Returns the name of the SPI bus that uses the pin, if one does.
    pub fn spi_pin_bus_name(&self, pin: ChosenPin) -> (name: Option<String>)
        ensures
            match self@.spi_position(pin) {
                Some(k) => opt_text(name) == Some(self@.spi[k].bus.spec_name()),
                None => name is None,
            },
    {
        let buses = self.spi();
        let ghost pred = |s: SpiConfig| spi_uses(s).contains(pin);
        let mut i: usize = 0;
        while i < buses.len()
            invariant
                buses@ == self@.spi,
                pred == (|s: SpiConfig| spi_uses(s).contains(pin)),
                i <= buses@.len(),
                first_index(buses@.take(i as int), pred) is None,
            decreases buses@.len() - i,
        {
            proof {
                lemma_first_index_step(buses@, pred, i as int);
            }
            let uses = buses[i].uses_pins();
            if pins_contain(&uses, pin) {
                return Some(String::from_str(buses[i].bus.variant_name()));
            }
            i += 1;
        }
        proof {
            assert(buses@.take(i as int) =~= buses@);
        }
        None
    }

    /// Returns each board pin with its alias and whether it is configured.
    ///
    /// A GPIO pin gets the alias of its configuration. Pins taken by an SPI
    /// bus or a peripheral count as configured too, so that the UI can show
    /// them as taken and lock them outside the page where they were set up.
    pub fn build_pins_with_aliases(&self, board_pins: &[Pin]) -> (pins: Vec<(Pin, Option<String>, bool)>)
        ensures
            pins@.len() == board_pins@.len(),
            forall|i: int| 0 <= i < pins@.len() ==> {
                &&& (#[trigger] pins@[i]).0@ == board_pins@[i]@
                &&& opt_text(pins@[i].1) == self@.pin_alias(board_pins@[i]@).0
                &&& pins@[i].2 == self@.pin_alias(board_pins@[i]@).1
            },
    {
        let configured_gpio = self.gpio();
        let peripheral_pins = self.peripheral_pins();
        let mut pins: Vec<(Pin, Option<String>, bool)> = Vec::new();
        let mut i: usize = 0;
        while i < board_pins.len()
            invariant
                pin_configs_view(configured_gpio@) == self@.gpio,
                peripheral_pins@ == crate::config::peripheral_pins_of(self@.peripherals),
                i <= board_pins@.len(),
                pins@.len() == i,
                forall|j: int| 0 <= j < i ==> {
                    &&& (#[trigger] pins@[j]).0@ == board_pins@[j]@
                    &&& opt_text(pins@[j].1) == self@.pin_alias(board_pins@[j]@).0
                    &&& pins@[j].2 == self@.pin_alias(board_pins@[j]@).1
                },
            decreases board_pins@.len() - i,
        {
            let pin = &board_pins[i];
            let mut alias: Option<String> = None;
            let mut is_configured = false;
            match pin.pin_type {
                PinType::Gpio(chosen_pin) => {
                    match self.gpio_index_of(chosen_pin) {
                        Some(k) => {
                            is_configured = true;
                            alias = match &configured_gpio[k].label {
                                Some(l) => Some(l.clone()),
                                None => None,
                            };
                            proof {
                                assert(self@.gpio[k as int] == configured_gpio@[k as int]@);
                            }
                        },
                        None => {
                            match self.spi_pin_bus_name(chosen_pin) {
                                Some(name) => {
                                    is_configured = true;
                                    alias = Some(name);
                                },
                                None => {
                                    if pins_contain(&peripheral_pins, chosen_pin) {
                                        is_configured = true;
                                        proof {
                                            reveal_strlit("Peripheral");
                                        }
                                        alias = Some(String::from_str("Peripheral"));
                                    }
                                },
                            }
                        },
                    }
                },
                PinType::Power => {},
            }
            pins.push((pin.clone(), alias, is_configured));
            i += 1;
        }
        pins
    }

    /// Returns the index of the first GPIO configuration of the pin.
    fn gpio_index_of(&self, pin: ChosenPin) -> (idx: Option<usize>)
        ensures
            match gpio_position(self@.gpio, pin) {
                Some(k) => idx == Some(k as usize) && 0 <= k < self@.gpio.len(),
                None => idx is None,
            },
    {
        proof {
            lemma_gpio_position_bounds(self@.gpio, pin);
        }
        self.gpio_index(pin)
    }

    /// Returns the keys of the board pins that the GPIO page must not edit:
    /// those taken by SPI buses and peripherals, in board order.
    pub fn not_gpio_configured_pins_keys(&self, board_pins: &[Pin]) -> (keys: Vec<String>)
        ensures
            strings_view(keys@) == pins_view(board_pins@).filter_map(|p: PinView| self@.locked_key(p)),
    {
        let external_pins = self.not_gpio_configured_pins();
        let ghost f = |p: PinView| self@.locked_key(p);
        let mut keys: Vec<String> = Vec::new();
        let mut i: usize = 0;
        while i < board_pins.len()
            invariant
                external_pins@ == self@.not_gpio_pins(),
                f == (|p: PinView| self@.locked_key(p)),
                i <= board_pins@.len(),
                strings_view(keys@) == pins_view(board_pins@.take(i as int)).filter_map(f),
            decreases board_pins@.len() - i,
        {
            let pin = &board_pins[i];
            proof {
                assert(pins_view(board_pins@.take(i + 1)).drop_last() =~= pins_view(board_pins@.take(i as int)));
                assert(pins_view(board_pins@.take(i + 1)).last() == pin@);
            }
            match pin.pin_type {
                PinType::Gpio(chosen_pin) => {
                    if pins_contain(&external_pins, chosen_pin) {
                        let ghost before = keys@;
                        keys.push(pin.key.clone());
                        proof {
                            assert(strings_view(keys@) =~= strings_view(before) + seq![pin@.key]);
                        }
                    }
                },
                PinType::Power => {},
            }
            i += 1;
        }
        proof {
            assert(board_pins@.take(i as int) =~= board_pins@);
        }
        keys
    }
}

} // verus!
