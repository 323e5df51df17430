//! Microcontrollers, their pins, pin modes and SPI buses.

pub mod f1;
pub mod f4;

use vstd::prelude::*;
use crate::gpio::f1::f103::{StmF103Pin, StmF103SpiBus};
use crate::gpio::f1::StmF1PinMode;
use crate::gpio::f4::f401::{StmF401Pin, StmF401SpiBus};
use crate::gpio::f4::StmF4PinMode;
use crate::text::{decimal, strs_view};

verus! {

/// A property of a pin mode as the UI shows it: its title, the labels of
/// the values it can take, and the index of the current value.
pub type PropertyView = (Seq<char>, Seq<Seq<char>>, nat);

/// Views of a list of pin-mode properties.
pub open spec fn properties_view(props: Seq<(&'static str, Vec<&'static str>, usize)>) -> Seq<PropertyView> {
    props.map_values(|p: (&'static str, Vec<&'static str>, usize)| (p.0@, strs_view(p.1@), p.2 as nat))
}

/// Describes the MCU-specific modes of a pin to a user interface.
///
/// The UI lists the basic modes (such as input and output) and the
/// properties of the current mode (such as speed or pull), without knowing
/// which microcontroller the mode belongs to.
pub trait PinModeUiInfo: Sized {
    /// Labels of the basic modes.
    spec fn spec_mode_variants(&self) -> Seq<Seq<char>>;

    /// Index of the current basic mode among `spec_mode_variants`.
    spec fn spec_mode_index(&self) -> nat;

    /// The mode after choosing the basic mode with index `idx`.
    spec fn spec_set_mode_index(&self, idx: nat) -> Self;

    /// Properties of the current mode.
    spec fn spec_properties(&self) -> Seq<PropertyView>;

    /// The mode after giving property `prop_idx` the value `variant_idx`.
    spec fn spec_set_property(&self, prop_idx: nat, variant_idx: nat) -> Self;

    /// Returns the labels of the basic modes, such as `["Input", "Output"]`.
    fn mode_variants(&self) -> (variants: Vec<&'static str>)
        ensures
            strs_view(variants@) == self.spec_mode_variants(),
    ;

    /// Returns the index of the current basic mode in [`mode_variants`](Self::mode_variants).
    fn current_mode_index(&self) -> (idx: usize)
        ensures
            idx == self.spec_mode_index(),
    ;

    /// Chooses the basic mode by its index in [`mode_variants`](Self::mode_variants).
    ///
    /// An index that names no mode leaves the mode unchanged.
    fn set_mode_index(&mut self, idx: usize)
        ensures
            *final(self) == old(self).spec_set_mode_index(idx as nat),
    ;

    /// Returns the properties of the current mode: title, value labels and
    /// the index of the current value.
    fn properties(&self) -> (props: Vec<(&'static str, Vec<&'static str>, usize)>)
        ensures
            properties_view(props@) == self.spec_properties(),
    ;

    /// Gives property `prop_idx` the value with index `variant_idx`.
    ///
    /// Indices that name no property or value leave the mode unchanged.
    fn set_property(&mut self, prop_idx: usize, variant_idx: usize)
        ensures
            *final(self) == old(self).spec_set_property(prop_idx as nat, variant_idx as nat),
    ;
}

/// Microcontroller of a board.
#[derive(Debug, Clone, Copy, PartialEq, Eq, Structural)]
pub enum TargetMcu {
    StmF401,
    StmF103,
}

/// A GPIO pin of one of the supported microcontrollers.
#[derive(Debug, Clone, Copy, PartialEq, Eq, Structural)]
pub enum ChosenPin {
    StmF401(StmF401Pin),
    StmF103(StmF103Pin),
}

/// A GPIO pin together with its mode.
#[derive(Debug, Clone, Copy, PartialEq, Eq, Structural)]
pub enum ChosenPinWithMode {
    StmF401(StmF401Pin, StmF4PinMode),
    StmF103(StmF103Pin, StmF1PinMode),
}

/// An SPI bus of one of the supported microcontrollers.
#[derive(Debug, Clone, Copy, PartialEq, Eq, Structural)]
pub enum ChosenSpiBus {
    StmF401(StmF401SpiBus),
    StmF103(StmF103SpiBus),
}

/// A complete, hardware compatible assignment of pins to an SPI bus.
#[derive(Debug, Clone, Copy, PartialEq, Eq, Structural)]
pub struct SpiMapping {
    pub bus: ChosenSpiBus,
    pub sck: ChosenPin,
    pub miso: ChosenPin,
    pub mosi: ChosenPin,
}

impl TargetMcu {
    /// Every GPIO pin of the microcontroller, in declaration order.
    pub open spec fn spec_all_pins(self) -> Seq<ChosenPin> {
        match self {
            TargetMcu::StmF401 => StmF401Pin::spec_all().map_values(|p: StmF401Pin| ChosenPin::StmF401(p)),
            TargetMcu::StmF103 => StmF103Pin::spec_all().map_values(|p: StmF103Pin| ChosenPin::StmF103(p)),
        }
    }

    /// Every SPI bus of the microcontroller, in declaration order.
    pub open spec fn spec_all_spi_buses(self) -> Seq<ChosenSpiBus> {
        match self {
            TargetMcu::StmF401 => StmF401SpiBus::spec_all().map_values(|b: StmF401SpiBus| ChosenSpiBus::StmF401(b)),
            TargetMcu::StmF103 => StmF103SpiBus::spec_all().map_values(|b: StmF103SpiBus| ChosenSpiBus::StmF103(b)),
        }
    }

    /// Name of the variant, as `{:?}` prints it.
    pub open spec fn spec_debug_name(self) -> Seq<char> {
        match self {
            TargetMcu::StmF401 => "StmF401"@,
            TargetMcu::StmF103 => "StmF103"@,
        }
    }

    /// MCU family, which selects the template blocks.
    pub open spec fn spec_mcu_family(self) -> Seq<char> {
        match self {
            TargetMcu::StmF401 => "stm32f4"@,
            TargetMcu::StmF103 => "stm32f1"@,
        }
    }

    /// Version of the HAL crate of the family.
    pub open spec fn spec_hal_version(self) -> Seq<char> {
        match self {
            TargetMcu::StmF401 => "0.23.0"@,
            TargetMcu::StmF103 => "0.11.0"@,
        }
    }

    /// Feature of the HAL crate that selects the chip.
    pub open spec fn spec_hal_feature(self) -> Seq<char> {
        match self {
            TargetMcu::StmF401 => "stm32f401"@,
            TargetMcu::StmF103 => "stm32f103"@,
        }
    }

    /// Rust target triple of the core.
    pub open spec fn spec_target(self) -> Seq<char> {
        match self {
            TargetMcu::StmF401 => "thumbv7em-none-eabi"@,
            TargetMcu::StmF103 => "thumbv7m-none-eabi"@,
        }
    }

    /// Chip name that probe-rs knows.
    pub open spec fn spec_chip(self) -> Seq<char> {
        match self {
            TargetMcu::StmF401 => "STM32F401CCU6"@,
            TargetMcu::StmF103 => "STM32F103C8T6"@,
        }
    }

    /// Start address of the flash memory.
    pub open spec fn spec_flash_origin(self) -> Seq<char> {
        "0x08000000"@
    }

    /// Size of the flash memory.
    pub open spec fn spec_flash_length(self) -> Seq<char> {
        match self {
            TargetMcu::StmF401 => "256K"@,
            TargetMcu::StmF103 => "64K"@,
        }
    }

    /// Start address of the RAM.
    pub open spec fn spec_ram_origin(self) -> Seq<char> {
        "0x20000000"@
    }

    /// Size of the RAM.
    pub open spec fn spec_ram_length(self) -> Seq<char> {
        match self {
            TargetMcu::StmF401 => "64K"@,
            TargetMcu::StmF103 => "20K"@,
        }
    }

    /// Returns every GPIO pin of the microcontroller, in declaration order.
    pub fn all_pins(&self) -> (pins: Vec<ChosenPin>)
        ensures
            pins@ == self.spec_all_pins(),
    {
        let mut pins: Vec<ChosenPin> = Vec::new();
        match self {
            TargetMcu::StmF401 => {
                let all = StmF401Pin::all();
                let mut i: usize = 0;
                while i < all.len()
                    invariant
                        all@ == StmF401Pin::spec_all(),
                        i <= all@.len(),
                        pins@ == all@.take(i as int).map_values(|p: StmF401Pin| ChosenPin::StmF401(p)),
                    decreases all@.len() - i,
                {
                    pins.push(ChosenPin::StmF401(all[i]));
                    proof {
                        assert(all@.take(i + 1).map_values(|p: StmF401Pin| ChosenPin::StmF401(p))
                            =~= all@.take(i as int).map_values(|p: StmF401Pin| ChosenPin::StmF401(p)).push(ChosenPin::StmF401(all@[i as int])));
                    }
                    i += 1;
                }
                proof {
                    assert(all@.take(i as int) =~= all@);
                }
            },
            TargetMcu::StmF103 => {
                let all = StmF103Pin::all();
                let mut i: usize = 0;
                while i < all.len()
                    invariant
                        all@ == StmF103Pin::spec_all(),
                        i <= all@.len(),
                        pins@ == all@.take(i as int).map_values(|p: StmF103Pin| ChosenPin::StmF103(p)),
                    decreases all@.len() - i,
                {
                    pins.push(ChosenPin::StmF103(all[i]));
                    proof {
                        assert(all@.take(i + 1).map_values(|p: StmF103Pin| ChosenPin::StmF103(p))
                            =~= all@.take(i as int).map_values(|p: StmF103Pin| ChosenPin::StmF103(p)).push(ChosenPin::StmF103(all@[i as int])));
                    }
                    i += 1;
                }
                proof {
                    assert(all@.take(i as int) =~= all@);
                }
            },
        }
        pins
    }

    /// Returns every SPI bus of the microcontroller, in declaration order.
    pub fn all_spi_buses(&self) -> (buses: Vec<ChosenSpiBus>)
        ensures
            buses@ == self.spec_all_spi_buses(),
    {
        let buses = match self {
            TargetMcu::StmF401 => vec![
                ChosenSpiBus::StmF401(StmF401SpiBus::SPI1),
                ChosenSpiBus::StmF401(StmF401SpiBus::SPI2),
                ChosenSpiBus::StmF401(StmF401SpiBus::SPI3),
                ChosenSpiBus::StmF401(StmF401SpiBus::SPI4),
            ],
            TargetMcu::StmF103 => vec![
                ChosenSpiBus::StmF103(StmF103SpiBus::SPI1),
                ChosenSpiBus::StmF103(StmF103SpiBus::SPI2),
            ],
        };
        proof {
            assert(buses@ =~= self.spec_all_spi_buses());
        }
        buses
    }

    /// Returns the name of the variant, as `{:?}` prints it.
    pub fn debug_name(&self) -> (name: &'static str)
        ensures
            name@ == self.spec_debug_name(),
    {
        match self {
            TargetMcu::StmF401 => "StmF401",
            TargetMcu::StmF103 => "StmF103",
        }
    }

    /// Returns the MCU family, which selects the template blocks.
    pub fn mcu_family(&self) -> (family: &'static str)
        ensures
            family@ == self.spec_mcu_family(),
    {
        match self {
            TargetMcu::StmF401 => "stm32f4",
            TargetMcu::StmF103 => "stm32f1",
        }
    }

    /// Returns the version of the HAL crate of the family.
    pub fn hal_version(&self) -> (version: &'static str)
        ensures
            version@ == self.spec_hal_version(),
    {
        match self {
            TargetMcu::StmF401 => "0.23.0",
            TargetMcu::StmF103 => "0.11.0",
        }
    }

    /// Returns the feature of the HAL crate that selects the chip.
    pub fn hal_feature(&self) -> (feature: &'static str)
        ensures
            feature@ == self.spec_hal_feature(),
    {
        match self {
            TargetMcu::StmF401 => "stm32f401",
            TargetMcu::StmF103 => "stm32f103",
        }
    }

    /// Returns the Rust target triple of the core.
    pub fn target(&self) -> (target: &'static str)
        ensures
            target@ == self.spec_target(),
    {
        match self {
            TargetMcu::StmF401 => "thumbv7em-none-eabi",
            TargetMcu::StmF103 => "thumbv7m-none-eabi",
        }
    }

    /// Returns the chip name that probe-rs knows.
    pub fn chip(&self) -> (chip: &'static str)
        ensures
            chip@ == self.spec_chip(),
    {
        match self {
            TargetMcu::StmF401 => "STM32F401CCU6",
            TargetMcu::StmF103 => "STM32F103C8T6",
        }
    }

    /// Returns the start address of the flash memory.
    pub fn flash_origin(&self) -> (origin: &'static str)
        ensures
            origin@ == self.spec_flash_origin(),
    {
        "0x08000000"
    }

    /// Returns the size of the flash memory.
    pub fn flash_length(&self) -> (length: &'static str)
        ensures
            length@ == self.spec_flash_length(),
    {
        match self {
            TargetMcu::StmF401 => "256K",
            TargetMcu::StmF103 => "64K",
        }
    }

    /// Returns the start address of the RAM.
    pub fn ram_origin(&self) -> (origin: &'static str)
        ensures
            origin@ == self.spec_ram_origin(),
    {
        "0x20000000"
    }

    /// Returns the size of the RAM.
    pub fn ram_length(&self) -> (length: &'static str)
        ensures
            length@ == self.spec_ram_length(),
    {
        match self {
            TargetMcu::StmF401 => "64K",
            TargetMcu::StmF103 => "20K",
        }
    }
}

impl ChosenPin {
    /// Microcontroller the pin belongs to.
    pub open spec fn spec_mcu(self) -> TargetMcu {
        match self {
            ChosenPin::StmF401(_) => TargetMcu::StmF401,
            ChosenPin::StmF103(_) => TargetMcu::StmF103,
        }
    }

    /// Port letter of the pin.
    pub open spec fn port(self) -> char {
        match self {
            ChosenPin::StmF401(p) => p.port(),
            ChosenPin::StmF103(p) => p.port(),
        }
    }

    /// Number of the pin inside its port.
    pub open spec fn number(self) -> nat {
        match self {
            ChosenPin::StmF401(p) => p.number(),
            ChosenPin::StmF103(p) => p.number(),
        }
    }

    /// Name of the pin, such as `"A5"`.
    pub open spec fn spec_name(self) -> Seq<char> {
        seq![self.port()] + decimal(self.number())
    }

    /// The pin in its default mode.
    pub open spec fn spec_default_mode(self) -> ChosenPinWithMode {
        match self {
            ChosenPin::StmF401(p) => ChosenPinWithMode::StmF401(p, StmF4PinMode::spec_default()),
            ChosenPin::StmF103(p) => ChosenPinWithMode::StmF103(p, StmF1PinMode::spec_default()),
        }
    }

    /// Returns the MCU family of the pin.
    pub fn mcu_family(&self) -> (family: &'static str)
        ensures
            family@ == self.spec_mcu().spec_mcu_family(),
    {
        match self {
            ChosenPin::StmF401(_) => "stm32f4",
            ChosenPin::StmF103(_) => "stm32f1",
        }
    }

    /// Returns the HAL version of the pin's family.
    pub fn hal_version(&self) -> (version: &'static str)
        ensures
            version@ == self.spec_mcu().spec_hal_version(),
    {
        match self {
            ChosenPin::StmF401(_) => "0.23.0",
            ChosenPin::StmF103(_) => "0.11.0",
        }
    }

    /// Returns the HAL feature of the pin's chip.
    pub fn hal_feature(&self) -> (feature: &'static str)
        ensures
            feature@ == self.spec_mcu().spec_hal_feature(),
    {
        match self {
            ChosenPin::StmF401(_) => "stm32f401",
            ChosenPin::StmF103(_) => "stm32f103",
        }
    }

    /// Returns the name of the microcontroller of the pin, as `Debug` prints it.
    pub fn mcu_debug_name(&self) -> (name: &'static str)
        ensures
            name@ == self.spec_mcu().spec_debug_name(),
    {
        match self {
            ChosenPin::StmF401(_) => "StmF401",
            ChosenPin::StmF103(_) => "StmF103",
        }
    }

    /// Returns the name of the pin, such as `"A5"`.
    pub fn variant_name(&self) -> (name: &'static str)
        ensures
            name@ == self.spec_name(),
    {
        match self {
            ChosenPin::StmF401(p) => p.as_str(),
            ChosenPin::StmF103(p) => p.as_str(),
        }
    }

    /// Returns the pin in its default mode.
    pub fn default_mode(&self) -> (pin: ChosenPinWithMode)
        ensures
            pin == self.spec_default_mode(),
    {
        match self {
            ChosenPin::StmF401(p) => ChosenPinWithMode::StmF401(*p, StmF4PinMode::default()),
            ChosenPin::StmF103(p) => ChosenPinWithMode::StmF103(*p, StmF1PinMode::default()),
        }
    }
}

impl ChosenPinWithMode {
    /// The pin without its mode.
    pub open spec fn spec_pin(self) -> ChosenPin {
        match self {
            ChosenPinWithMode::StmF401(p, _) => ChosenPin::StmF401(p),
            ChosenPinWithMode::StmF103(p, _) => ChosenPin::StmF103(p),
        }
    }

    /// Template variables of the mode.
    pub open spec fn spec_template_vars(self) -> (Seq<char>, bool, Option<Seq<char>>) {
        match self {
            ChosenPinWithMode::StmF401(_, mode) => mode.spec_template_vars(),
            ChosenPinWithMode::StmF103(_, mode) => mode.spec_template_vars(),
        }
    }

    /// Returns the pin without its mode.
    pub fn pin(&self) -> (pin: ChosenPin)
        ensures
            pin == self.spec_pin(),
    {
        match self {
            ChosenPinWithMode::StmF401(p, _) => ChosenPin::StmF401(*p),
            ChosenPinWithMode::StmF103(p, _) => ChosenPin::StmF103(*p),
        }
    }

    /// Returns the template variables of the mode: the HAL method, whether
    /// the pin is an output, and the speed of an output.
    pub fn template_vars(&self) -> (vars: (&'static str, bool, Option<&'static str>))
        ensures
            (vars.0@, vars.1, match vars.2 {
                Some(s) => Some(s@),
                None => None,
            }) == self.spec_template_vars(),
    {
        match self {
            ChosenPinWithMode::StmF401(_, mode) => mode.template_vars(),
            ChosenPinWithMode::StmF103(_, mode) => mode.template_vars(),
        }
    }
}

impl PinModeUiInfo for ChosenPinWithMode {
    open spec fn spec_mode_variants(&self) -> Seq<Seq<char>> {
        match self {
            ChosenPinWithMode::StmF401(_, mode) => mode.spec_mode_variants(),
            ChosenPinWithMode::StmF103(_, mode) => mode.spec_mode_variants(),
        }
    }

    open spec fn spec_mode_index(&self) -> nat {
        match self {
            ChosenPinWithMode::StmF401(_, mode) => mode.spec_mode_index(),
            ChosenPinWithMode::StmF103(_, mode) => mode.spec_mode_index(),
        }
    }

    open spec fn spec_set_mode_index(&self, idx: nat) -> Self {
        match self {
            ChosenPinWithMode::StmF401(p, mode) => ChosenPinWithMode::StmF401(*p, mode.spec_set_mode_index(idx)),
            ChosenPinWithMode::StmF103(p, mode) => ChosenPinWithMode::StmF103(*p, mode.spec_set_mode_index(idx)),
        }
    }

    open spec fn spec_properties(&self) -> Seq<PropertyView> {
        match self {
            ChosenPinWithMode::StmF401(_, mode) => mode.spec_properties(),
            ChosenPinWithMode::StmF103(_, mode) => mode.spec_properties(),
        }
    }

    open spec fn spec_set_property(&self, prop_idx: nat, variant_idx: nat) -> Self {
        match self {
            ChosenPinWithMode::StmF401(p, mode) => ChosenPinWithMode::StmF401(*p, mode.spec_set_property(prop_idx, variant_idx)),
            ChosenPinWithMode::StmF103(p, mode) => ChosenPinWithMode::StmF103(*p, mode.spec_set_property(prop_idx, variant_idx)),
        }
    }

    fn mode_variants(&self) -> (variants: Vec<&'static str>) {
        match self {
            ChosenPinWithMode::StmF401(_, mode) => mode.mode_variants(),
            ChosenPinWithMode::StmF103(_, mode) => mode.mode_variants(),
        }
    }

    fn current_mode_index(&self) -> (idx: usize) {
        match self {
            ChosenPinWithMode::StmF401(_, mode) => mode.current_mode_index(),
            ChosenPinWithMode::StmF103(_, mode) => mode.current_mode_index(),
        }
    }

    fn set_mode_index(&mut self, idx: usize) {
        match self {
            ChosenPinWithMode::StmF401(_, mode) => mode.set_mode_index(idx),
            ChosenPinWithMode::StmF103(_, mode) => mode.set_mode_index(idx),
        }
    }

    fn properties(&self) -> (props: Vec<(&'static str, Vec<&'static str>, usize)>) {
        match self {
            ChosenPinWithMode::StmF401(_, mode) => mode.properties(),
            ChosenPinWithMode::StmF103(_, mode) => mode.properties(),
        }
    }

    fn set_property(&mut self, prop_idx: usize, variant_idx: usize) {
        match self {
            ChosenPinWithMode::StmF401(_, mode) => mode.set_property(prop_idx, variant_idx),
            ChosenPinWithMode::StmF103(_, mode) => mode.set_property(prop_idx, variant_idx),
        }
    }
}

impl ChosenSpiBus {
    /// Microcontroller the bus belongs to.
    pub open spec fn spec_mcu(self) -> TargetMcu {
        match self {
            ChosenSpiBus::StmF401(_) => TargetMcu::StmF401,
            ChosenSpiBus::StmF103(_) => TargetMcu::StmF103,
        }
    }

    /// Name of the bus, such as `"SPI1"`.
    pub open spec fn spec_name(self) -> Seq<char> {
        match self {
            ChosenSpiBus::StmF401(b) => b.spec_name(),
            ChosenSpiBus::StmF103(b) => b.spec_name(),
        }
    }

    /// The complete pin mappings of the bus.
    pub open spec fn spec_mappings(self) -> Seq<SpiMapping> {
        match self {
            ChosenSpiBus::StmF401(b) => b.spec_mappings(),
            ChosenSpiBus::StmF103(b) => seq![b.spec_mapping()],
        }
    }

    /// Returns the name of the bus, such as `"SPI1"`.
    pub fn variant_name(&self) -> (name: &'static str)
        ensures
            name@ == self.spec_name(),
    {
        match self {
            ChosenSpiBus::StmF401(b) => b.as_str(),
            ChosenSpiBus::StmF103(b) => b.as_str(),
        }
    }

    /// Returns the name of the microcontroller of the bus, as `Debug` prints it.
    pub fn mcu_debug_name(&self) -> (name: &'static str)
        ensures
            name@ == self.spec_mcu().spec_debug_name(),
    {
        match self {
            ChosenSpiBus::StmF401(_) => "StmF401",
            ChosenSpiBus::StmF103(_) => "StmF103",
        }
    }

    /// Returns the complete, hardware compatible pin mappings of the bus.
    pub fn spi_mappings(&self) -> (mappings: Vec<SpiMapping>)
        ensures
            mappings@ == self.spec_mappings(),
    {
        match self {
            ChosenSpiBus::StmF401(b) => b.spi_mappings(),
            ChosenSpiBus::StmF103(b) => b.spi_mappings(),
        }
    }
}

/// Returns whether `pin` occurs in `pins`.
pub fn pins_contain(pins: &Vec<ChosenPin>, pin: ChosenPin) -> (found: bool)
    ensures
        found == pins@.contains(pin),
{
    let mut i: usize = 0;
    while i < pins.len()
        invariant
            i <= pins@.len(),
            forall|j: int| 0 <= j < i ==> pins@[j] != pin,
        decreases pins@.len() - i,
    {
        if pins[i] == pin {
            return true;
        }
        i += 1;
    }
    false
}

/// Returns whether `bus` occurs in `buses`.
pub fn buses_contain(buses: &Vec<ChosenSpiBus>, bus: ChosenSpiBus) -> (found: bool)
    ensures
        found == buses@.contains(bus),
{
    let mut i: usize = 0;
    while i < buses.len()
        invariant
            i <= buses@.len(),
            forall|j: int| 0 <= j < i ==> buses@[j] != bus,
        decreases buses@.len() - i,
    {
        if buses[i] == bus {
            return true;
        }
        i += 1;
    }
    false
}

/// Every mapping of every bus belongs to that bus and uses three different
/// pins.
pub proof fn lemma_bus_mappings_sound(bus: ChosenSpiBus)
    ensures
        crate::gpio::f4::f401::mappings_sound(bus.spec_mappings(), bus),
{
    match bus {
        ChosenSpiBus::StmF401(b) => {
            let (scks, misos, mosis) = b.spec_candidates();
            crate::gpio::f4::f401::lemma_make_mappings_sound(bus, scks, misos, mosis);
        },
        ChosenSpiBus::StmF103(b) => {},
    }
}


/// Every pin name is an upper-case port letter followed by a pin number
/// below sixteen.
pub proof fn lemma_pin_name_shape(pin: ChosenPin)
    ensures
        'A' <= pin.port() <= 'Z',
        pin.number() < 16,
{
}


/// The current basic mode of a pin is one of the basic modes it offers.
pub proof fn lemma_mode_index_in_range(mode: ChosenPinWithMode)
    ensures
        mode.spec_mode_index() < mode.spec_mode_variants().len(),
{
}

} // verus!
