//! Peripherals that sit on a configured bus.

pub mod ethernet;

use vstd::prelude::*;
use crate::errors::ConfigError;
use crate::gpio::{ChosenPin, ChosenSpiBus};
use crate::peripherals::ethernet::w5500::W5500Config;
use crate::text::strs_view;

verus! {

/// Kind of peripheral that the UI offers to add.
#[derive(Debug, Clone, Copy, PartialEq, Eq)]
pub enum PeripheralKind {
    /// W5500 Ethernet controller on SPI.
    W5500,
}

/// A configured peripheral.
#[derive(Debug, Clone, Copy, PartialEq, Eq)]
pub enum Peripheral {
    /// W5500 Ethernet controller on SPI.
    W5500(W5500Config),
}

impl PeripheralKind {
    /// Name of the kind.
    pub open spec fn spec_label(self) -> Seq<char> {
        "W5500"@
    }

    /// Returns every kind, in declaration order.
    pub fn all() -> (kinds: Vec<PeripheralKind>)
        ensures
            kinds@ == seq![PeripheralKind::W5500],
    {
        vec![PeripheralKind::W5500]
    }

    /// Returns the names of every kind, in declaration order.
    pub fn labels() -> (labels: Vec<&'static str>)
        ensures
            strs_view(labels@) == seq!["W5500"@],
    {
        let labels = vec!["W5500"];
        proof {
            assert(strs_view(labels@) =~= seq!["W5500"@]);
        }
        labels
    }

    /// Returns the name of the kind.
    pub fn label(self) -> (label: &'static str)
        ensures
            label@ == self.spec_label(),
    {
        "W5500"
    }
}

impl Peripheral {
    /// SPI bus the peripheral sits on.
    pub open spec fn spec_spi_bus(self) -> ChosenSpiBus {
        match self {
            Peripheral::W5500(config) => config.spi_bus,
        }
    }

    /// Pins the peripheral uses besides its bus.
    pub open spec fn spec_uses_pins(self) -> Seq<ChosenPin> {
        match self {
            Peripheral::W5500(config) => config.spec_uses_pins(),
        }
    }

    /// Whether the peripheral's own parameters are consistent.
    pub open spec fn spec_valid(self) -> bool {
        match self {
            Peripheral::W5500(config) => config.cs != config.rst,
        }
    }

    /// The error that validation reports for an inconsistent peripheral.
    pub open spec fn spec_validation_error(self) -> ConfigError {
        match self {
            Peripheral::W5500(config) => ConfigError::PinAlreadyInUse(config.rst),
        }
    }

    /// Returns the SPI bus the peripheral sits on.
    pub fn spi_bus(&self) -> (bus: ChosenSpiBus)
        ensures
            bus == self.spec_spi_bus(),
    {
        match self {
            Peripheral::W5500(config) => config.spi_bus,
        }
    }

    /// Returns the pins the peripheral uses besides its bus.
    pub fn uses_pins(&self) -> (pins: Vec<ChosenPin>)
        ensures
            pins@ == self.spec_uses_pins(),
    {
        match self {
            Peripheral::W5500(config) => config.uses_pins(),
        }
    }

    /// Checks the peripheral's own parameters.
    pub fn validate(&self) -> (result: Result<(), ConfigError>)
        ensures
            self.spec_valid() ==> result is Ok,
            !self.spec_valid() ==> result == Err::<(), ConfigError>(self.spec_validation_error()),
    {
        match self {
            Peripheral::W5500(config) => config.validate(),
        }
    }
}

} // verus!
