//! The W5500 Ethernet controller.

use vstd::prelude::*;
use crate::errors::ConfigError;
use crate::gpio::{ChosenPin, ChosenSpiBus};
use crate::peripherals::ethernet::{Ipv4Addr, MacAddr};

verus! {

/// Network parameters of a device.
#[derive(Debug, Clone, Copy, PartialEq, Eq)]
pub struct NetworkConfig {
    pub mac: MacAddr,
    pub ip: Ipv4Addr,
    pub subnet: Ipv4Addr,
    pub gateway: Ipv4Addr,
}

/// Socket mode of the W5500.
///
/// Only a TCP server is supported so far.
#[derive(Debug, Clone, Copy, PartialEq, Eq, Structural)]
pub enum SocketMode {
    /// Listens for incoming TCP connections on the port.
    TcpServer {
        port: u16,
        /// The W5500 has eight independent sockets, `0..=7`.
        socket_num: u8,
    },
}

/// Configuration of one W5500 module.
#[derive(Debug, Clone, Copy, PartialEq, Eq)]
pub struct W5500Config {
    pub spi_bus: ChosenSpiBus,
    /// Chip select.
    pub cs: ChosenPin,
    /// Hardware reset.
    pub rst: ChosenPin,
    pub network: NetworkConfig,
    /// Socket mode.
    pub socket_mode: SocketMode,
}

impl W5500Config {
    /// The control pins of the module: chip select, then reset.
    pub open spec fn spec_uses_pins(self) -> Seq<ChosenPin> {
        seq![self.cs, self.rst]
    }

    /// Creates the configuration, refusing the same pin for chip select and reset.
    pub fn new(
        spi_bus: ChosenSpiBus,
        cs: ChosenPin,
        rst: ChosenPin,
        network: NetworkConfig,
        socket_mode: SocketMode,
    ) -> (config: Result<Self, ConfigError>)
        ensures
            cs == rst ==> config == Err::<Self, ConfigError>(ConfigError::PinAlreadyInUse(rst)),
            cs != rst ==> (config matches Ok(c) && c.spi_bus == spi_bus && c.cs == cs && c.rst == rst
                && c.network == network && c.socket_mode == socket_mode),
    {
        let config = W5500Config { spi_bus, cs, rst, network, socket_mode };
        match config.validate() {
            Ok(()) => Ok(config),
            Err(e) => Err(e),
        }
    }

    /// Checks the configuration: chip select and reset must be different pins.
    pub fn validate(&self) -> (result: Result<(), ConfigError>)
        ensures
            self.cs == self.rst ==> result == Err::<(), ConfigError>(ConfigError::PinAlreadyInUse(self.rst)),
            self.cs != self.rst ==> result is Ok,
    {
        if self.cs == self.rst {
            return Err(ConfigError::PinAlreadyInUse(self.rst));
        }
        Ok(())
    }

    /// Returns the control pins of the module: chip select, then reset.
    pub fn uses_pins(&self) -> (pins: Vec<ChosenPin>)
        ensures
            pins@ == self.spec_uses_pins(),
    {
        vec![self.cs, self.rst]
    }
}

} // verus!
