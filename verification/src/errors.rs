//! Errors of the board and configuration model.

use vstd::prelude::*;
use crate::board::TargetBoardId;
use crate::gpio::{ChosenPin, ChosenSpiBus, TargetMcu};
use crate::peripherals::ethernet::{ipv4_text, mac_text, Ipv4Addr, MacAddr};
use crate::text::{decimal, push_char, push_number};

verus! {

/// A board was paired with a microcontroller it does not carry.
#[derive(Debug, Clone, Copy, PartialEq, Eq, Structural)]
pub enum TargetBoardError {
    UnsupportedMcu { board: TargetBoardId, mcu: TargetMcu },
}

/// A change to the configuration was refused.
#[derive(Debug, Clone, PartialEq, Eq)]
pub enum ConfigError {
    /// The SPI bus is already configured.
    DuplicateSpiBus(ChosenSpiBus),
    /// A peripheral names an SPI bus that is not configured.
    SpiBusNotFound(ChosenSpiBus),
    /// Another peripheral already sits on the SPI bus.
    SpiBusAlreadyUsedByPeripheral(ChosenSpiBus),
    /// The pin is already used.
    PinAlreadyInUse(ChosenPin),
    /// The pins are not a mapping of the bus.
    UnsupportedSpiMapping {
        bus: ChosenSpiBus,
        sck: ChosenPin,
        miso: Option<ChosenPin>,
        mosi: Option<ChosenPin>,
    },
    /// The mapping uses pins that the selected board does not bring out.
    SpiMappingUnavailableOnBoard(ChosenSpiBus),
    /// A peripheral uses the SPI bus; remove the peripheral first.
    SpiBusInUse(ChosenSpiBus),
    /// The pin label is already used.
    LabelAlreadyInUse(String),
    /// The MAC address is already used.
    DuplicateMacAddress(MacAddr),
    /// The IP address is already used.
    DuplicateIpAddress(Ipv4Addr),
    /// The TCP port is already used.
    DuplicateTcpPort(u16),
    /// The socket number is already used.
    DuplicateSocketNumber(u8),
}


/// A pin as `Debug` prints it: `StmF401(A5)`.
pub open spec fn pin_debug(pin: ChosenPin) -> Seq<char> {
    pin.spec_mcu().spec_debug_name() + "("@ + pin.spec_name() + ")"@
}

/// An SPI bus as `Debug` prints it: `StmF401(SPI1)`.
pub open spec fn bus_debug(bus: ChosenSpiBus) -> Seq<char> {
    bus.spec_mcu().spec_debug_name() + "("@ + bus.spec_name() + ")"@
}

/// An optional pin as `Debug` prints it: `Some(StmF401(A6))` or `None`.
pub open spec fn opt_pin_debug(pin: Option<ChosenPin>) -> Seq<char> {
    match pin {
        Some(p) => "Some("@ + pin_debug(p) + ")"@,
        None => "None"@,
    }
}

/// A board identifier as `Debug` prints it.
pub open spec fn board_id_debug(id: TargetBoardId) -> Seq<char> {
    match id {
        TargetBoardId::BlackPill => "BlackPill"@,
        TargetBoardId::BluePill => "BluePill"@,
    }
}

impl TargetBoardError {
    /// The message shown to the user.
    pub open spec fn spec_message(self) -> Seq<char> {
        match self {
            TargetBoardError::UnsupportedMcu { board, mcu } => "MCU "@ + mcu.spec_debug_name()
                + " не поддерживается платой "@ + board_id_debug(board),
        }
    }

    /// Returns the message shown to the user.
    pub fn message(&self) -> (text: String)
        ensures
            text@ == self.spec_message(),
    {
        match self {
            TargetBoardError::UnsupportedMcu { board, mcu } => {
                let mut text = String::from_str("MCU ");
                text.append(mcu.debug_name());
                text.append(" не поддерживается платой ");
                text.append(match board {
                    TargetBoardId::BlackPill => "BlackPill",
                    TargetBoardId::BluePill => "BluePill",
                });
                text
            },
        }
    }
}

/// Appends a pin as `Debug` prints it.
fn push_pin(text: &mut String, pin: ChosenPin)
    ensures
        final(text)@ == old(text)@ + pin_debug(pin),
{
    text.append(pin.mcu_debug_name());
    text.append("(");
    text.append(pin.variant_name());
    text.append(")");
}

/// Appends an SPI bus as `Debug` prints it.
fn push_bus(text: &mut String, bus: ChosenSpiBus)
    ensures
        final(text)@ == old(text)@ + bus_debug(bus),
{
    text.append(bus.mcu_debug_name());
    text.append("(");
    text.append(bus.variant_name());
    text.append(")");
}

/// Appends an optional pin as `Debug` prints it.
fn push_opt_pin(text: &mut String, pin: Option<ChosenPin>)
    ensures
        final(text)@ == old(text)@ + opt_pin_debug(pin),
{
    match pin {
        Some(p) => {
            text.append("Some(");
            push_pin(text, p);
            text.append(")");
        },
        None => text.append("None"),
    }
}

impl ConfigError {
    /// The message shown to the user.
    pub open spec fn spec_message(self) -> Seq<char> {
        match self {
            ConfigError::DuplicateSpiBus(bus) => "Дублирующийся SPI: "@ + bus_debug(bus),
            ConfigError::SpiBusNotFound(bus) => "SPI шина использованная в переферии не найдена: "@ + bus_debug(bus),
            ConfigError::SpiBusAlreadyUsedByPeripheral(bus) => "SPI шина уже используется другой периферией: "@
                + bus_debug(bus),
            ConfigError::PinAlreadyInUse(pin) => "Пин уже используется: "@ + pin_debug(pin),
            ConfigError::UnsupportedSpiMapping { bus, sck, miso, mosi } => "Недопустимая распиновка "@ + bus_debug(bus)
                + ": SCK="@ + pin_debug(sck) + ", MISO="@ + opt_pin_debug(miso) + ", MOSI="@ + opt_pin_debug(mosi),
            ConfigError::SpiMappingUnavailableOnBoard(bus) => "SPI mapping недоступен на выбранной плате: "@ + bus_debug(bus),
            ConfigError::SpiBusInUse(bus) => "SPI шина используется периферией, удалите сначала её: "@ + bus_debug(bus),
            ConfigError::LabelAlreadyInUse(label) => "Название пина уже используется: "@ + label@,
            ConfigError::DuplicateMacAddress(mac) => "MAC-адрес уже используется: "@ + mac_text(mac.0@),
            ConfigError::DuplicateIpAddress(ip) => "IP-адрес уже используется: "@ + ipv4_text(ip.spec_octets()),
            ConfigError::DuplicateTcpPort(port) => "TCP-порт уже используется: "@ + decimal(port as nat),
            ConfigError::DuplicateSocketNumber(n) => "Номер сокета уже используется: "@ + decimal(n as nat),
        }
    }

    /// Returns the message shown to the user.
    pub fn message(&self) -> (text: String)
        ensures
            text@ == self.spec_message(),
    {
        match self {
            ConfigError::DuplicateSpiBus(bus) => {
                let mut text = String::from_str("Дублирующийся SPI: ");
                push_bus(&mut text, *bus);
                text
            },
            ConfigError::SpiBusNotFound(bus) => {
                let mut text = String::from_str("SPI шина использованная в переферии не найдена: ");
                push_bus(&mut text, *bus);
                text
            },
            ConfigError::SpiBusAlreadyUsedByPeripheral(bus) => {
                let mut text = String::from_str("SPI шина уже используется другой периферией: ");
                push_bus(&mut text, *bus);
                text
            },
            ConfigError::PinAlreadyInUse(pin) => {
                let mut text = String::from_str("Пин уже используется: ");
                push_pin(&mut text, *pin);
                text
            },
            ConfigError::UnsupportedSpiMapping { bus, sck, miso, mosi } => {
                let mut text = String::from_str("Недопустимая распиновка ");
                push_bus(&mut text, *bus);
                text.append(": SCK=");
                push_pin(&mut text, *sck);
                text.append(", MISO=");
                push_opt_pin(&mut text, *miso);
                text.append(", MOSI=");
                push_opt_pin(&mut text, *mosi);
                text
            },
            ConfigError::SpiMappingUnavailableOnBoard(bus) => {
                let mut text = String::from_str("SPI mapping недоступен на выбранной плате: ");
                push_bus(&mut text, *bus);
                text
            },
            ConfigError::SpiBusInUse(bus) => {
                let mut text = String::from_str("SPI шина используется периферией, удалите сначала её: ");
                push_bus(&mut text, *bus);
                text
            },
            ConfigError::LabelAlreadyInUse(label) => {
                let mut text = String::from_str("Название пина уже используется: ");
                text.append(label.as_str());
                text
            },
            ConfigError::DuplicateMacAddress(mac) => {
                let mut text = String::from_str("MAC-адрес уже используется: ");
                let mac_string = mac.to_string();
                text.append(mac_string.as_str());
                text
            },
            ConfigError::DuplicateIpAddress(ip) => {
                let mut text = String::from_str("IP-адрес уже используется: ");
                let ip_string = ip.to_string();
                text.append(ip_string.as_str());
                text
            },
            ConfigError::DuplicateTcpPort(port) => {
                let mut text = String::from_str("TCP-порт уже используется: ");
                push_number(&mut text, *port as u64);
                text
            },
            ConfigError::DuplicateSocketNumber(n) => {
                let mut text = String::from_str("Номер сокета уже используется: ");
                push_number(&mut text, *n as u64);
                text
            },
        }
    }
}

/// Errors of the template engine, from the `minijinja` crate: a template
/// that does not compile or does not render. The library carries it to the
/// caller unopened.
#[verifier::external_type_specification]
#[verifier::external_body]
pub struct ExTemplateError(minijinja::Error);

/// Errors of input and output, from std: a file or directory that could not
/// be written. The library carries it to the caller unopened.
#[verifier::external_type_specification]
#[verifier::external_body]
pub struct ExIoError(std::io::Error);

/// Generating a project failed.
#[derive(Debug)]
pub enum GeneratorError {
    /// The template engine refused a template or failed to render it.
    RenderError(minijinja::Error),
    /// Writing the project failed.
    IoError(std::io::Error),
}

} // verus!
