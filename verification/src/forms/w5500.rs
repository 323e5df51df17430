//! The form that configures a W5500 module.

use vstd::prelude::*;
use crate::forms::input::{
    hex_digit_value, hex_value, is_whitespace, lemma_split_parts_concat, lemma_split_parts_single, trim_end, trim_start,
    all_digits, chars_of, hex_byte_value, parse_hex_byte, parse_unsigned, parts_at, split_bounds,
    lemma_utf8_len_at_least, split_parts, trim, trim_bounds, unsigned_value, utf8_len, utf8_len_up_to,
};
use crate::errors::ConfigError;
use crate::forms::{default_distinct_pin_index, spec_clamp_index, Choice};
use crate::gpio::{ChosenPin, ChosenSpiBus};
use crate::peripherals::ethernet::w5500::{NetworkConfig, SocketMode, W5500Config};
use crate::peripherals::ethernet::{hex_byte, hex_digit_char, ipv4_text, mac_text, Ipv4Addr, MacAddr};
use crate::text::{decimal, digits_value};

verus! {

/// Why a MAC address was refused: it is not six parts of one or two bytes.
pub open spec fn mac_shape_message() -> Seq<char> {
    "MAC должен состоять из 6 hex-байтов"@
}

/// Why a MAC address was refused: a part is no hexadecimal byte.
pub open spec fn mac_hex_message() -> Seq<char> {
    "MAC должен состоять из hex-байтов"@
}

/// The byte of one part of a MAC address, or why the part is refused: it
/// must take one or two UTF-8 bytes and read as a hexadecimal byte.
pub open spec fn mac_part_byte(part: Seq<char>) -> Result<u8, Seq<char>> {
    if part.len() == 0 || utf8_len(part) > 2 {
        Err(mac_shape_message())
    } else {
        match hex_byte_value(part) {
            Some(b) => Ok(b),
            None => Err(mac_hex_message()),
        }
    }
}

/// The bytes of the parts, or why the first refused part is refused.
pub open spec fn mac_bytes(parts: Seq<Seq<char>>) -> Result<Seq<u8>, Seq<char>>
    decreases parts.len(),
{
    if parts.len() == 0 {
        Ok(Seq::<u8>::empty())
    } else {
        match mac_bytes(parts.drop_last()) {
            Err(e) => Err(e),
            Ok(bytes) => match mac_part_byte(parts.last()) {
                Ok(b) => Ok(bytes.push(b)),
                Err(e) => Err(e),
            },
        }
    }
}

/// The MAC address that the text gives: six hexadecimal bytes separated by
/// `:` or `-`, whitespace around them ignored; or why it is refused.
pub open spec fn mac_value(text: Seq<char>) -> Result<Seq<u8>, Seq<char>> {
    let parts = split_parts(trim(text), ':', '-');
    if parts.len() != 6 {
        Err(mac_shape_message())
    } else {
        mac_bytes(parts)
    }
}

/// The bytes of found parts have the count of the parts.
proof fn lemma_mac_bytes_len(parts: Seq<Seq<char>>)
    ensures
        mac_bytes(parts) matches Ok(bytes) ==> bytes.len() == parts.len(),
    decreases parts.len(),
{
    if parts.len() > 0 {
        lemma_mac_bytes_len(parts.drop_last());
    }
}

/// A refused prefix refuses the whole list for the same reason.
proof fn lemma_mac_bytes_prefix(parts: Seq<Seq<char>>, n: int)
    requires
        0 <= n <= parts.len(),
        mac_bytes(parts.take(n)) is Err,
    ensures
        mac_bytes(parts) == mac_bytes(parts.take(n)),
    decreases parts.len() - n,
{
    if n < parts.len() {
        assert(parts.take(n + 1).drop_last() =~= parts.take(n));
        lemma_mac_bytes_prefix(parts, n + 1);
    } else {
        assert(parts.take(n) =~= parts);
    }
}

/// Reads a MAC address in the form `AA:BB:CC:DD:EE:FF` or `AA-BB-CC-DD-EE-FF`.
pub fn parse_mac(value: &str) -> (result: Result<MacAddr, String>)
    ensures
        match mac_value(value@) {
            Ok(bytes) => result matches Ok(mac) && mac.0@ == bytes,
            Err(message) => result matches Err(e) && e@ == message,
        },
{
    let chars = chars_of(value);
    let (start, end) = trim_bounds(&chars);
    let bounds = split_bounds(&chars, start, end, ':', '-');
    let ghost parts = parts_at(chars@, bounds@);
    if bounds.len() != 6 {
        return Err(String::from_str("MAC должен состоять из 6 hex-байтов"));
    }
    let mut bytes: [u8; 6] = [0u8; 6];
    let mut idx: usize = 0;
    proof {
        assert(parts.take(0) =~= Seq::<Seq<char>>::empty());
        assert(bytes@.take(0) =~= Seq::<u8>::empty());
    }
    while idx < 6
        invariant
            bounds@.len() == 6,
            parts == parts_at(chars@, bounds@),
            parts == split_parts(trim(value@), ':', '-'),
            forall|k: int| 0 <= k < bounds@.len() ==> (#[trigger] bounds@[k]).0 <= bounds@[k].1 <= chars@.len(),
            idx <= 6,
            mac_bytes(parts.take(idx as int)) == Ok::<Seq<u8>, Seq<char>>(bytes@.take(idx as int)),
        decreases 6 - idx,
    {
        let (from, to) = bounds[idx];
        let ghost part = chars@.subrange(from as int, to as int);
        proof {
            assert(parts[idx as int] == part);
            assert(parts.take(idx + 1).drop_last() =~= parts.take(idx as int));
            assert(parts.take(idx + 1).last() == part);
        }
        let width = utf8_len_up_to(&chars, from, to, 2);
        if from == to || width > 2 {
            proof {
                assert(mac_part_byte(part) == Err::<u8, Seq<char>>(mac_shape_message()));
                lemma_mac_bytes_prefix(parts, idx + 1);
            }
            return Err(String::from_str("MAC должен состоять из 6 hex-байтов"));
        }
        proof {
            lemma_utf8_len_at_least(part);
        }
        match parse_hex_byte(&chars, from, to) {
            Some(b) => {
                let ghost before = bytes@;
                bytes[idx] = b;
                proof {
                    assert(bytes@.take(idx + 1) =~= before.take(idx as int).push(b));
                }
            },
            None => {
                proof {
                    assert(mac_part_byte(part) == Err::<u8, Seq<char>>(mac_hex_message()));
                    lemma_mac_bytes_prefix(parts, idx + 1);
                }
                return Err(String::from_str("MAC должен состоять из hex-байтов"));
            },
        }
        idx += 1;
    }
    proof {
        assert(parts.take(6) =~= parts);
        assert(bytes@.take(6) =~= bytes@);
    }
    Ok(MacAddr(bytes))
}


/// The value of one group of an IPv4 address: one to three decimal digits
/// without a leading zero, at most 255.
pub open spec fn octet_value(part: Seq<char>) -> Option<u8> {
    if 1 <= part.len() <= 3 && all_digits(part) && !(part.len() > 1 && part[0] == '0') && digits_value(part) <= 255 {
        Some(digits_value(part) as u8)
    } else {
        None
    }
}

/// The IPv4 address that the text gives, as `Ipv4Addr::from_str` reads it
/// after trimming: four groups separated by dots.
pub open spec fn ipv4_value(text: Seq<char>) -> Option<Seq<u8>> {
    let parts = split_parts(trim(text), '.', '.');
    if parts.len() == 4 && forall|i: int| 0 <= i < 4 ==> (#[trigger] octet_value(parts[i])) is Some {
        Some(seq![octet_value(parts[0])->0, octet_value(parts[1])->0, octet_value(parts[2])->0, octet_value(parts[3])->0])
    } else {
        None
    }
}

/// Why an address field was refused.
pub open spec fn ipv4_message(field_name: Seq<char>) -> Seq<char> {
    field_name + " должен быть IPv4-адресом"@
}

/// Reads one group of an IPv4 address.
fn parse_octet(chars: &Vec<char>, from: usize, to: usize) -> (value: Option<u8>)
    requires
        from <= to <= chars@.len(),
    ensures
        value == octet_value(chars@.subrange(from as int, to as int)),
{
    let ghost part = chars@.subrange(from as int, to as int);
    if from == to || to - from > 3 {
        return None;
    }
    let first = chars[from];
    proof {
        assert(part[0] == first);
    }
    if !('0' <= first && first <= '9') {
        return None;
    }
    if to - from > 1 && first == '0' {
        return None;
    }
    proof {
        assert(crate::forms::input::unsigned_digits(part) == part);
    }
    match parse_unsigned(chars, from, to, 255) {
        Some(v) => Some(v as u8),
        None => None,
    }
}

/// Reads an IPv4 address; the error names the field.
pub fn parse_ipv4(field_name: &str, value: &str) -> (result: Result<Ipv4Addr, String>)
    ensures
        match ipv4_value(value@) {
            Some(octets) => result matches Ok(addr) && addr.spec_octets() == octets,
            None => result matches Err(e) && e@ == ipv4_message(field_name@),
        },
{
    let chars = chars_of(value);
    let (start, end) = trim_bounds(&chars);
    let bounds = split_bounds(&chars, start, end, '.', '.');
    let ghost parts = parts_at(chars@, bounds@);
    if bounds.len() == 4 {
        let (f0, t0) = bounds[0];
        let (f1, t1) = bounds[1];
        let (f2, t2) = bounds[2];
        let (f3, t3) = bounds[3];
        proof {
            assert(parts[0] == chars@.subrange(f0 as int, t0 as int));
            assert(parts[1] == chars@.subrange(f1 as int, t1 as int));
            assert(parts[2] == chars@.subrange(f2 as int, t2 as int));
            assert(parts[3] == chars@.subrange(f3 as int, t3 as int));
        }
        let o0 = parse_octet(&chars, f0, t0);
        let o1 = parse_octet(&chars, f1, t1);
        let o2 = parse_octet(&chars, f2, t2);
        let o3 = parse_octet(&chars, f3, t3);
        match (o0, o1, o2, o3) {
            (Some(a), Some(b), Some(c), Some(d)) => {
                return Ok(Ipv4Addr::new(a, b, c, d));
            },
            _ => {
                proof {
                    assert(!(forall|i: int| 0 <= i < 4 ==> (#[trigger] octet_value(parts[i])) is Some)) by {
                        if o0 is None {
                            assert(octet_value(parts[0]) is None);
                        } else if o1 is None {
                            assert(octet_value(parts[1]) is None);
                        } else if o2 is None {
                            assert(octet_value(parts[2]) is None);
                        } else {
                            assert(octet_value(parts[3]) is None);
                        }
                    }
                }
            },
        }
    }
    let mut message = String::from_str(field_name);
    message.append(" должен быть IPv4-адресом");
    Err(message)
}

/// The TCP port that the text gives: a number from 1 to 65535.
pub open spec fn port_value(text: Seq<char>) -> Option<u16> {
    match unsigned_value(trim(text), 65535) {
        Some(v) => if v > 0 { Some(v as u16) } else { None },
        None => None,
    }
}

/// The socket that the text gives: a number from 0 to 7.
pub open spec fn socket_num_value(text: Seq<char>) -> Option<u8> {
    match unsigned_value(trim(text), 255) {
        Some(v) => if v <= 7 { Some(v as u8) } else { None },
        None => None,
    }
}

/// Reads a TCP port.
pub fn parse_port(value: &str) -> (result: Result<u16, String>)
    ensures
        match port_value(value@) {
            Some(port) => result == Ok::<u16, String>(port),
            None => result matches Err(e) && e@ == "TCP-порт должен быть числом 1..=65535"@,
        },
{
    let chars = chars_of(value);
    let (start, end) = trim_bounds(&chars);
    match parse_unsigned(&chars, start, end, 65535) {
        Some(port) if port > 0 => Ok(port as u16),
        _ => Err(String::from_str("TCP-порт должен быть числом 1..=65535")),
    }
}

/// Reads the number of a W5500 socket.
pub fn parse_socket_num(value: &str) -> (result: Result<u8, String>)
    ensures
        match socket_num_value(value@) {
            Some(socket_num) => result == Ok::<u8, String>(socket_num),
            None => result matches Err(e) && e@ == "Socket должен быть числом 0..=7"@,
        },
{
    let chars = chars_of(value);
    let (start, end) = trim_bounds(&chars);
    match parse_unsigned(&chars, start, end, 255) {
        Some(socket_num) if socket_num <= 7 => Ok(socket_num as u8),
        _ => Err(String::from_str("Socket должен быть числом 0..=7")),
    }
}


/// What a complete W5500 form holds, read into values.
pub struct W5500Fields {
    pub spi_bus: ChosenSpiBus,
    pub cs: ChosenPin,
    pub rst: ChosenPin,
    pub mac: Seq<u8>,
    pub ip: Seq<u8>,
    pub subnet: Seq<u8>,
    pub gateway: Seq<u8>,
    pub port: u16,
    pub socket_num: u8,
}

/// Whether the configuration holds exactly the values of the form.
pub open spec fn config_has_fields(config: W5500Config, f: W5500Fields) -> bool {
    &&& config.spi_bus == f.spi_bus
    &&& config.cs == f.cs
    &&& config.rst == f.rst
    &&& config.network.mac.0@ == f.mac
    &&& config.network.ip.spec_octets() == f.ip
    &&& config.network.subnet.spec_octets() == f.subnet
    &&& config.network.gateway.spec_octets() == f.gateway
    &&& config.socket_mode == (SocketMode::TcpServer { port: f.port, socket_num: f.socket_num })
}

/// The state of the W5500 form: the chosen bus and control pins, and the
/// texts of the network fields.
pub struct W5500Form {
    pub spi_bus: Choice<ChosenSpiBus>,
    pub cs_pin: Choice<ChosenPin>,
    pub rst_pin: Choice<ChosenPin>,
    pub mac: String,
    pub ip: String,
    pub subnet: String,
    pub gateway: String,
    pub port: String,
    pub socket_num: String,
    /// The message of the last refused submission.
    pub error: Option<String>,
}

/// Abstract view of a [`W5500Form`].
pub struct W5500FormView {
    pub spi_buses: Seq<ChosenSpiBus>,
    pub spi_bus_idx: nat,
    pub cs_pins: Seq<ChosenPin>,
    pub cs_idx: nat,
    pub rst_pins: Seq<ChosenPin>,
    pub rst_idx: nat,
    pub mac: Seq<char>,
    pub ip: Seq<char>,
    pub subnet: Seq<char>,
    pub gateway: Seq<char>,
    pub port: Seq<char>,
    pub socket_num: Seq<char>,
    pub error: Option<Seq<char>>,
}

impl View for W5500Form {
    type V = W5500FormView;

    open spec fn view(&self) -> W5500FormView {
        W5500FormView {
            spi_buses: self.spi_bus.items@,
            spi_bus_idx: self.spi_bus.selected_idx as nat,
            cs_pins: self.cs_pin.items@,
            cs_idx: self.cs_pin.selected_idx as nat,
            rst_pins: self.rst_pin.items@,
            rst_idx: self.rst_pin.selected_idx as nat,
            mac: self.mac@,
            ip: self.ip@,
            subnet: self.subnet@,
            gateway: self.gateway@,
            port: self.port@,
            socket_num: self.socket_num@,
            error: crate::config::board_pins::opt_text(self.error),
        }
    }
}

/// The entry of a list at an index, if the index names one.
pub open spec fn entry_at<T>(items: Seq<T>, idx: nat) -> Option<T> {
    if idx < items.len() {
        Some(items[idx as int])
    } else {
        None
    }
}

impl W5500FormView {
    /// What the form gives on submission: its values, or why it is refused.
    /// The checks run in the order of the fields.
    pub open spec fn fields(self) -> Result<W5500Fields, Seq<char>> {
        match (entry_at(self.spi_buses, self.spi_bus_idx), entry_at(self.cs_pins, self.cs_idx), entry_at(self.rst_pins, self.rst_idx)) {
            (None, _, _) => Err("Сначала настройте SPI-шину для W5500"@),
            (Some(_), None, _) => Err("Выберите CS из списка свободных пинов"@),
            (Some(_), Some(_), None) => Err("Выберите RST из списка свободных пинов"@),
            (Some(spi_bus), Some(cs), Some(rst)) => match mac_value(self.mac) {
                Err(e) => Err(e),
                Ok(mac) => match (ipv4_value(self.ip), ipv4_value(self.subnet), ipv4_value(self.gateway)) {
                    (None, _, _) => Err(ipv4_message("IP"@)),
                    (Some(_), None, _) => Err(ipv4_message("Subnet"@)),
                    (Some(_), Some(_), None) => Err(ipv4_message("Gateway"@)),
                    (Some(ip), Some(subnet), Some(gateway)) => match (port_value(self.port), socket_num_value(self.socket_num)) {
                        (None, _) => Err("TCP-порт должен быть числом 1..=65535"@),
                        (Some(_), None) => Err("Socket должен быть числом 0..=7"@),
                        (Some(port), Some(socket_num)) => if cs == rst {
                            Err(ConfigError::PinAlreadyInUse(rst).spec_message())
                        } else {
                            Ok(W5500Fields { spi_bus, cs, rst, mac, ip, subnet, gateway, port, socket_num })
                        },
                    },
                },
            },
        }
    }

    /// The form with every choice kept inside its list.
    pub open spec fn clamped(self) -> W5500FormView {
        W5500FormView {
            spi_bus_idx: spec_clamp_index(self.spi_bus_idx, self.spi_buses.len()),
            cs_idx: spec_clamp_index(self.cs_idx, self.cs_pins.len()),
            rst_idx: spec_clamp_index(self.rst_idx, self.rst_pins.len()),
            ..self
        }
    }

    /// The form with new lists to choose from, each choice kept inside its list.
    pub open spec fn with_options(self, spi_buses: Seq<ChosenSpiBus>, pins: Seq<ChosenPin>) -> W5500FormView {
        W5500FormView { spi_buses: spi_buses, cs_pins: pins, rst_pins: pins, ..self }.clamped()
    }

    /// The form with the first bus, the first pin for chip select and the
    /// second pin, when there is one, for reset.
    pub open spec fn with_reset_indexes(self) -> W5500FormView {
        W5500FormView {
            spi_bus_idx: spec_clamp_index(0, self.spi_buses.len()),
            cs_idx: spec_clamp_index(0, self.cs_pins.len()),
            rst_idx: spec_clamp_index(if self.cs_pins.len() > 1 { 1 } else { 0 }, self.rst_pins.len()),
            ..self
        }
    }

    /// The form after a submission: the message when it is refused.
    pub open spec fn submitted(self) -> W5500FormView {
        W5500FormView {
            error: match self.fields() {
                Ok(_) => None,
                Err(message) => Some(message),
            },
            ..self
        }
    }
}

/// A change to the W5500 form.
pub enum W5500FormInput {
    /// New buses and free pins to choose from.
    UpdateOptions { spi_buses: Vec<ChosenSpiBus>, pins: Vec<ChosenPin> },
    SpiBusSelected(usize),
    CsPinSelected(usize),
    RstPinSelected(usize),
    MacChanged(String),
    IpChanged(String),
    SubnetChanged(String),
    GatewayChanged(String),
    PortChanged(String),
    SocketNumChanged(String),
    /// Read the form into a configuration.
    Submit,
    SetError(String),
    ClearError,
    /// Choose the first bus and two different pins again.
    ResetIndexes,
}

/// The form after a change.
pub open spec fn w5500_form_after(f: W5500FormView, message: W5500FormInput) -> W5500FormView {
    match message {
        W5500FormInput::UpdateOptions { spi_buses, pins } => f.with_options(spi_buses@, pins@),
        W5500FormInput::SpiBusSelected(idx) => W5500FormView { spi_bus_idx: idx as nat, ..f },
        W5500FormInput::CsPinSelected(idx) => W5500FormView { cs_idx: idx as nat, ..f },
        W5500FormInput::RstPinSelected(idx) => W5500FormView { rst_idx: idx as nat, ..f },
        W5500FormInput::MacChanged(text) => W5500FormView { mac: text@, ..f },
        W5500FormInput::IpChanged(text) => W5500FormView { ip: text@, ..f },
        W5500FormInput::SubnetChanged(text) => W5500FormView { subnet: text@, ..f },
        W5500FormInput::GatewayChanged(text) => W5500FormView { gateway: text@, ..f },
        W5500FormInput::PortChanged(text) => W5500FormView { port: text@, ..f },
        W5500FormInput::SocketNumChanged(text) => W5500FormView { socket_num: text@, ..f },
        W5500FormInput::Submit => f.submitted(),
        W5500FormInput::SetError(text) => W5500FormView { error: Some(text@), ..f },
        W5500FormInput::ClearError => W5500FormView { error: None, ..f },
        W5500FormInput::ResetIndexes => f.with_reset_indexes(),
    }
}

impl W5500Form {
    /// A form with the default network values and nothing to choose yet.
    pub fn new() -> (form: Self)
        ensures
            form@ == (W5500FormView {
                spi_buses: Seq::empty(),
                spi_bus_idx: 0,
                cs_pins: Seq::empty(),
                cs_idx: 0,
                rst_pins: Seq::empty(),
                rst_idx: 0,
                mac: "02:00:00:0B:16:21"@,
                ip: "192.168.1.50"@,
                subnet: "255.255.255.0"@,
                gateway: "192.168.1.1"@,
                port: "8080"@,
                socket_num: "0"@,
                error: None,
            }),
    {
        let form = W5500Form {
            spi_bus: Choice::empty(),
            cs_pin: Choice::empty(),
            rst_pin: Choice::empty(),
            mac: String::from_str("02:00:00:0B:16:21"),
            ip: String::from_str("192.168.1.50"),
            subnet: String::from_str("255.255.255.0"),
            gateway: String::from_str("192.168.1.1"),
            port: String::from_str("8080"),
            socket_num: String::from_str("0"),
            error: None,
        };
        proof {
            assert(form.spi_bus.items@ =~= Seq::<ChosenSpiBus>::empty());
            assert(form.cs_pin.items@ =~= Seq::<ChosenPin>::empty());
            assert(form.rst_pin.items@ =~= Seq::<ChosenPin>::empty());
        }
        form
    }

    /// Replaces the buses and free pins to choose from, keeping each choice
    /// inside its list.
    pub fn update_options(&mut self, spi_buses: Vec<ChosenSpiBus>, pins: Vec<ChosenPin>)
        ensures
            final(self)@ == old(self)@.with_options(spi_buses@, pins@),
    {
        self.spi_bus.replace_items(spi_buses);
        let mut cs_items: Vec<ChosenPin> = Vec::new();
        let mut i: usize = 0;
        while i < pins.len()
            invariant
                i <= pins@.len(),
                cs_items@ == pins@.take(i as int),
            decreases pins@.len() - i,
        {
            cs_items.push(pins[i]);
            proof {
                assert(pins@.take(i + 1) =~= pins@.take(i as int).push(pins@[i as int]));
            }
            i += 1;
        }
        proof {
            assert(pins@.take(i as int) =~= pins@);
        }
        self.cs_pin.replace_items(cs_items);
        self.rst_pin.replace_items(pins);
        self.clamp_indexes();
    }

    /// Returns whether the form can be submitted: a bus is there, and two
    /// pins for chip select and reset.
    pub fn can_submit(&self) -> (ok: bool)
        ensures
            ok == (self@.spi_buses.len() > 0 && self@.cs_pins.len() >= 2),
    {
        !self.spi_bus.is_empty() && self.cs_pin.len() >= 2
    }

    /// Chooses the first bus, the first pin for chip select and the second,
    /// when there is one, for reset.
    pub fn reset_indexes(&mut self)
        ensures
            final(self)@ == old(self)@.with_reset_indexes(),
    {
        self.spi_bus.reset_selected(0);
        self.cs_pin.reset_selected(0);
        let preferred = default_distinct_pin_index(1, self.cs_pin.len());
        self.rst_pin.reset_selected(preferred);
    }

    /// Keeps every choice inside its list.
    pub fn clamp_indexes(&mut self)
        ensures
            final(self)@ == old(self)@.clamped(),
    {
        self.spi_bus.clamp_selected();
        self.cs_pin.clamp_selected();
        self.rst_pin.clamp_selected();
    }

    /// Reads the form into a W5500 configuration, or says why it cannot.
    pub fn build_config(&self) -> (result: Result<W5500Config, String>)
        ensures
            match self@.fields() {
                Ok(f) => result matches Ok(c) && config_has_fields(c, f),
                Err(message) => result matches Err(e) && e@ == message,
            },
    {
        let spi_bus = match self.spi_bus.selected() {
            Some(b) => b,
            None => return Err(String::from_str("Сначала настройте SPI-шину для W5500")),
        };
        let cs = match self.cs_pin.selected() {
            Some(p) => p,
            None => return Err(String::from_str("Выберите CS из списка свободных пинов")),
        };
        let rst = match self.rst_pin.selected() {
            Some(p) => p,
            None => return Err(String::from_str("Выберите RST из списка свободных пинов")),
        };
        let mac = match parse_mac(self.mac.as_str()) {
            Ok(m) => m,
            Err(e) => return Err(e),
        };
        let ip = match parse_ipv4("IP", self.ip.as_str()) {
            Ok(a) => a,
            Err(e) => return Err(e),
        };
        let subnet = match parse_ipv4("Subnet", self.subnet.as_str()) {
            Ok(a) => a,
            Err(e) => return Err(e),
        };
        let gateway = match parse_ipv4("Gateway", self.gateway.as_str()) {
            Ok(a) => a,
            Err(e) => return Err(e),
        };
        let port = match parse_port(self.port.as_str()) {
            Ok(p) => p,
            Err(e) => return Err(e),
        };
        let socket_num = match parse_socket_num(self.socket_num.as_str()) {
            Ok(n) => n,
            Err(e) => return Err(e),
        };
        match W5500Config::new(
            spi_bus,
            cs,
            rst,
            NetworkConfig { mac, ip, subnet, gateway },
            SocketMode::TcpServer { port, socket_num },
        ) {
            Ok(config) => Ok(config),
            Err(e) => Err(e.message()),
        }
    }

    /// Reads the form and keeps the message when it is refused; returns the
    /// configuration to hand on when it is not.
    pub fn submit(&mut self) -> (submitted: Option<W5500Config>)
        ensures
            final(self)@ == old(self)@.submitted(),
            match old(self)@.fields() {
                Ok(f) => submitted matches Some(c) && config_has_fields(c, f),
                Err(_) => submitted is None,
            },
    {
        match self.build_config() {
            Ok(config) => {
                self.error = None;
                Some(config)
            },
            Err(e) => {
                self.error = Some(e);
                None
            },
        }
    }

    /// Applies a change to the form; returns the configuration to hand on
    /// when the change submitted the form and it was accepted.
    pub fn update(&mut self, message: W5500FormInput) -> (submitted: Option<W5500Config>)
        ensures
            final(self)@ == w5500_form_after(old(self)@, message),
            message is Submit ==> match old(self)@.fields() {
                Ok(f) => submitted matches Some(c) && config_has_fields(c, f),
                Err(_) => submitted is None,
            },
            !(message is Submit) ==> submitted is None,
    {
        match message {
            W5500FormInput::UpdateOptions { spi_buses, pins } => self.update_options(spi_buses, pins),
            W5500FormInput::SpiBusSelected(idx) => self.spi_bus.selected_idx = idx,
            W5500FormInput::CsPinSelected(idx) => self.cs_pin.selected_idx = idx,
            W5500FormInput::RstPinSelected(idx) => self.rst_pin.selected_idx = idx,
            W5500FormInput::MacChanged(mac) => self.mac = mac,
            W5500FormInput::IpChanged(ip) => self.ip = ip,
            W5500FormInput::SubnetChanged(subnet) => self.subnet = subnet,
            W5500FormInput::GatewayChanged(gateway) => self.gateway = gateway,
            W5500FormInput::PortChanged(port) => self.port = port,
            W5500FormInput::SocketNumChanged(socket_num) => self.socket_num = socket_num,
            W5500FormInput::Submit => return self.submit(),
            W5500FormInput::SetError(message) => self.error = Some(message),
            W5500FormInput::ClearError => self.error = None,
            W5500FormInput::ResetIndexes => self.reset_indexes(),
        }
        None
    }
}


/// A hexadecimal digit as printed reads back as its value.
proof fn lemma_hex_digit_char(d: nat)
    requires
        d < 16,
    ensures
        hex_digit_value(hex_digit_char(d)) == Some(d),
        hex_digit_char(d) != ':' && hex_digit_char(d) != '-' && hex_digit_char(d) != '+',
        !is_whitespace(hex_digit_char(d)),
        (hex_digit_char(d) as u32) < 0x80,
{
    if d < 10 {
        assert(crate::text::digit_char(d) as int == d + 48);
    } else {
        assert(hex_digit_char(d) as int == d - 10 + 65);
    }
}

/// A byte as printed in a MAC address reads back as the byte.
proof fn lemma_hex_byte(x: u8)
    ensures
        hex_byte(x).len() == 2,
        forall|i: int| 0 <= i < 2 ==> #[trigger] hex_byte(x)[i] != ':' && hex_byte(x)[i] != '-',
        !is_whitespace(hex_byte(x)[0]) && !is_whitespace(hex_byte(x)[1]),
        mac_part_byte(hex_byte(x)) == Ok::<u8, Seq<char>>(x),
{
    let h = hex_byte(x);
    lemma_hex_digit_char(x as nat / 16);
    lemma_hex_digit_char(x as nat % 16);
    assert(h.drop_last() =~= seq![h[0]]);
    assert(seq![h[0]].drop_last() =~= Seq::<char>::empty());
    assert(crate::forms::input::utf8_len(Seq::<char>::empty()) == 0);
    assert(crate::forms::input::utf8_len(seq![h[0]]) == 1);
    assert(crate::forms::input::utf8_len(h) == 2);
    assert(crate::forms::input::unsigned_digits(h) == h);
    assert(hex_value(Seq::<char>::empty()) == 0);
    assert(hex_value(seq![h[0]]) == x as nat / 16);
    assert(hex_value(h) == (x as nat / 16) * 16 + x as nat % 16);
    assert(crate::forms::input::all_hex_digits(h)) by {
        assert forall|i: int| 0 <= i < h.len() implies (#[trigger] hex_digit_value(h[i])) is Some by {
            if i == 0 {
            } else {
                assert(i == 1);
            }
        }
    }
}

/// Parts that each read as a byte give those bytes, prefix by prefix.
proof fn lemma_mac_bytes_take(parts: Seq<Seq<char>>, b: Seq<u8>, k: int)
    requires
        0 <= k <= parts.len(),
        parts.len() == b.len(),
        forall|i: int| 0 <= i < parts.len() ==> mac_part_byte(#[trigger] parts[i]) == Ok::<u8, Seq<char>>(b[i]),
    ensures
        mac_bytes(parts.take(k)) == Ok::<Seq<u8>, Seq<char>>(b.take(k)),
    decreases k,
{
    if k > 0 {
        lemma_mac_bytes_take(parts, b, k - 1);
        assert(parts.take(k).drop_last() =~= parts.take(k - 1));
        assert(parts.take(k).last() == parts[k - 1]);
        assert(b.take(k) =~= b.take(k - 1).push(b[k - 1]));
    } else {
        assert(parts.take(0) =~= Seq::<Seq<char>>::empty());
        assert(b.take(0) =~= Seq::<u8>::empty());
    }
}

/// A MAC address printed in its usual form, `02:00:00:0B:16:21`, reads
/// back as the same six bytes.
pub proof fn lemma_mac_text_parses(b: Seq<u8>)
    requires
        b.len() == 6,
    ensures
        mac_value(mac_text(b)) == Ok::<Seq<u8>, Seq<char>>(b),
{
    let h = Seq::new(6, |i: int| hex_byte(b[i]));
    assert forall|i: int| 0 <= i < 6 implies (#[trigger] h[i]) == hex_byte(b[i]) by {}
    lemma_hex_byte(b[0]);
    lemma_hex_byte(b[1]);
    lemma_hex_byte(b[2]);
    lemma_hex_byte(b[3]);
    lemma_hex_byte(b[4]);
    lemma_hex_byte(b[5]);
    let sep = seq![':'];
    let t4 = h[4] + sep + h[5];
    let t3 = h[3] + sep + t4;
    let t2 = h[2] + sep + t3;
    let t1 = h[1] + sep + t2;
    let t0 = h[0] + sep + t1;
    let t = mac_text(b);
    assert(t =~= t0);
    assert forall|i: int| 0 <= i < 6 implies split_parts(#[trigger] h[i], ':', '-') == seq![h[i]] by {
        lemma_hex_byte(b[i]);
        assert forall|k: int| 0 <= k < h[i].len() implies #[trigger] h[i][k] != ':' && h[i][k] != '-' by {
            assert(h[i][k] == hex_byte(b[i])[k]);
        }
        lemma_split_parts_single(h[i], ':', '-');
    }
    lemma_split_parts_concat(h[4], ':', h[5], ':', '-');
    lemma_split_parts_concat(h[3], ':', t4, ':', '-');
    lemma_split_parts_concat(h[2], ':', t3, ':', '-');
    lemma_split_parts_concat(h[1], ':', t2, ':', '-');
    lemma_split_parts_concat(h[0], ':', t1, ':', '-');
    let parts = seq![h[0], h[1], h[2], h[3], h[4], h[5]];
    assert(split_parts(t, ':', '-') =~= parts);
    assert(t[0] == h[0][0]);
    assert(t.last() == h[5][1]);
    assert(trim_start(t) == t);
    assert(trim_end(t) == t);
    assert(crate::forms::input::trim(t) == t);
    assert forall|i: int| 0 <= i < parts.len() implies mac_part_byte(#[trigger] parts[i]) == Ok::<u8, Seq<char>>(b[i]) by {
        assert(parts[i] == h[i]);
    }
    lemma_mac_bytes_take(parts, b, 6);
    assert(parts.take(6) =~= parts);
    assert(b.take(6) =~= b);
}


/// A byte printed in decimal reads back as one group of an IPv4 address.
proof fn lemma_decimal_octet(n: u8)
    ensures
        octet_value(decimal(n as nat)) == Some(n),
        forall|i: int| 0 <= i < decimal(n as nat).len() ==> #[trigger] decimal(n as nat)[i] != '.',
        decimal(n as nat).len() > 0,
        !is_whitespace(decimal(n as nat)[0]),
        !is_whitespace(decimal(n as nat).last()),
{
    let m = n as nat;
    let d = decimal(m);
    if m < 100 {
        crate::text::lemma_decimal_digits(m);
        crate::text::lemma_decimal_small(m);
        assert(crate::text::digit_char(m / 10) as int == m / 10 + 48);
        assert(crate::text::digit_char(m % 10) as int == m % 10 + 48);
        assert(crate::text::digit_char(m) as int == m + 48);
    } else {
        let hi = m / 10;
        crate::text::lemma_decimal_digits(hi);
        crate::text::lemma_decimal_small(hi);
        assert(d == decimal(hi) + seq![crate::text::digit_char(m % 10)]);
        assert(decimal(hi) == seq![crate::text::digit_char(hi / 10), crate::text::digit_char(hi % 10)]);
        assert(crate::text::digit_char(hi / 10) as int == hi / 10 + 48);
        assert(crate::text::digit_char(hi % 10) as int == hi % 10 + 48);
        assert(crate::text::digit_char(m % 10) as int == m % 10 + 48);
        assert(d.len() == 3);
        assert(d.drop_last() =~= decimal(hi));
        assert(d.last() == crate::text::digit_char(m % 10));
        assert(digits_value(d) == digits_value(decimal(hi)) * 10 + m % 10);
        assert(all_digits(d)) by {
            assert forall|i: int| 0 <= i < d.len() implies crate::text::is_digit(#[trigger] d[i]) by {
                if i < 2 {
                    assert(d[i] == decimal(hi)[i]);
                }
            }
        }
        assert(d[0] != '0');
    }
}

/// An IPv4 address printed in its usual form, `192.168.1.50`, reads back
/// as the same four bytes.
pub proof fn lemma_ipv4_text_parses(o: Seq<u8>)
    requires
        o.len() == 4,
    ensures
        ipv4_value(ipv4_text(o)) == Some(o),
{
    let d = Seq::new(4, |i: int| decimal(o[i] as nat));
    assert forall|i: int| 0 <= i < 4 implies (#[trigger] d[i]) == decimal(o[i] as nat) by {}
    assert forall|i: int| 0 <= i < 4 implies split_parts(#[trigger] d[i], '.', '.') == seq![d[i]] by {
        lemma_decimal_octet(o[i]);
        assert forall|k: int| 0 <= k < d[i].len() implies #[trigger] d[i][k] != '.' && d[i][k] != '.' by {
            assert(d[i][k] == decimal(o[i] as nat)[k]);
        }
        lemma_split_parts_single(d[i], '.', '.');
    }
    lemma_decimal_octet(o[0]);
    lemma_decimal_octet(o[1]);
    lemma_decimal_octet(o[2]);
    lemma_decimal_octet(o[3]);
    let sep = seq!['.'];
    let t2 = d[2] + sep + d[3];
    let t1 = d[1] + sep + t2;
    let t0 = d[0] + sep + t1;
    let t = ipv4_text(o);
    assert(t =~= t0);
    lemma_split_parts_concat(d[2], '.', d[3], '.', '.');
    lemma_split_parts_concat(d[1], '.', t2, '.', '.');
    lemma_split_parts_concat(d[0], '.', t1, '.', '.');
    let parts = seq![d[0], d[1], d[2], d[3]];
    assert(split_parts(t, '.', '.') =~= parts);
    assert(t[0] == d[0][0]);
    assert(t.last() == d[3].last());
    assert(trim_start(t) == t);
    assert(trim_end(t) == t);
    assert(crate::forms::input::trim(t) == t);
    assert forall|i: int| 0 <= i < 4 implies (#[trigger] octet_value(parts[i])) is Some by {
        assert(parts[i] == d[i]);
        lemma_decimal_octet(o[i]);
    }
    assert(octet_value(parts[0]) == Some(o[0]));
    assert(octet_value(parts[1]) == Some(o[1]));
    assert(octet_value(parts[2]) == Some(o[2]));
    assert(octet_value(parts[3]) == Some(o[3]));
    assert(seq![o[0], o[1], o[2], o[3]] =~= o);
}

} // verus!
