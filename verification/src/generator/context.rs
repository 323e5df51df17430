//! The template context built from a configuration.

use vstd::prelude::*;
use crate::config::{Config, ConfigView, PeripheralId, PinConfigView, SpiConfig};
use crate::errors::GeneratorError;
use crate::gpio::TargetMcu;
use crate::peripherals::Peripheral;
use crate::peripherals::ethernet::w5500::{SocketMode, W5500Config};
use crate::config::gpio::PinConfig;
use crate::gpio::{lemma_pin_name_shape, ChosenPin, SpiMapping};
use crate::seqs::{first_index, lemma_first_index_step};
use crate::text::{strings_view, 
    ascii_lower, ascii_lower_char, ascii_upper_char, ascii_lowercase, decimal, digits_value, is_digit, lemma_decimal_digits,
    lower_char, push_char, upper_char,
};

verus! {

/// Whether the text has the shape of a pin name: a port letter followed by
/// one or two decimal digits.
pub open spec fn is_pin_name(name: Seq<char>) -> bool {
    &&& 2 <= name.len() <= 3
    &&& forall|i: int| 1 <= i < name.len() ==> is_digit(#[trigger] name[i])
}

/// Template view of a pin, taken apart from its name (`"B13"`): the port in
/// lower case (`"b"`), the number (`"13"`), the configuration register of
/// the STM32F1 (`"crl"` for pins 0 to 7, else `"crh"`), and the HAL type
/// (`"gpio::gpiob::PB13"`).
pub struct PinCtxView {
    pub port: Seq<char>,
    pub pin_num: Seq<char>,
    pub cr_reg: Seq<char>,
    pub hal_pin_type: Seq<char>,
}

/// The template view of the pin with the given name.
pub open spec fn pin_ctx_of_name(name: Seq<char>) -> PinCtxView {
    let port = seq![ascii_lower_char(name[0])];
    let pin_num = name.skip(1);
    PinCtxView {
        port: port,
        pin_num: pin_num,
        cr_reg: if digits_value(pin_num) <= 7 { "crl"@ } else { "crh"@ },
        hal_pin_type: "gpio::gpio"@ + port + "::P"@ + seq![ascii_upper_char(port[0])] + pin_num,
    }
}

/// The template view of a pin.
pub open spec fn pin_ctx_view(pin: ChosenPin) -> PinCtxView {
    pin_ctx_of_name(pin.spec_name())
}

/// A pin as the templates see it.
pub struct PinCtx {
    pub port: String,
    pub pin_num: String,
    pub cr_reg: String,
    pub hal_pin_type: String,
}

impl View for PinCtx {
    type V = PinCtxView;

    open spec fn view(&self) -> PinCtxView {
        PinCtxView {
            port: self.port@,
            pin_num: self.pin_num@,
            cr_reg: self.cr_reg@,
            hal_pin_type: self.hal_pin_type@,
        }
    }
}

impl Clone for PinCtx {
    fn clone(&self) -> (copy: Self)
        ensures
            copy@ == self@,
    {
        PinCtx {
            port: self.port.clone(),
            pin_num: self.pin_num.clone(),
            cr_reg: self.cr_reg.clone(),
            hal_pin_type: self.hal_pin_type.clone(),
        }
    }
}

/// The pin name of every pin has the shape that [`PinCtx`] takes apart.
pub proof fn lemma_pin_name_parses(pin: ChosenPin)
    ensures
        is_pin_name(pin.spec_name()),
        pin.spec_name()[0] == pin.port(),
        pin.spec_name().skip(1) == decimal(pin.number()),
        digits_value(pin.spec_name().skip(1)) == pin.number(),
{
    lemma_pin_name_shape(pin);
    lemma_decimal_digits(pin.number());
    let name = pin.spec_name();
    assert(name.skip(1) =~= decimal(pin.number()));
    assert forall|i: int| 1 <= i < name.len() implies is_digit(#[trigger] name[i]) by {
        assert(name[i] == decimal(pin.number())[i - 1]);
    }
}

impl PinCtx {
    /// Takes the pin apart for the templates.
    pub fn new(pin: &ChosenPin) -> (ctx: Self)
        ensures
            ctx@ == pin_ctx_view(*pin),
    {
        proof {
            lemma_pin_name_parses(*pin);
        }
        Self::from_str(pin.variant_name())
    }

    /// Takes a pin name apart: its first character is the port, the rest
    /// the number.
    fn from_str(s: &'static str) -> (ctx: Self)
        requires
            is_pin_name(s@),
        ensures
            ctx@ == pin_ctx_of_name(s@),
    {
        let len = s.unicode_len();
        let first = s.get_char(0);
        let lower = lower_char(first);
        let mut port = String::new();
        push_char(&mut port, lower);
        let digits = s.substring_char(1, len);
        let pin_num = String::from_str(digits);
        let mut pin_number: u32 = 0;
        let mut i: usize = 0;
        while i < len - 1
            invariant
                len == s@.len(),
                is_pin_name(s@),
                digits@ == s@.skip(1),
                i <= len - 1,
                pin_number == digits_value(digits@.take(i as int)),
                pin_number <= (if i == 0 { 0int } else if i == 1 { 9int } else { 99int }),
            decreases len - 1 - i,
        {
            let c = digits.get_char(i);
            proof {
                assert(digits@[i as int] == s@[i + 1]);
                assert(is_digit(s@[i + 1]));
                assert(digits@.take(i + 1).drop_last() =~= digits@.take(i as int));
                assert(digits@.take(i + 1).last() == c);
                assert(i == 0 ==> digits@.take(0) =~= Seq::<char>::empty());
            }
            pin_number = pin_number * 10 + ((c as u32) - 48);
            i += 1;
            proof {
                if i == len - 1 {
                    assert(digits@.take(i as int) =~= digits@);
                }
            }
        }
        proof {
            assert(digits@.take(i as int) =~= digits@);
            reveal_strlit("crl");
            reveal_strlit("crh");
            reveal_strlit("gpio::gpio");
            reveal_strlit("::P");
        }
        let cr_reg = if pin_number <= 7 {
            String::from_str("crl")
        } else {
            String::from_str("crh")
        };
        let mut hal_pin_type = String::from_str("gpio::gpio");
        hal_pin_type.append(port.as_str());
        hal_pin_type.append("::P");
        push_char(&mut hal_pin_type, upper_char(lower));
        hal_pin_type.append(digits);
        let ctx = PinCtx { port, pin_num, cr_reg, hal_pin_type };
        proof {
            let name = s@;
            let p = seq![ascii_lower_char(name[0])];
            assert(ctx.port@ =~= p);
            assert(ctx.pin_num@ == name.skip(1));
            assert(ctx.hal_pin_type@ =~= "gpio::gpio"@ + p + "::P"@ + seq![ascii_upper_char(p[0])] + name.skip(1));
        }
        ctx
    }
}


/// Template view of a GPIO pin.
pub struct GpioPinCtxView {
    pub label: Seq<char>,
    pub port: Seq<char>,
    pub pin_num: Seq<char>,
    pub cr_reg: Seq<char>,
    pub method: Seq<char>,
    pub is_output: bool,
    pub speed: Option<Seq<char>>,
}

/// A configured GPIO pin as the templates see it.
pub struct GpioPinCtx {
    pub label: String,
    pub port: String,
    pub pin_num: String,
    pub cr_reg: String,
    pub method: String,
    pub is_output: bool,
    pub speed: Option<String>,
}

impl View for GpioPinCtx {
    type V = GpioPinCtxView;

    open spec fn view(&self) -> GpioPinCtxView {
        GpioPinCtxView {
            label: self.label@,
            port: self.port@,
            pin_num: self.pin_num@,
            cr_reg: self.cr_reg@,
            method: self.method@,
            is_output: self.is_output,
            speed: match self.speed {
                Some(s) => Some(s@),
                None => None,
            },
        }
    }
}

/// The template view of a GPIO configuration: its label, the parts of its
/// pin, and the HAL method, output flag and speed of its mode.
pub open spec fn gpio_ctx_view(g: PinConfigView) -> GpioPinCtxView {
    let pin = pin_ctx_view(g.pin.spec_pin());
    let vars = g.pin.spec_template_vars();
    GpioPinCtxView {
        label: g.label_text(),
        port: pin.port,
        pin_num: pin.pin_num,
        cr_reg: pin.cr_reg,
        method: vars.0,
        is_output: vars.1,
        speed: vars.2,
    }
}

/// Template view of an SPI bus.
pub struct SpiCtxView {
    pub bus_name: Seq<char>,
    pub pac_bus: Seq<char>,
    pub sck: PinCtxView,
    pub miso: Option<PinCtxView>,
    pub mosi: Option<PinCtxView>,
    pub polarity: Seq<char>,
    pub phase: Seq<char>,
    pub frequency_mhz: u32,
    pub pins_tuple: Seq<char>,
    pub f1_pins_tuple: Seq<char>,
}

/// A configured SPI bus as the templates see it.
pub struct SpiCtx {
    pub bus_name: String,
    pub pac_bus: String,
    pub sck: PinCtx,
    pub miso: Option<PinCtx>,
    pub mosi: Option<PinCtx>,
    pub polarity: String,
    pub phase: String,
    pub frequency_mhz: u32,
    pub pins_tuple: String,
    pub f1_pins_tuple: String,
}

/// The view of an optional pin.
pub open spec fn opt_pin_ctx(p: Option<PinCtx>) -> Option<PinCtxView> {
    match p {
        Some(c) => Some(c@),
        None => None,
    }
}

impl View for SpiCtx {
    type V = SpiCtxView;

    open spec fn view(&self) -> SpiCtxView {
        SpiCtxView {
            bus_name: self.bus_name@,
            pac_bus: self.pac_bus@,
            sck: self.sck@,
            miso: opt_pin_ctx(self.miso),
            mosi: opt_pin_ctx(self.mosi),
            polarity: self.polarity@,
            phase: self.phase@,
            frequency_mhz: self.frequency_mhz,
            pins_tuple: self.pins_tuple@,
            f1_pins_tuple: self.f1_pins_tuple@,
        }
    }
}

/// Index of the first mapping of the bus whose SCK is the bus's SCK.
pub open spec fn sck_mapping(spi: SpiConfig) -> Option<int> {
    first_index(spi.bus.spec_mappings(), |m: SpiMapping| m.sck == spi.sck)
}

/// Whether the templates of the STM32F1 can name a type for every pin the
/// bus leaves out: that needs a mapping with the bus's SCK.
pub open spec fn spi_ctx_buildable(spi: SpiConfig) -> bool {
    (spi.miso is None || spi.mosi is None) ==> sck_mapping(spi) is Some
}

/// The pin argument of a present pin, `Some(miso_spi1)`, or `None`.
pub open spec fn pin_slot(present: bool, role: Seq<char>, bus_name: Seq<char>) -> Seq<char> {
    if present {
        "Some("@ + role + "_"@ + bus_name + ")"@
    } else {
        "None"@
    }
}

/// The pin argument for the STM32F1 HAL, which names the type of a missing
/// pin: `None::<stm32f1xx_hal::gpio::gpioa::PA6>`.
pub open spec fn f1_pin_slot(present: bool, role: Seq<char>, bus_name: Seq<char>, default: ChosenPin) -> Seq<char> {
    if present {
        "Some("@ + role + "_"@ + bus_name + ")"@
    } else {
        "None::<stm32f1xx_hal::"@ + pin_ctx_view(default).hal_pin_type + ">"@
    }
}

/// The template view of an SPI bus: the bus name in lower case and as the
/// peripheral access crate spells it, its pins, mode and frequency, and the
/// pin tuples handed to the HAL.
pub open spec fn spi_ctx_view(spi: SpiConfig) -> SpiCtxView {
    let name = spi.bus.spec_name();
    let bus_name = ascii_lower(name);
    let vars = spi.mode.spec_template_vars();
    let mapping = spi.bus.spec_mappings()[sck_mapping(spi)->0];
    SpiCtxView {
        bus_name: bus_name,
        pac_bus: name,
        sck: pin_ctx_view(spi.sck),
        miso: match spi.miso {
            Some(p) => Some(pin_ctx_view(p)),
            None => None,
        },
        mosi: match spi.mosi {
            Some(p) => Some(pin_ctx_view(p)),
            None => None,
        },
        polarity: vars.0,
        phase: vars.1,
        frequency_mhz: spi.frequency_mhz,
        pins_tuple: "Some(sck_"@ + bus_name + "), "@ + pin_slot(spi.miso is Some, "miso"@, bus_name) + ", "@
            + pin_slot(spi.mosi is Some, "mosi"@, bus_name),
        f1_pins_tuple: "Some(sck_"@ + bus_name + "), "@ + f1_pin_slot(spi.miso is Some, "miso"@, bus_name, mapping.miso)
            + ", "@ + f1_pin_slot(spi.mosi is Some, "mosi"@, bus_name, mapping.mosi),
    }
}

/// Returns the pin argument of a present pin, `Some(miso_spi1)`, or `None`.
fn pin_slot_text(present: bool, role: &str, bus_name: &String) -> (text: String)
    ensures
        text@ == pin_slot(present, role@, bus_name@),
{
    if present {
        let mut text = String::from_str("Some(");
        text.append(role);
        text.append("_");
        text.append(bus_name.as_str());
        text.append(")");
        text
    } else {
        String::from_str("None")
    }
}

/// Returns the pin argument for the STM32F1 HAL.
fn f1_pin_slot_text(present: bool, role: &str, bus_name: &String, default: Option<ChosenPin>) -> (text: String)
    requires
        !present ==> default is Some,
    ensures
        text@ == f1_pin_slot(present, role@, bus_name@, default->0),
{
    if present {
        pin_slot_text(true, role, bus_name)
    } else {
        let pin = match default {
            Some(p) => p,
            None => ChosenPin::StmF103(crate::gpio::f1::f103::StmF103Pin::A0),
        };
        let ctx = PinCtx::new(&pin);
        let mut text = String::from_str("None::<stm32f1xx_hal::");
        text.append(ctx.hal_pin_type.as_str());
        text.append(">");
        text
    }
}

/// Returns the first mapping of the bus whose SCK is the bus's SCK.
fn find_sck_mapping(spi: &SpiConfig) -> (mapping: Option<SpiMapping>)
    ensures
        match sck_mapping(*spi) {
            Some(k) => mapping == Some(spi.bus.spec_mappings()[k]),
            None => mapping is None,
        },
{
    let mappings = spi.bus.spi_mappings();
    let ghost pred = |m: SpiMapping| m.sck == spi.sck;
    let mut i: usize = 0;
    while i < mappings.len()
        invariant
            mappings@ == spi.bus.spec_mappings(),
            pred == (|m: SpiMapping| m.sck == spi.sck),
            i <= mappings@.len(),
            first_index(mappings@.take(i as int), pred) is None,
        decreases mappings@.len() - i,
    {
        proof {
            lemma_first_index_step(mappings@, pred, i as int);
        }
        if mappings[i].sck == spi.sck {
            return Some(mappings[i]);
        }
        i += 1;
    }
    proof {
        assert(mappings@.take(i as int) =~= mappings@);
    }
    None
}

/// Returns the template view of an optional pin.
fn opt_pin(pin: Option<ChosenPin>) -> (ctx: Option<PinCtx>)
    ensures
        opt_pin_ctx(ctx) == match pin {
            Some(p) => Some(pin_ctx_view(p)),
            None => None::<PinCtxView>,
        },
{
    match pin {
        Some(p) => Some(PinCtx::new(&p)),
        None => None,
    }
}

impl SpiCtx {
    /// Builds the template view of an SPI bus.
    fn from_spi_config(spi: &SpiConfig) -> (ctx: Self)
        requires
            spi_ctx_buildable(*spi),
        ensures
            ctx@ == spi_ctx_view(*spi),
    {
        let name = spi.bus.variant_name();
        let bus_name = ascii_lowercase(name);
        let pac_bus = String::from_str(name);
        let (polarity, phase) = spi.mode.template_vars();
        let mapping = find_sck_mapping(spi);
        let (default_miso, default_mosi) = match mapping {
            Some(m) => (Some(m.miso), Some(m.mosi)),
            None => (None, None),
        };
        let miso_present = spi.miso.is_some();
        let mosi_present = spi.mosi.is_some();
        let mut pins_tuple = String::from_str("Some(sck_");
        pins_tuple.append(bus_name.as_str());
        pins_tuple.append("), ");
        let miso_slot = pin_slot_text(miso_present, "miso", &bus_name);
        pins_tuple.append(miso_slot.as_str());
        pins_tuple.append(", ");
        let mosi_slot = pin_slot_text(mosi_present, "mosi", &bus_name);
        pins_tuple.append(mosi_slot.as_str());
        let mut f1_pins_tuple = String::from_str("Some(sck_");
        f1_pins_tuple.append(bus_name.as_str());
        f1_pins_tuple.append("), ");
        let f1_miso = f1_pin_slot_text(miso_present, "miso", &bus_name, default_miso);
        f1_pins_tuple.append(f1_miso.as_str());
        f1_pins_tuple.append(", ");
        let f1_mosi = f1_pin_slot_text(mosi_present, "mosi", &bus_name, default_mosi);
        f1_pins_tuple.append(f1_mosi.as_str());
        let ctx = SpiCtx {
            bus_name,
            pac_bus,
            sck: PinCtx::new(&spi.sck),
            miso: opt_pin(spi.miso),
            mosi: opt_pin(spi.mosi),
            polarity: String::from_str(polarity),
            phase: String::from_str(phase),
            frequency_mhz: spi.frequency_mhz,
            pins_tuple,
            f1_pins_tuple,
        };
        proof {
            let v = spi_ctx_view(*spi);
            assert(ctx.pins_tuple@ =~= v.pins_tuple);
            assert(ctx.f1_pins_tuple@ =~= v.f1_pins_tuple);
        }
        ctx
    }
}

impl GpioPinCtx {
    /// Builds the template view of a GPIO configuration.
    fn from_pin_config(p: &PinConfig) -> (ctx: Self)
        ensures
            ctx@ == gpio_ctx_view(p@),
    {
        let pin_ctx = PinCtx::new(&p.pin.pin());
        let (method, is_output, speed) = p.pin.template_vars();
        GpioPinCtx {
            label: p.label(),
            port: pin_ctx.port,
            pin_num: pin_ctx.pin_num,
            cr_reg: pin_ctx.cr_reg,
            method: String::from_str(method),
            is_output,
            speed: match speed {
                Some(s) => Some(String::from_str(s)),
                None => None,
            },
        }
    }
}


/// A TCP server socket as the templates see it.
#[derive(Debug, Clone, Copy, PartialEq, Eq)]
pub struct TcpServerCtx {
    pub port: u16,
    pub socket_num: u8,
}

/// The socket mode of a W5500 as the templates see it: one optional entry
/// per mode.
#[derive(Debug, Clone, Copy, PartialEq, Eq)]
pub struct SocketModeCtx {
    pub tcp_server: Option<TcpServerCtx>,
}

impl Default for SocketModeCtx {
    fn default() -> (ctx: Self)
        ensures
            ctx.tcp_server is None,
    {
        SocketModeCtx { tcp_server: None }
    }
}

/// Template view of a W5500 module.
pub struct W5500CtxView {
    pub id: u64,
    pub spi_bus: Seq<char>,
    pub cs: PinCtxView,
    pub rst: PinCtxView,
    pub mac: Seq<u8>,
    pub ip: Seq<u8>,
    pub subnet: Seq<u8>,
    pub gateway: Seq<u8>,
    pub socket_mode: SocketModeCtx,
}

/// A W5500 module as the templates see it.
pub struct W5500Ctx {
    pub id: u64,
    pub spi_bus: String,
    pub cs: PinCtx,
    pub rst: PinCtx,
    pub mac: [u8; 6],
    pub ip: [u8; 4],
    pub subnet: [u8; 4],
    pub gateway: [u8; 4],
    pub socket_mode: SocketModeCtx,
}

impl View for W5500Ctx {
    type V = W5500CtxView;

    open spec fn view(&self) -> W5500CtxView {
        W5500CtxView {
            id: self.id,
            spi_bus: self.spi_bus@,
            cs: self.cs@,
            rst: self.rst@,
            mac: self.mac@,
            ip: self.ip@,
            subnet: self.subnet@,
            gateway: self.gateway@,
            socket_mode: self.socket_mode,
        }
    }
}

impl Clone for W5500Ctx {
    fn clone(&self) -> (copy: Self)
        ensures
            copy@ == self@,
    {
        W5500Ctx {
            id: self.id,
            spi_bus: self.spi_bus.clone(),
            cs: self.cs.clone(),
            rst: self.rst.clone(),
            mac: self.mac,
            ip: self.ip,
            subnet: self.subnet,
            gateway: self.gateway,
            socket_mode: self.socket_mode,
        }
    }
}

/// The socket mode of a W5500 as the templates see it.
pub open spec fn socket_mode_ctx(mode: SocketMode) -> SocketModeCtx {
    match mode {
        SocketMode::TcpServer { port, socket_num } => SocketModeCtx {
            tcp_server: Some(TcpServerCtx { port: port, socket_num: socket_num }),
        },
    }
}

/// The template view of a W5500 module: its identifier, its bus in lower
/// case, its control pins, its network bytes and its socket mode.
pub open spec fn w5500_ctx_view(id: u64, w: W5500Config) -> W5500CtxView {
    W5500CtxView {
        id: id,
        spi_bus: ascii_lower(w.spi_bus.spec_name()),
        cs: pin_ctx_view(w.cs),
        rst: pin_ctx_view(w.rst),
        mac: w.network.mac.0@,
        ip: w.network.ip.spec_octets(),
        subnet: w.network.subnet.spec_octets(),
        gateway: w.network.gateway.spec_octets(),
        socket_mode: socket_mode_ctx(w.socket_mode),
    }
}

/// Template view of a configured peripheral.
pub struct PeripheralCtxView {
    pub id: u64,
    pub kind: Seq<char>,
    pub w5500: Option<W5500CtxView>,
}

/// A configured peripheral as the templates see it.
pub struct PeripheralCtx {
    pub id: u64,
    pub kind: &'static str,
    pub w5500: Option<W5500Ctx>,
}

impl View for PeripheralCtx {
    type V = PeripheralCtxView;

    open spec fn view(&self) -> PeripheralCtxView {
        PeripheralCtxView {
            id: self.id,
            kind: self.kind@,
            w5500: match self.w5500 {
                Some(w) => Some(w@),
                None => None,
            },
        }
    }
}

/// The template view of a configured peripheral.
pub open spec fn peripheral_ctx_view(entry: (PeripheralId, Peripheral)) -> PeripheralCtxView {
    match entry.1 {
        Peripheral::W5500(w) => PeripheralCtxView {
            id: entry.0.spec_get(),
            kind: "w5500"@,
            w5500: Some(w5500_ctx_view(entry.0.spec_get(), w)),
        },
    }
}

/// What the generated project needs besides the microcontroller.
#[derive(Debug, Clone, Copy, PartialEq, Eq)]
pub struct GeneratorFeaturesCtx {
    pub uses_w5500: bool,
    pub uses_w5500_tcp: bool,
    pub uses_embedded_hal_bus: bool,
}

/// The features of a list of peripherals: a W5500 needs its driver and a
/// shared SPI bus; a W5500 with a TCP server needs the TCP code.
pub open spec fn features_view(ps: Seq<(PeripheralId, Peripheral)>) -> GeneratorFeaturesCtx {
    GeneratorFeaturesCtx {
        uses_w5500: exists|i: int| 0 <= i < ps.len() && (#[trigger] ps[i]).1 is W5500,
        uses_w5500_tcp: exists|i: int| 0 <= i < ps.len() && ((#[trigger] ps[i]).1 matches Peripheral::W5500(w)
            && w.socket_mode is TcpServer),
        uses_embedded_hal_bus: exists|i: int| 0 <= i < ps.len() && (#[trigger] ps[i]).1 is W5500,
    }
}

/// The port of a pin as the templates name it: its letter in lower case.
pub open spec fn port_text(pin: ChosenPin) -> Seq<char> {
    seq![ascii_lower_char(pin.port())]
}

/// Whether `ports` lists the ports of `pins`, each once, in alphabetical
/// order.
pub open spec fn is_port_list(ports: Seq<Seq<char>>, pins: Seq<ChosenPin>) -> bool {
    &&& forall|i: int| 0 <= i < ports.len() ==> (#[trigger] ports[i]).len() == 1
    &&& forall|i: int, j: int| 0 <= i < j < ports.len() ==> (#[trigger] ports[i])[0] < (#[trigger] ports[j])[0]
    &&& forall|x: Seq<char>| #[trigger] ports.contains(x) <==> exists|k: int| 0 <= k < pins.len() && port_text(#[trigger] pins[k]) == x
}

/// Template view of the whole project.
pub struct TemplateContextView {
    pub project_name: Seq<char>,
    pub mcu_family: Seq<char>,
    pub hal_version: Seq<char>,
    pub hal_feature: Seq<char>,
    pub target: Seq<char>,
    pub chip: Seq<char>,
    pub flash_origin: Seq<char>,
    pub flash_length: Seq<char>,
    pub ram_origin: Seq<char>,
    pub ram_length: Seq<char>,
    pub used_ports: Seq<Seq<char>>,
    pub gpio_pins: Seq<GpioPinCtxView>,
    pub spis: Seq<SpiCtxView>,
    pub features: GeneratorFeaturesCtx,
    pub peripherals: Seq<PeripheralCtxView>,
}

/// Everything the project templates are rendered from.
pub struct TemplateContext {
    pub project_name: String,
    pub mcu_family: String,
    pub hal_version: String,
    pub hal_feature: String,
    pub target: String,
    pub chip: String,
    pub flash_origin: String,
    pub flash_length: String,
    pub ram_origin: String,
    pub ram_length: String,
    pub used_ports: Vec<String>,
    pub gpio_pins: Vec<GpioPinCtx>,
    pub spis: Vec<SpiCtx>,
    pub features: GeneratorFeaturesCtx,
    pub peripherals: Vec<PeripheralCtx>,
}

impl View for TemplateContext {
    type V = TemplateContextView;

    open spec fn view(&self) -> TemplateContextView {
        TemplateContextView {
            project_name: self.project_name@,
            mcu_family: self.mcu_family@,
            hal_version: self.hal_version@,
            hal_feature: self.hal_feature@,
            target: self.target@,
            chip: self.chip@,
            flash_origin: self.flash_origin@,
            flash_length: self.flash_length@,
            ram_origin: self.ram_origin@,
            ram_length: self.ram_length@,
            used_ports: strings_view(self.used_ports@),
            gpio_pins: self.gpio_pins@.map_values(|g: GpioPinCtx| g@),
            spis: self.spis@.map_values(|s: SpiCtx| s@),
            features: self.features,
            peripherals: self.peripherals@.map_values(|p: PeripheralCtx| p@),
        }
    }
}

/// Whether a context can be built from the configuration: every SPI bus
/// that leaves a pin out has a mapping with its SCK.
pub open spec fn context_buildable(c: ConfigView) -> bool {
    forall|i: int| 0 <= i < c.spi.len() ==> #[trigger] spi_ctx_buildable(c.spi[i])
}

/// The template view of a configuration, with the given list of ports: the
/// facts of the microcontroller, then the GPIO pins, SPI buses and
/// peripherals in configuration order.
pub open spec fn context_view(c: ConfigView, project_name: Seq<char>, used_ports: Seq<Seq<char>>) -> TemplateContextView {
    let mcu = c.board.spec_mcu();
    TemplateContextView {
        project_name: project_name,
        mcu_family: mcu.spec_mcu_family(),
        hal_version: mcu.spec_hal_version(),
        hal_feature: mcu.spec_hal_feature(),
        target: mcu.spec_target(),
        chip: mcu.spec_chip(),
        flash_origin: mcu.spec_flash_origin(),
        flash_length: mcu.spec_flash_length(),
        ram_origin: mcu.spec_ram_origin(),
        ram_length: mcu.spec_ram_length(),
        used_ports: used_ports,
        gpio_pins: c.gpio.map_values(|g: PinConfigView| gpio_ctx_view(g)),
        spis: c.spi.map_values(|s: SpiConfig| spi_ctx_view(s)),
        features: features_view(c.peripherals),
        peripherals: c.peripherals.map_values(|e: (PeripheralId, Peripheral)| peripheral_ctx_view(e)),
    }
}

/// Context of all peripherals with the features they need.
struct PeripheralsBuildCtx {
    features: GeneratorFeaturesCtx,
    peripherals: Vec<PeripheralCtx>,
}

/// Returns the lower-case port letter of the pin.
fn port_letter(pin: ChosenPin) -> (c: char)
    ensures
        seq![c] == port_text(pin),
        'a' <= c <= 'z',
{
    proof {
        lemma_pin_name_parses(pin);
        lemma_pin_name_shape(pin);
    }
    lower_char(pin.variant_name().get_char(0))
}

/// Returns whether one of the pins lies on the port with the letter.
fn port_used(pins: &Vec<ChosenPin>, letter: char) -> (used: bool)
    ensures
        used == exists|k: int| 0 <= k < pins@.len() && port_text(#[trigger] pins@[k]) == seq![letter],
{
    let mut i: usize = 0;
    while i < pins.len()
        invariant
            i <= pins@.len(),
            forall|k: int| 0 <= k < i ==> port_text(#[trigger] pins@[k]) != seq![letter],
        decreases pins@.len() - i,
    {
        if port_letter(pins[i]) == letter {
            return true;
        }
        proof {
            assert(port_text(pins@[i as int]) != seq![letter]) by {
                if port_text(pins@[i as int]) == seq![letter] {
                    assert(port_text(pins@[i as int])[0] == letter);
                }
            }
        }
        i += 1;
    }
    false
}

/// Returns the ports of the pins, each once, in alphabetical order.
fn used_ports(pins: &Vec<ChosenPin>) -> (ports: Vec<String>)
    ensures
        is_port_list(strings_view(ports@), pins@),
{
    let mut ports: Vec<String> = Vec::new();
    let mut letter: u8 = 97;
    while letter <= 122
        invariant
            97 <= letter <= 123,
            forall|i: int| 0 <= i < ports@.len() ==> (#[trigger] ports@[i])@.len() == 1,
            forall|i: int| 0 <= i < ports@.len() ==> ((#[trigger] ports@[i])@[0] as int) < letter,
            forall|i: int, j: int| 0 <= i < j < ports@.len() ==> (#[trigger] ports@[i])@[0] < (#[trigger] ports@[j])@[0],
            forall|x: Seq<char>| #[trigger] strings_view(ports@).contains(x) <==> (
                exists|k: int| 0 <= k < pins@.len() && port_text(#[trigger] pins@[k]) == x && (x[0] as int) < letter),
        decreases 123 - letter,
    {
        let c = letter as char;
        let ghost before = ports@;
        let ghost old_letter = letter as int;
        assert(c as int == old_letter);
        let found = port_used(pins, c);
        if found {
            let mut port = String::new();
            push_char(&mut port, c);
            ports.push(port);
            proof {
                assert(port@ =~= seq![c]);
                assert(strings_view(ports@) =~= strings_view(before).push(seq![c]));
            }
        }
        letter += 1;
        proof {
            assert forall|x: Seq<char>| #[trigger] strings_view(ports@).contains(x) <==> (
                exists|k: int| 0 <= k < pins@.len() && port_text(#[trigger] pins@[k]) == x && (x[0] as int) < letter) by {
                if strings_view(ports@).contains(x) {
                    if strings_view(before).contains(x) {
                    } else {
                        assert(found);
                        assert(x == seq![c]);
                        let k = choose|k: int| 0 <= k < pins@.len() && port_text(#[trigger] pins@[k]) == seq![c];
                        assert(port_text(pins@[k]) == x);
                    }
                }
                if exists|k: int| 0 <= k < pins@.len() && port_text(#[trigger] pins@[k]) == x && (x[0] as int) < letter {
                    let k = choose|k: int| 0 <= k < pins@.len() && port_text(#[trigger] pins@[k]) == x && (x[0] as int) < letter;
                    assert(x.len() == 1);
                    if (x[0] as int) < old_letter {
                        assert(strings_view(before).contains(x));
                        if found {
                            let j = choose|j: int| 0 <= j < before.len() && strings_view(before)[j] == x;
                            assert(strings_view(ports@)[j] == x);
                        }
                    } else {
                        assert(x[0] == c);
                        assert(x =~= seq![c]);
                        assert(found);
                        assert(strings_view(ports@)[before.len() as int] == x);
                    }
                }
            }
        }
    }
    proof {
        assert forall|x: Seq<char>| #[trigger] strings_view(ports@).contains(x) <==> (
            exists|k: int| 0 <= k < pins@.len() && port_text(#[trigger] pins@[k]) == x) by {
            if exists|k: int| 0 <= k < pins@.len() && port_text(#[trigger] pins@[k]) == x {
                let k = choose|k: int| 0 <= k < pins@.len() && port_text(#[trigger] pins@[k]) == x;
                lemma_pin_name_shape(pins@[k]);
                assert((x[0] as int) < letter);
            }
        }
        assert forall|i: int| 0 <= i < strings_view(ports@).len() implies (#[trigger] strings_view(ports@)[i]).len() == 1 by {
            assert(strings_view(ports@)[i] == ports@[i]@);
        }
        assert forall|i: int, j: int| 0 <= i < j < strings_view(ports@).len() implies
            (#[trigger] strings_view(ports@)[i])[0] < (#[trigger] strings_view(ports@)[j])[0] by {
            assert(strings_view(ports@)[i] == ports@[i]@);
            assert(strings_view(ports@)[j] == ports@[j]@);
        }
    }
    ports
}


impl TemplateContext {
    /// Builds the template view of every GPIO pin, in configuration order.
    fn build_gpio_ctx(config: &Config) -> (pins: Vec<GpioPinCtx>)
        ensures
            pins@.map_values(|g: GpioPinCtx| g@) == config@.gpio.map_values(|g: PinConfigView| gpio_ctx_view(g)),
    {
        let configured = config.gpio();
        let mut pins: Vec<GpioPinCtx> = Vec::new();
        let mut i: usize = 0;
        while i < configured.len()
            invariant
                crate::config::pin_configs_view(configured@) == config@.gpio,
                i <= configured@.len(),
                pins@.len() == i,
                forall|j: int| 0 <= j < i ==> (#[trigger] pins@[j])@ == gpio_ctx_view(configured@[j]@),
            decreases configured@.len() - i,
        {
            pins.push(GpioPinCtx::from_pin_config(&configured[i]));
            i += 1;
        }
        proof {
            assert(pins@.map_values(|g: GpioPinCtx| g@) =~= config@.gpio.map_values(|g: PinConfigView| gpio_ctx_view(g)));
        }
        pins
    }

    /// Builds the template view of every SPI bus, in configuration order.
    fn build_spi_ctx(config: &Config) -> (spis: Vec<SpiCtx>)
        requires
            context_buildable(config@),
        ensures
            spis@.map_values(|s: SpiCtx| s@) == config@.spi.map_values(|s: SpiConfig| spi_ctx_view(s)),
    {
        let buses = config.spi();
        let mut spis: Vec<SpiCtx> = Vec::new();
        let mut i: usize = 0;
        while i < buses.len()
            invariant
                buses@ == config@.spi,
                context_buildable(config@),
                i <= buses@.len(),
                spis@.len() == i,
                forall|j: int| 0 <= j < i ==> (#[trigger] spis@[j])@ == spi_ctx_view(buses@[j]),
            decreases buses@.len() - i,
        {
            proof {
                assert(spi_ctx_buildable(config@.spi[i as int]));
            }
            spis.push(SpiCtx::from_spi_config(&buses[i]));
            i += 1;
        }
        proof {
            assert(spis@.map_values(|s: SpiCtx| s@) =~= config@.spi.map_values(|s: SpiConfig| spi_ctx_view(s)));
        }
        spis
    }

    /// Builds the template view of one W5500 module, and says whether it
    /// runs a TCP server.
    fn build_w5500_ctx(id: u64, w5500: &W5500Config) -> (result: (W5500Ctx, bool))
        ensures
            result.0@ == w5500_ctx_view(id, *w5500),
            result.1 == (w5500.socket_mode is TcpServer),
    {
        let spi_bus = ascii_lowercase(w5500.spi_bus.variant_name());
        let (socket_mode_ctx, has_tcp) = match w5500.socket_mode {
            SocketMode::TcpServer { port, socket_num } => (
                SocketModeCtx { tcp_server: Some(TcpServerCtx { port, socket_num }) },
                true,
            ),
        };
        let ip = w5500.network.ip.octets();
        let subnet = w5500.network.subnet.octets();
        let gateway = w5500.network.gateway.octets();
        (
            W5500Ctx {
                id,
                spi_bus,
                cs: PinCtx::new(&w5500.cs),
                rst: PinCtx::new(&w5500.rst),
                mac: w5500.network.mac.0,
                ip,
                subnet,
                gateway,
                socket_mode: socket_mode_ctx,
            },
            has_tcp,
        )
    }

    /// Builds the template view of every peripheral, in configuration
    /// order, with the features they need together.
    fn build_peripherals_ctx(config: &Config) -> (ctx: PeripheralsBuildCtx)
        ensures
            ctx.features == features_view(config@.peripherals),
            ctx.peripherals@.map_values(|p: PeripheralCtx| p@)
                == config@.peripherals.map_values(|e: (PeripheralId, Peripheral)| peripheral_ctx_view(e)),
    {
        let configured = config.peripherals();
        let mut build_ctx = PeripheralsBuildCtx {
            features: GeneratorFeaturesCtx { uses_w5500: false, uses_w5500_tcp: false, uses_embedded_hal_bus: false },
            peripherals: Vec::new(),
        };
        let mut i: usize = 0;
        while i < configured.len()
            invariant
                configured@ == config@.peripherals,
                i <= configured@.len(),
                build_ctx.features == features_view(configured@.take(i as int)),
                build_ctx.peripherals@.len() == i,
                forall|j: int| 0 <= j < i ==> (#[trigger] build_ctx.peripherals@[j])@ == peripheral_ctx_view(configured@[j]),
            decreases configured@.len() - i,
        {
            let (id, peripheral) = &configured[i];
            proof {
                assert(configured@.take(i + 1) =~= configured@.take(i as int).push(configured@[i as int]));
                lemma_features_push(configured@.take(i as int), configured@[i as int]);
            }
            match peripheral {
                Peripheral::W5500(w5500) => {
                    let (w5500_ctx, has_tcp) = Self::build_w5500_ctx(id.get(), w5500);
                    build_ctx.features.uses_w5500 = true;
                    build_ctx.features.uses_embedded_hal_bus = true;
                    if has_tcp {
                        build_ctx.features.uses_w5500_tcp = true;
                    }
                    build_ctx.peripherals.push(PeripheralCtx { id: id.get(), kind: "w5500", w5500: Some(w5500_ctx) });
                    proof {
                        reveal_strlit("w5500");
                    }
                },
            }
            i += 1;
        }
        proof {
            assert(configured@.take(i as int) =~= configured@);
            assert(build_ctx.peripherals@.map_values(|p: PeripheralCtx| p@)
                =~= config@.peripherals.map_values(|e: (PeripheralId, Peripheral)| peripheral_ctx_view(e)));
        }
        build_ctx
    }

    /// Builds the template context of a configuration: the facts of its
    /// microcontroller, the ports it uses, and its GPIO pins, SPI buses and
    /// peripherals.
    pub fn from_config(config: &Config, project_name: String) -> (result: Result<Self, GeneratorError>)
        ensures
            result matches Ok(ctx) && is_port_list(ctx@.used_ports, config@.used_pins())
                && ctx@ == context_view(config@, project_name@, ctx@.used_ports),
    {
        proof {
            use_type_invariant(config);
            lemma_wf_context_buildable(config@);
        }
        let mcu = config.board().mcu();
        let used = config.all_uses_pins();
        let used_ports = used_ports(&used);
        let gpio_pins = Self::build_gpio_ctx(config);
        let spis = Self::build_spi_ctx(config);
        let peripherals_ctx = Self::build_peripherals_ctx(config);
        Ok(TemplateContext {
            project_name,
            mcu_family: String::from_str(mcu.mcu_family()),
            hal_version: String::from_str(mcu.hal_version()),
            hal_feature: String::from_str(mcu.hal_feature()),
            target: String::from_str(mcu.target()),
            chip: String::from_str(mcu.chip()),
            flash_origin: String::from_str(mcu.flash_origin()),
            flash_length: String::from_str(mcu.flash_length()),
            ram_origin: String::from_str(mcu.ram_origin()),
            ram_length: String::from_str(mcu.ram_length()),
            used_ports,
            gpio_pins,
            spis,
            features: peripherals_ctx.features,
            peripherals: peripherals_ctx.peripherals,
        })
    }
}

/// The features of one more peripheral.
proof fn lemma_features_push(ps: Seq<(PeripheralId, Peripheral)>, e: (PeripheralId, Peripheral))
    ensures
        features_view(ps.push(e)) == (GeneratorFeaturesCtx {
            uses_w5500: features_view(ps).uses_w5500 || e.1 is W5500,
            uses_w5500_tcp: features_view(ps).uses_w5500_tcp || (e.1 matches Peripheral::W5500(w) && w.socket_mode is TcpServer),
            uses_embedded_hal_bus: features_view(ps).uses_embedded_hal_bus || e.1 is W5500,
        }),
{
    let n = ps.push(e);
    assert forall|k: int| 0 <= k < ps.len() implies #[trigger] n[k] == ps[k] by {}
    assert(n[ps.len() as int] == e);
    assert(n[ps.len() as int].1 matches Peripheral::W5500(w) && w.socket_mode is TcpServer);
    assert(n[ps.len() as int].1 is W5500);
}

/// A well-formed configuration can always be turned into a context.
pub proof fn lemma_wf_context_buildable(c: ConfigView)
    requires
        c.wf(),
    ensures
        context_buildable(c),
{
    assert forall|i: int| 0 <= i < c.spi.len() implies #[trigger] spi_ctx_buildable(c.spi[i]) by {
        let spi = c.spi[i];
        assert(crate::config::matches_mapping(spi));
        let k = choose|k: int| 0 <= k < spi.bus.spec_mappings().len()
            && #[trigger] crate::config::mapping_fits(spi.bus.spec_mappings()[k], spi);
        let pred = |m: SpiMapping| m.sck == spi.sck;
        crate::seqs::lemma_first_index(spi.bus.spec_mappings(), pred);
        assert(pred(spi.bus.spec_mappings()[k]));
    }
}

} // verus!
