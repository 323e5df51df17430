//! Configuration of the board and its peripherals.

pub mod board_pins;
pub mod gpio;
pub mod properties;
pub mod spi;

pub use gpio::{PinConfig, PinConfigView};
pub use spi::{SpiConfig, SpiMode};

use vstd::prelude::*;
use crate::board::TargetBoard;
use crate::errors::ConfigError;
use crate::gpio::{pins_contain, ChosenPin, ChosenSpiBus};
use crate::peripherals::Peripheral;
use crate::peripherals::ethernet::w5500::SocketMode;
use crate::seqs::{disjoint, first_index, lemma_first_index, lemma_first_index_step};
use crate::text::{flat_map, lemma_flat_map_contains, lemma_flat_map_push};
use crate::gpio::{lemma_bus_mappings_sound, SpiMapping};
use crate::gpio::f4::f401::mapping_pins_distinct;

verus! {

/// Identifier of a configured peripheral.
#[derive(Debug, Clone, Copy, PartialEq, Eq, Structural)]
pub struct PeripheralId(u64);

impl PeripheralId {
    /// The number of the identifier.
    pub closed spec fn spec_get(self) -> u64 {
        self.0
    }

    /// The identifier with the number `n`.
    pub closed spec fn with_number(n: u64) -> PeripheralId {
        PeripheralId(n)
    }

    /// An identifier is determined by its number.
    pub broadcast proof fn lemma_number(n: u64)
        ensures
            #[trigger] Self::with_number(n).spec_get() == n,
    {
    }

    /// Two identifiers with the same number are the same identifier.
    pub broadcast proof fn lemma_same_number(a: PeripheralId, b: PeripheralId)
        ensures
            #[trigger] a.spec_get() == #[trigger] b.spec_get() <==> a == b,
    {
    }

    /// Returns the number of the identifier.
    pub fn get(&self) -> (n: u64)
        ensures
            n == self.spec_get(),
    {
        self.0
    }
}

/// The whole configuration of a board and its peripherals.
#[derive(Debug)]
pub struct Config {
    board: TargetBoard,
    next_periph_id: u64,
    gpio_pins: Vec<PinConfig>,
    spi_buses: Vec<SpiConfig>,
    peripherals: Vec<(PeripheralId, Peripheral)>,
}

/// Abstract view of a [`Config`].
pub struct ConfigView {
    pub board: TargetBoard,
    /// Identifier that the next added peripheral receives.
    pub next_id: u64,
    pub gpio: Seq<PinConfigView>,
    pub spi: Seq<SpiConfig>,
    pub peripherals: Seq<(PeripheralId, Peripheral)>,
}

/// Views of a list of GPIO pin configurations.
pub open spec fn pin_configs_view(pins: Seq<PinConfig>) -> Seq<PinConfigView> {
    pins.map_values(|p: PinConfig| p@)
}

impl View for Config {
    type V = ConfigView;

    closed spec fn view(&self) -> ConfigView {
        ConfigView {
            board: self.board,
            next_id: self.next_periph_id,
            gpio: pin_configs_view(self.gpio_pins@),
            spi: self.spi_buses@,
            peripherals: self.peripherals@,
        }
    }
}

/// Pins used by an SPI bus.
pub open spec fn spi_uses(spi: SpiConfig) -> Seq<ChosenPin> {
    spi.spec_uses_pins()
}

/// Pins used by a configured peripheral.
pub open spec fn peripheral_uses(entry: (PeripheralId, Peripheral)) -> Seq<ChosenPin> {
    entry.1.spec_uses_pins()
}

/// Pins of a list of GPIO pin configurations.
pub open spec fn gpio_pins_of(gpio: Seq<PinConfigView>) -> Seq<ChosenPin> {
    gpio.map_values(|g: PinConfigView| g.pin.spec_pin())
}

/// Pins used by a list of SPI buses, bus by bus.
pub open spec fn spi_pins_of(spi: Seq<SpiConfig>) -> Seq<ChosenPin> {
    flat_map(spi, |s: SpiConfig| spi_uses(s))
}

/// Pins used by a list of peripherals, peripheral by peripheral.
pub open spec fn peripheral_pins_of(ps: Seq<(PeripheralId, Peripheral)>) -> Seq<ChosenPin> {
    flat_map(ps, |e: (PeripheralId, Peripheral)| peripheral_uses(e))
}

/// Whether the SPI configuration is one of the mappings of its bus, with
/// MISO and MOSI each either left out or taken from the mapping.
pub open spec fn matches_mapping(spi: SpiConfig) -> bool {
    exists|k: int| 0 <= k < spi.bus.spec_mappings().len() && #[trigger] mapping_fits(spi.bus.spec_mappings()[k], spi)
}

/// Whether the SPI configuration uses the mapping's pins.
pub open spec fn mapping_fits(m: SpiMapping, spi: SpiConfig) -> bool {
    &&& m.sck == spi.sck
    &&& (spi.miso is None || spi.miso == Some(m.miso))
    &&& (spi.mosi is None || spi.mosi == Some(m.mosi))
}

/// Whether the pins of a peripheral equal those of another in a way the
/// network model forbids: the same MAC, IP, TCP port or socket.
pub open spec fn network_conflict(configured: Peripheral, new: Peripheral) -> Option<ConfigError> {
    match (configured, new) {
        (Peripheral::W5500(a), Peripheral::W5500(b)) => {
            if a.network.mac.0@ == b.network.mac.0@ {
                Some(ConfigError::DuplicateMacAddress(b.network.mac))
            } else if a.network.ip.spec_octets() == b.network.ip.spec_octets() {
                Some(ConfigError::DuplicateIpAddress(b.network.ip))
            } else {
                match (a.socket_mode, b.socket_mode) {
                    (
                        SocketMode::TcpServer { port: pa, socket_num: sa },
                        SocketMode::TcpServer { port: pb, socket_num: sb },
                    ) => {
                        if pa == pb {
                            Some(ConfigError::DuplicateTcpPort(pb))
                        } else if sa == sb {
                            Some(ConfigError::DuplicateSocketNumber(sb))
                        } else {
                            None
                        }
                    },
                }
            }
        },
    }
}

/// The first network conflict of a new peripheral with the configured ones.
pub open spec fn first_network_conflict(ps: Seq<(PeripheralId, Peripheral)>, new: Peripheral) -> Option<ConfigError>
    decreases ps.len(),
{
    if ps.len() == 0 {
        None
    } else {
        match first_network_conflict(ps.drop_last(), new) {
            Some(e) => Some(e),
            None => network_conflict(ps.last().1, new),
        }
    }
}

/// The first of `new_pins` that occurs in `used`.
pub open spec fn first_used(new_pins: Seq<ChosenPin>, used: Seq<ChosenPin>) -> Option<ChosenPin>
    decreases new_pins.len(),
{
    if new_pins.len() == 0 {
        None
    } else {
        match first_used(new_pins.drop_last(), used) {
            Some(p) => Some(p),
            None => if used.contains(new_pins.last()) {
                Some(new_pins.last())
            } else {
                None
            },
        }
    }
}

/// Index of the first GPIO configuration of the pin.
pub open spec fn gpio_position(gpio: Seq<PinConfigView>, pin: ChosenPin) -> Option<int>
    decreases gpio.len(),
{
    if gpio.len() == 0 {
        None
    } else {
        match gpio_position(gpio.drop_last(), pin) {
            Some(k) => Some(k),
            None => if gpio.last().pin.spec_pin() == pin {
                Some(gpio.len() - 1)
            } else {
                None
            },
        }
    }
}

impl ConfigView {
    /// Every pin in use: GPIO pins, then SPI pins bus by bus, then
    /// peripheral pins peripheral by peripheral.
    pub open spec fn used_pins(self) -> Seq<ChosenPin> {
        gpio_pins_of(self.gpio) + spi_pins_of(self.spi) + peripheral_pins_of(self.peripherals)
    }

    /// Pins used by SPI buses and peripherals, which the GPIO page must not edit.
    pub open spec fn not_gpio_pins(self) -> Seq<ChosenPin> {
        spi_pins_of(self.spi) + peripheral_pins_of(self.peripherals)
    }

    /// Whether an SPI bus is configured.
    pub open spec fn has_spi_bus(self, bus: ChosenSpiBus) -> bool {
        exists|i: int| 0 <= i < self.spi.len() && #[trigger] self.spi[i].bus == bus
    }

    /// Whether a peripheral sits on the SPI bus.
    pub open spec fn bus_has_peripheral(self, bus: ChosenSpiBus) -> bool {
        exists|i: int| 0 <= i < self.peripherals.len() && #[trigger] self.peripherals[i].1.spec_spi_bus() == bus
    }

    /// Whether a GPIO configuration already goes by the label.
    pub open spec fn has_label(self, label: Seq<char>) -> bool {
        exists|i: int| 0 <= i < self.gpio.len() && #[trigger] self.gpio[i].label_text() == label
    }

    /// Whether the board brings out every pin of the SPI configuration.
    pub open spec fn spi_on_board(self, spi: SpiConfig) -> bool {
        forall|i: int| 0 <= i < spi_uses(spi).len() ==> self.board.spec_gpio_pins().contains(#[trigger] spi_uses(spi)[i])
    }

    /// Whether the board brings out every pin of the mapping.
    pub open spec fn mapping_on_board(self, m: SpiMapping) -> bool {
        &&& self.board.spec_gpio_pins().contains(m.sck)
        &&& self.board.spec_gpio_pins().contains(m.miso)
        &&& self.board.spec_gpio_pins().contains(m.mosi)
    }

    /// Whether the bus has a mapping that the board brings out completely.
    pub open spec fn bus_available(self, bus: ChosenSpiBus) -> bool {
        exists|k: int| 0 <= k < bus.spec_mappings().len() && #[trigger] self.mapping_on_board(bus.spec_mappings()[k])
    }
}

impl ConfigView {
    /// The configuration invariant: no pin, bus, label, identifier or
    /// network parameter is used twice, every SPI bus follows a mapping of
    /// its bus, and every peripheral sits on a configured SPI bus.
    pub open spec fn wf(self) -> bool {
        &&& forall|i: int, j: int|
            0 <= i < self.gpio.len() && 0 <= j < self.gpio.len() && i != j
                ==> #[trigger] self.gpio[i].pin.spec_pin() != #[trigger] self.gpio[j].pin.spec_pin()
        &&& forall|i: int, j: int|
            0 <= i < self.gpio.len() && 0 <= j < self.gpio.len() && i != j
                ==> #[trigger] self.gpio[i].label_text() != #[trigger] self.gpio[j].label_text()
        &&& forall|i: int| 0 <= i < self.spi.len() ==> (#[trigger] spi_uses(self.spi[i])).no_duplicates()
        &&& forall|i: int| 0 <= i < self.spi.len() ==> #[trigger] matches_mapping(self.spi[i])
        &&& forall|i: int, j: int|
            0 <= i < self.spi.len() && 0 <= j < self.spi.len() && i != j
                ==> disjoint(#[trigger] spi_uses(self.spi[i]), #[trigger] spi_uses(self.spi[j]))
        &&& forall|i: int, j: int|
            0 <= i < self.spi.len() && 0 <= j < self.spi.len() && i != j
                ==> #[trigger] self.spi[i].bus != #[trigger] self.spi[j].bus
        &&& forall|i: int| 0 <= i < self.peripherals.len() ==> (#[trigger] peripheral_uses(self.peripherals[i])).no_duplicates()
        &&& forall|i: int, j: int|
            0 <= i < self.peripherals.len() && 0 <= j < self.peripherals.len() && i != j
                ==> disjoint(#[trigger] peripheral_uses(self.peripherals[i]), #[trigger] peripheral_uses(self.peripherals[j]))
        &&& forall|i: int| 0 <= i < self.peripherals.len() ==> self.has_spi_bus(#[trigger] self.peripherals[i].1.spec_spi_bus())
        &&& forall|i: int, j: int|
            0 <= i < self.peripherals.len() && 0 <= j < self.peripherals.len() && i != j
                ==> #[trigger] self.peripherals[i].1.spec_spi_bus() != #[trigger] self.peripherals[j].1.spec_spi_bus()
        &&& forall|i: int, j: int|
            0 <= i < j < self.peripherals.len()
                ==> (#[trigger] self.peripherals[i].0).spec_get() < (#[trigger] self.peripherals[j].0).spec_get()
        &&& forall|i: int| 0 <= i < self.peripherals.len() ==> (#[trigger] self.peripherals[i].0).spec_get() < self.next_id
        &&& forall|i: int, j: int|
            0 <= i < self.peripherals.len() && 0 <= j < self.peripherals.len() && i != j
                ==> network_conflict(#[trigger] self.peripherals[i].1, #[trigger] self.peripherals[j].1) is None
        &&& forall|i: int, j: int|
            0 <= i < self.gpio.len() && 0 <= j < self.spi.len()
                ==> !(#[trigger] spi_uses(self.spi[j])).contains(#[trigger] self.gpio[i].pin.spec_pin())
        &&& forall|i: int, j: int|
            0 <= i < self.gpio.len() && 0 <= j < self.peripherals.len()
                ==> !(#[trigger] peripheral_uses(self.peripherals[j])).contains(#[trigger] self.gpio[i].pin.spec_pin())
        &&& forall|i: int, j: int|
            0 <= i < self.spi.len() && 0 <= j < self.peripherals.len()
                ==> disjoint(#[trigger] spi_uses(self.spi[i]), #[trigger] peripheral_uses(self.peripherals[j]))
    }
}

/// A pin is in use exactly when a GPIO configuration, an SPI bus or a
/// peripheral uses it.
pub proof fn lemma_used_pins_contains(c: ConfigView, pin: ChosenPin)
    ensures
        c.used_pins().contains(pin) <==> (
            (exists|i: int| 0 <= i < c.gpio.len() && #[trigger] c.gpio[i].pin.spec_pin() == pin)
            || (exists|j: int| 0 <= j < c.spi.len() && #[trigger] spi_uses(c.spi[j]).contains(pin))
            || (exists|k: int| 0 <= k < c.peripherals.len() && #[trigger] peripheral_uses(c.peripherals[k]).contains(pin))
        ),
{
    let g = gpio_pins_of(c.gpio);
    let s = spi_pins_of(c.spi);
    let p = peripheral_pins_of(c.peripherals);
    lemma_flat_map_contains(c.spi, |x: SpiConfig| spi_uses(x), pin);
    lemma_flat_map_contains(c.peripherals, |e: (PeripheralId, Peripheral)| peripheral_uses(e), pin);
    if s.contains(pin) {
        let f = |x: SpiConfig| spi_uses(x);
        let j = choose|j: int| 0 <= j < c.spi.len() && #[trigger] f(c.spi[j]).contains(pin);
        assert(spi_uses(c.spi[j]).contains(pin));
    }
    if p.contains(pin) {
        let f = |e: (PeripheralId, Peripheral)| peripheral_uses(e);
        let k = choose|k: int| 0 <= k < c.peripherals.len() && #[trigger] f(c.peripherals[k]).contains(pin);
        assert(peripheral_uses(c.peripherals[k]).contains(pin));
    }
    assert(c.used_pins() == g + s + p);
    if c.used_pins().contains(pin) {
        let k = choose|k: int| 0 <= k < c.used_pins().len() && c.used_pins()[k] == pin;
        if k < g.len() {
            assert(c.gpio[k].pin.spec_pin() == pin);
        } else if k < g.len() + s.len() {
            assert(s[k - g.len()] == pin);
            assert(s.contains(pin));
        } else {
            assert(p[k - g.len() - s.len()] == pin);
            assert(p.contains(pin));
        }
    }
    if exists|i: int| 0 <= i < c.gpio.len() && #[trigger] c.gpio[i].pin.spec_pin() == pin {
        let i = choose|i: int| 0 <= i < c.gpio.len() && #[trigger] c.gpio[i].pin.spec_pin() == pin;
        assert(c.used_pins()[i] == pin);
    }
    if exists|j: int| 0 <= j < c.spi.len() && #[trigger] spi_uses(c.spi[j]).contains(pin) {
        let j = choose|j: int| 0 <= j < c.spi.len() && #[trigger] spi_uses(c.spi[j]).contains(pin);
        let f = |x: SpiConfig| spi_uses(x);
        assert(f(c.spi[j]).contains(pin));
        assert(s.contains(pin));
        let k = choose|k: int| 0 <= k < s.len() && s[k] == pin;
        assert(c.used_pins()[g.len() + k] == pin);
    }
    if exists|k: int| 0 <= k < c.peripherals.len() && #[trigger] peripheral_uses(c.peripherals[k]).contains(pin) {
        let k = choose|k: int| 0 <= k < c.peripherals.len() && #[trigger] peripheral_uses(c.peripherals[k]).contains(pin);
        let f = |e: (PeripheralId, Peripheral)| peripheral_uses(e);
        assert(f(c.peripherals[k]).contains(pin));
        assert(p.contains(pin));
        let k = choose|k: int| 0 <= k < p.len() && p[k] == pin;
        assert(c.used_pins()[g.len() + s.len() + k] == pin);
    }
}

/// Appends the pins of `src` to `dst`.
fn append_pins(dst: &mut Vec<ChosenPin>, src: Vec<ChosenPin>)
    ensures
        final(dst)@ == old(dst)@ + src@,
{
    let mut src = src;
    dst.append(&mut src);
}

impl Clone for Config {
    fn clone(&self) -> (copy: Self)
        ensures
            copy@ == self@,
    {
        proof {
            use_type_invariant(self);
        }
        let gpio_pins = copy_pin_configs(&self.gpio_pins);
        let spi_buses = copy_vec(&self.spi_buses);
        let peripherals = copy_vec(&self.peripherals);
        Config { board: self.board, next_periph_id: self.next_periph_id, gpio_pins, spi_buses, peripherals }
    }
}

/// Returns a copy of the GPIO pin configurations.
fn copy_pin_configs(pins: &Vec<PinConfig>) -> (copy: Vec<PinConfig>)
    ensures
        pin_configs_view(copy@) == pin_configs_view(pins@),
{
    let mut gpio_pins: Vec<PinConfig> = Vec::new();
    let mut i: usize = 0;
    while i < pins.len()
        invariant
            i <= pins@.len(),
            pin_configs_view(gpio_pins@) == pin_configs_view(pins@.take(i as int)),
        decreases pins@.len() - i,
    {
        let ghost before = gpio_pins@;
        let copy = pins[i].clone();
        gpio_pins.push(copy);
        proof {
            assert(copy@ == pins@[i as int]@);
            assert(pins@.take(i + 1) =~= pins@.take(i as int).push(pins@[i as int]));
            assert(pin_configs_view(gpio_pins@) =~= pin_configs_view(before).push(copy@));
            assert(pin_configs_view(pins@.take(i + 1))
                =~= pin_configs_view(pins@.take(i as int)).push(pins@[i as int]@));
        }
        i += 1;
    }
    proof {
        assert(pins@.take(i as int) =~= pins@);
    }
    gpio_pins
}

/// Returns a copy of a list of plain values.
fn copy_vec<T: Copy>(items: &Vec<T>) -> (copy: Vec<T>)
    ensures
        copy@ == items@,
{
    let mut copy: Vec<T> = Vec::new();
    let mut i: usize = 0;
    while i < items.len()
        invariant
            i <= items@.len(),
            copy@ == items@.take(i as int),
        decreases items@.len() - i,
    {
        copy.push(items[i]);
        proof {
            assert(items@.take(i + 1) =~= items@.take(i as int).push(items@[i as int]));
        }
        i += 1;
    }
    proof {
        assert(items@.take(i as int) =~= items@);
    }
    copy
}

impl Config {
    /// Every configuration is well formed: no pin serves two roles, no bus
    /// is configured twice, every peripheral sits alone on a configured bus
    /// and peripheral identifiers are increasing and below the next one.
    #[verifier::type_invariant]
    pub(crate) open spec fn inv(self) -> bool {
        self@.wf()
    }

    /// Creates an empty configuration of the board.
    pub fn new(board: TargetBoard) -> (config: Self)
        ensures
            config@.board == board,
            config@.next_id == 0,
            config@.gpio == Seq::<PinConfigView>::empty(),
            config@.spi == Seq::<SpiConfig>::empty(),
            config@.peripherals == Seq::<(PeripheralId, Peripheral)>::empty(),
            config@.wf(),
    {
        proof {
            assert(pin_configs_view(Seq::<PinConfig>::empty()) =~= Seq::<PinConfigView>::empty());
        }
        let config = Config {
            board,
            next_periph_id: 0,
            gpio_pins: Vec::new(),
            spi_buses: Vec::new(),
            peripherals: Vec::new(),
        };
        proof {
            assert(config@.gpio =~= Seq::<PinConfigView>::empty());
        }
        config
    }

    /// Returns the board of the configuration.
    pub fn board(&self) -> (board: TargetBoard)
        ensures
            board == self@.board,
    {
        self.board
    }

    /// Returns the identifier that the next added peripheral receives.
    pub fn next_peripheral_id(&self) -> (id: u64)
        ensures
            id == self@.next_id,
    {
        self.next_periph_id
    }

    /// Returns the GPIO pin configurations.
    pub fn gpio(&self) -> (pins: &[PinConfig])
        ensures
            pin_configs_view(pins@) == self@.gpio,
    {
        self.gpio_pins.as_slice()
    }

    /// Returns the SPI bus configurations.
    ///
    /// No bus is configured twice.
    pub fn spi(&self) -> (buses: &[SpiConfig])
        ensures
            buses@ == self@.spi,
            forall|i: int, j: int| 0 <= i < buses@.len() && 0 <= j < buses@.len() && i != j
                ==> #[trigger] buses@[i].bus != #[trigger] buses@[j].bus,
    {
        proof {
            use_type_invariant(self);
        }
        self.spi_buses.as_slice()
    }

    /// Returns the configured peripherals with their identifiers.
    ///
    /// Each sits on a configured SPI bus of its own, and the identifiers
    /// increase and stay below the one the next peripheral receives.
    pub fn peripherals(&self) -> (peripherals: &[(PeripheralId, Peripheral)])
        ensures
            peripherals@ == self@.peripherals,
            forall|i: int| 0 <= i < peripherals@.len() ==> self@.has_spi_bus(#[trigger] peripherals@[i].1.spec_spi_bus()),
            forall|i: int, j: int| 0 <= i < peripherals@.len() && 0 <= j < peripherals@.len() && i != j
                ==> #[trigger] peripherals@[i].1.spec_spi_bus() != #[trigger] peripherals@[j].1.spec_spi_bus(),
            forall|i: int, j: int| 0 <= i < j < peripherals@.len()
                ==> (#[trigger] peripherals@[i].0).spec_get() < (#[trigger] peripherals@[j].0).spec_get(),
            forall|i: int| 0 <= i < peripherals@.len() ==> (#[trigger] peripherals@[i].0).spec_get() < self@.next_id,
    {
        proof {
            use_type_invariant(self);
        }
        self.peripherals.as_slice()
    }

    /// Returns every pin in use: GPIO pins, then the pins of the SPI buses,
    /// then the pins of the peripherals.
    pub fn all_uses_pins(&self) -> (pins: Vec<ChosenPin>)
        ensures
            pins@ == self@.used_pins(),
            pins@.no_duplicates(),
    {
        proof {
            use_type_invariant(self);
            crate::config::properties::lemma_wf_used_pins_distinct(self@);
        }
        let mut pins: Vec<ChosenPin> = Vec::new();
        let mut i: usize = 0;
        while i < self.gpio_pins.len()
            invariant
                i <= self.gpio_pins@.len(),
                pins@ == gpio_pins_of(pin_configs_view(self.gpio_pins@.take(i as int))),
            decreases self.gpio_pins@.len() - i,
        {
            pins.push(self.gpio_pins[i].pin.pin());
            proof {
                assert(gpio_pins_of(pin_configs_view(self.gpio_pins@.take(i + 1)))
                    =~= gpio_pins_of(pin_configs_view(self.gpio_pins@.take(i as int))).push(self.gpio_pins@[i as int].pin.spec_pin()));
            }
            i += 1;
        }
        proof {
            assert(self.gpio_pins@.take(i as int) =~= self.gpio_pins@);
        }
        let spi_pins = self.spi_pins();
        append_pins(&mut pins, spi_pins);
        let peripheral_pins = self.peripheral_pins();
        append_pins(&mut pins, peripheral_pins);
        pins
    }

    /// Returns the pins used by the SPI buses, bus by bus.
    pub fn spi_pins(&self) -> (pins: Vec<ChosenPin>)
        ensures
            pins@ == spi_pins_of(self@.spi),
    {
        let mut pins: Vec<ChosenPin> = Vec::new();
        let mut i: usize = 0;
        while i < self.spi_buses.len()
            invariant
                i <= self.spi_buses@.len(),
                pins@ == spi_pins_of(self.spi_buses@.take(i as int)),
            decreases self.spi_buses@.len() - i,
        {
            let uses = self.spi_buses[i].uses_pins();
            append_pins(&mut pins, uses);
            proof {
                assert(self.spi_buses@.take(i + 1) =~= self.spi_buses@.take(i as int).push(self.spi_buses@[i as int]));
                lemma_flat_map_push(self.spi_buses@.take(i as int), |x: SpiConfig| spi_uses(x), self.spi_buses@[i as int]);
            }
            i += 1;
        }
        proof {
            assert(self.spi_buses@.take(i as int) =~= self.spi_buses@);
        }
        pins
    }

    /// Returns the pins used by the peripherals, peripheral by peripheral.
    pub fn peripheral_pins(&self) -> (pins: Vec<ChosenPin>)
        ensures
            pins@ == peripheral_pins_of(self@.peripherals),
    {
        let mut pins: Vec<ChosenPin> = Vec::new();
        let mut i: usize = 0;
        while i < self.peripherals.len()
            invariant
                i <= self.peripherals@.len(),
                pins@ == peripheral_pins_of(self.peripherals@.take(i as int)),
            decreases self.peripherals@.len() - i,
        {
            let uses = self.peripherals[i].1.uses_pins();
            append_pins(&mut pins, uses);
            proof {
                assert(self.peripherals@.take(i + 1) =~= self.peripherals@.take(i as int).push(self.peripherals@[i as int]));
                lemma_flat_map_push(
                    self.peripherals@.take(i as int),
                    |e: (PeripheralId, Peripheral)| peripheral_uses(e),
                    self.peripherals@[i as int],
                );
            }
            i += 1;
        }
        proof {
            assert(self.peripherals@.take(i as int) =~= self.peripherals@);
        }
        pins
    }

    /// Returns the pins configured outside the GPIO page: SPI pins, then
    /// peripheral pins. They show as taken and cannot be edited there.
    pub fn not_gpio_configured_pins(&self) -> (pins: Vec<ChosenPin>)
        ensures
            pins@ == self@.not_gpio_pins(),
    {
        let mut pins = self.spi_pins();
        append_pins(&mut pins, self.peripheral_pins());
        pins
    }
}

impl ConfigView {
    /// The configuration with another GPIO pin configuration at the end.
    pub open spec fn with_gpio(self, g: PinConfigView) -> ConfigView {
        ConfigView { gpio: self.gpio.push(g), ..self }
    }

    /// The configuration without the GPIO pin configuration at index `k`.
    pub open spec fn without_gpio(self, k: int) -> ConfigView {
        ConfigView { gpio: self.gpio.remove(k), ..self }
    }
}

/// Adding a GPIO configuration whose pin is free and whose label is new
/// keeps the configuration invariant.
pub proof fn lemma_with_gpio_wf(c: ConfigView, g: PinConfigView)
    requires
        c.wf(),
        !c.used_pins().contains(g.pin.spec_pin()),
        !c.has_label(g.label_text()),
    ensures
        c.with_gpio(g).wf(),
{
    lemma_used_pins_contains(c, g.pin.spec_pin());
    let n = c.with_gpio(g);
    assert forall|i: int, j: int| 0 <= i < n.gpio.len() && 0 <= j < n.gpio.len() && i != j implies
        #[trigger] n.gpio[i].pin.spec_pin() != #[trigger] n.gpio[j].pin.spec_pin() by {
        if i < c.gpio.len() && j < c.gpio.len() {
            assert(n.gpio[i] == c.gpio[i] && n.gpio[j] == c.gpio[j]);
        } else if i < c.gpio.len() {
            assert(n.gpio[i] == c.gpio[i]);
        } else {
            assert(n.gpio[j] == c.gpio[j]);
        }
    }
    assert forall|i: int, j: int| 0 <= i < n.gpio.len() && 0 <= j < n.gpio.len() && i != j implies
        #[trigger] n.gpio[i].label_text() != #[trigger] n.gpio[j].label_text() by {
        if i < c.gpio.len() && j < c.gpio.len() {
            assert(n.gpio[i] == c.gpio[i] && n.gpio[j] == c.gpio[j]);
        } else if i < c.gpio.len() {
            assert(n.gpio[i] == c.gpio[i]);
        } else {
            assert(n.gpio[j] == c.gpio[j]);
        }
    }
    assert forall|i: int, j: int| 0 <= i < n.gpio.len() && 0 <= j < n.spi.len() implies
        !(#[trigger] spi_uses(n.spi[j])).contains(#[trigger] n.gpio[i].pin.spec_pin()) by {
        if i < c.gpio.len() {
            assert(n.gpio[i] == c.gpio[i]);
        }
    }
    assert forall|i: int, j: int| 0 <= i < n.gpio.len() && 0 <= j < n.peripherals.len() implies
        !(#[trigger] peripheral_uses(n.peripherals[j])).contains(#[trigger] n.gpio[i].pin.spec_pin()) by {
        if i < c.gpio.len() {
            assert(n.gpio[i] == c.gpio[i]);
        }
    }
}

/// Removing a GPIO configuration keeps the configuration invariant.
pub proof fn lemma_without_gpio_wf(c: ConfigView, k: int)
    requires
        c.wf(),
        0 <= k < c.gpio.len(),
    ensures
        c.without_gpio(k).wf(),
{
    let n = c.without_gpio(k);
    assert forall|i: int| 0 <= i < n.gpio.len() implies #[trigger] n.gpio[i] == c.gpio[if i < k { i } else { i + 1 }] by {}
    assert forall|i: int, j: int| 0 <= i < n.gpio.len() && 0 <= j < n.gpio.len() && i != j implies
        #[trigger] n.gpio[i].pin.spec_pin() != #[trigger] n.gpio[j].pin.spec_pin() by {
        assert(n.gpio[i] == c.gpio[if i < k { i } else { i + 1 }]);
        assert(n.gpio[j] == c.gpio[if j < k { j } else { j + 1 }]);
    }
    assert forall|i: int, j: int| 0 <= i < n.gpio.len() && 0 <= j < n.gpio.len() && i != j implies
        #[trigger] n.gpio[i].label_text() != #[trigger] n.gpio[j].label_text() by {
        assert(n.gpio[i] == c.gpio[if i < k { i } else { i + 1 }]);
        assert(n.gpio[j] == c.gpio[if j < k { j } else { j + 1 }]);
    }
    assert forall|i: int, j: int| 0 <= i < n.gpio.len() && 0 <= j < n.spi.len() implies
        !(#[trigger] spi_uses(n.spi[j])).contains(#[trigger] n.gpio[i].pin.spec_pin()) by {
        assert(n.gpio[i] == c.gpio[if i < k { i } else { i + 1 }]);
    }
    assert forall|i: int, j: int| 0 <= i < n.gpio.len() && 0 <= j < n.peripherals.len() implies
        !(#[trigger] peripheral_uses(n.peripherals[j])).contains(#[trigger] n.gpio[i].pin.spec_pin()) by {
        assert(n.gpio[i] == c.gpio[if i < k { i } else { i + 1 }]);
    }
}

impl Config {
    /// Checks that none of the new pins is in use yet; reports the first
    /// one that is.
    fn check_conflicts_pins(&self, new_pins: &[ChosenPin]) -> (result: Result<(), ConfigError>)
        ensures
            first_used(new_pins@, self@.used_pins()) matches Some(p) ==> result == Err::<(), ConfigError>(
                ConfigError::PinAlreadyInUse(p),
            ),
            first_used(new_pins@, self@.used_pins()) is None ==> result is Ok,
    {
        let used_pins = self.all_uses_pins();
        let mut i: usize = 0;
        while i < new_pins.len()
            invariant
                used_pins@ == self@.used_pins(),
                i <= new_pins@.len(),
                first_used(new_pins@.take(i as int), used_pins@) is None,
            decreases new_pins@.len() - i,
        {
            let pin = new_pins[i];
            proof {
                assert(new_pins@.take(i + 1).drop_last() =~= new_pins@.take(i as int));
            }
            if pins_contain(&used_pins, pin) {
                proof {
                    lemma_first_used_prefix(new_pins@, used_pins@, i + 1);
                }
                return Err(ConfigError::PinAlreadyInUse(pin));
            }
            i += 1;
        }
        proof {
            assert(new_pins@.take(i as int) =~= new_pins@);
        }
        Ok(())
    }

    /// Returns the index of the first GPIO configuration of the pin.
    pub(crate) fn gpio_index(&self, pin: ChosenPin) -> (idx: Option<usize>)
        ensures
            match gpio_position(self@.gpio, pin) {
                Some(k) => idx == Some(k as usize),
                None => idx is None,
            },
    {
        let mut i: usize = 0;
        while i < self.gpio_pins.len()
            invariant
                i <= self.gpio_pins@.len(),
                gpio_position(pin_configs_view(self.gpio_pins@.take(i as int)), pin) is None,
            decreases self.gpio_pins@.len() - i,
        {
            proof {
                assert(pin_configs_view(self.gpio_pins@.take(i + 1)).drop_last() =~= pin_configs_view(self.gpio_pins@.take(i as int)));
            }
            if self.gpio_pins[i].pin.pin() == pin {
                proof {
                    lemma_gpio_position_prefix(self@.gpio, pin, i + 1);
                    assert(pin_configs_view(self.gpio_pins@.take(i + 1)) =~= self@.gpio.take(i + 1));
                }
                return Some(i);
            }
            i += 1;
        }
        proof {
            assert(pin_configs_view(self.gpio_pins@.take(i as int)) =~= self@.gpio);
        }
        None
    }

    /// Adds a user GPIO pin.
    ///
    /// Fails if the pin is already in use, or if another GPIO pin already
    /// goes by the same label.
    pub fn add_gpio_pin(&mut self, gpio_pin: PinConfig) -> (result: Result<(), ConfigError>)
        ensures
            old(self)@.used_pins().contains(gpio_pin@.pin.spec_pin()) ==> {
                &&& result == Err::<(), ConfigError>(ConfigError::PinAlreadyInUse(gpio_pin@.pin.spec_pin()))
                &&& final(self)@ == old(self)@
            },
            !old(self)@.used_pins().contains(gpio_pin@.pin.spec_pin()) && old(self)@.has_label(gpio_pin@.label_text()) ==> {
                &&& result matches Err(ConfigError::LabelAlreadyInUse(l)) && l@ == gpio_pin@.label_text()
                &&& final(self)@ == old(self)@
            },
            !old(self)@.used_pins().contains(gpio_pin@.pin.spec_pin()) && !old(self)@.has_label(gpio_pin@.label_text()) ==> {
                &&& result is Ok
                &&& final(self)@ == old(self)@.with_gpio(gpio_pin@)
            },
            final(self)@.wf(),
    {
        proof {
            use_type_invariant(&*self);
        }
        let ghost start = self@;
        let pin = gpio_pin.pin.pin();
        let pins = vec![pin];
        proof {
            assert(pins@ =~= seq![pin]);
            assert(pins@.drop_last() =~= Seq::<ChosenPin>::empty());
            assert(first_used(Seq::<ChosenPin>::empty(), start.used_pins()) is None);
            assert(first_used(pins@, start.used_pins()) == (if start.used_pins().contains(pin) {
                Some(pin)
            } else {
                None
            }));
        }
        match self.check_conflicts_pins(pins.as_slice()) {
            Err(e) => {
                return Err(e);
            },
            Ok(()) => {},
        }
        let new_label = gpio_pin.label();
        let mut i: usize = 0;
        while i < self.gpio_pins.len()
            invariant
                self@ == start,
                start.wf(),
                !start.used_pins().contains(gpio_pin@.pin.spec_pin()),
                i <= self.gpio_pins@.len(),
                new_label@ == gpio_pin@.label_text(),
                forall|j: int| 0 <= j < i ==> #[trigger] start.gpio[j].label_text() != new_label@,
            decreases self.gpio_pins@.len() - i,
        {
            let label = self.gpio_pins[i].label();
            proof {
                assert(start.gpio[i as int] == self.gpio_pins@[i as int]@);
            }
            if label == new_label {
                proof {
                    assert(start.gpio[i as int].label_text() == gpio_pin@.label_text());
                }
                return Err(ConfigError::LabelAlreadyInUse(new_label));
            }
            i += 1;
        }
        proof {
            use_type_invariant(&*self);
        }
        let ghost g = gpio_pin@;
        let mut pins = copy_pin_configs(&self.gpio_pins);
        pins.push(gpio_pin);
        proof {
            assert(pin_configs_view(pins@) =~= start.gpio.push(g));
            lemma_with_gpio_wf(start, g);
        }
        self.gpio_pins = pins;
        proof {
            assert(self@ == start.with_gpio(g));
        }
        Ok(())
    }

    /// Removes the GPIO configuration of the pin and returns it.
    pub fn remove_gpio_pin(&mut self, pin: &ChosenPin) -> (removed: Option<PinConfig>)
        ensures
            match gpio_position(old(self)@.gpio, *pin) {
                Some(k) => removed matches Some(r) && r@ == old(self)@.gpio[k] && final(self)@ == old(self)@.without_gpio(k),
                None => removed is None && final(self)@ == old(self)@,
            },
            final(self)@.wf(),
    {
        proof {
            use_type_invariant(&*self);
        }
        match self.gpio_index(*pin) {
            Some(pos) => {
                let ghost before = self@;
                let ghost before_pins = self.gpio_pins@;
                proof {
                    lemma_gpio_position_bounds(before.gpio, *pin);
                    assert(gpio_position(before.gpio, *pin) is Some);
                    let k = gpio_position(before.gpio, *pin)->0;
                    assert(0 <= k < before.gpio.len());
                    assert(before.gpio.len() == before_pins.len());
                    assert(before_pins.len() == self.gpio_pins.len());
                    assert(k as usize == pos);
                    assert(k == pos as int);
                }
                proof {
                    use_type_invariant(&*self);
                    lemma_without_gpio_wf(before, pos as int);
                }
                let mut pins = copy_pin_configs(&self.gpio_pins);
                let removed = pins.remove(pos);
                proof {
                    assert(pin_configs_view(pins@) =~= before.gpio.remove(pos as int));
                    assert(pin_configs_view(before_pins)[pos as int] == before_pins[pos as int]@);
                }
                self.gpio_pins = pins;
                proof {
                    assert(removed@ == before_pins[pos as int]@);
                    assert(before.gpio[pos as int] == before_pins[pos as int]@);
                    assert(self@.gpio =~= before.gpio.remove(pos as int));
                    assert(gpio_position(before.gpio, *pin) == Some(pos as int));
                    assert(self@ == before.without_gpio(pos as int));
                    assert(removed@ == before.gpio[pos as int]);
                }
                Some(removed)
            },
            None => None,
        }
    }
}

/// The first used pin of a prefix is the first used pin of the whole list.
proof fn lemma_first_used_prefix(new_pins: Seq<ChosenPin>, used: Seq<ChosenPin>, n: int)
    requires
        0 <= n <= new_pins.len(),
        first_used(new_pins.take(n), used) is Some,
    ensures
        first_used(new_pins, used) == first_used(new_pins.take(n), used),
    decreases new_pins.len() - n,
{
    if n < new_pins.len() {
        assert(new_pins.take(n + 1).drop_last() =~= new_pins.take(n));
        lemma_first_used_prefix(new_pins, used, n + 1);
    } else {
        assert(new_pins.take(n) =~= new_pins);
    }
}

/// The first position in a prefix is the first position in the whole list.
proof fn lemma_gpio_position_prefix(gpio: Seq<PinConfigView>, pin: ChosenPin, n: int)
    requires
        0 <= n <= gpio.len(),
        gpio_position(gpio.take(n), pin) is Some,
    ensures
        gpio_position(gpio, pin) == gpio_position(gpio.take(n), pin),
    decreases gpio.len() - n,
{
    if n < gpio.len() {
        assert(gpio.take(n + 1).drop_last() =~= gpio.take(n));
        lemma_gpio_position_prefix(gpio, pin, n + 1);
    } else {
        assert(gpio.take(n) =~= gpio);
    }
}

/// A found position lies inside the list and names the pin; no earlier
/// entry names it.
pub proof fn lemma_gpio_position_bounds(gpio: Seq<PinConfigView>, pin: ChosenPin)
    ensures
        gpio_position(gpio, pin) matches Some(k) ==> 0 <= k < gpio.len() && gpio[k].pin.spec_pin() == pin
            && forall|j: int| 0 <= j < k ==> #[trigger] gpio[j].pin.spec_pin() != pin,
        gpio_position(gpio, pin) is None ==> forall|j: int| 0 <= j < gpio.len() ==> #[trigger] gpio[j].pin.spec_pin() != pin,
    decreases gpio.len(),
{
    if gpio.len() > 0 {
        let prefix = gpio.drop_last();
        lemma_gpio_position_bounds(prefix, pin);
        assert forall|j: int| 0 <= j < gpio.len() - 1 implies #[trigger] prefix[j] == gpio[j] by {}
        match gpio_position(prefix, pin) {
            Some(k) => {
                assert(gpio_position(gpio, pin) == Some(k));
                assert(prefix[k] == gpio[k]);
                assert forall|j: int| 0 <= j < k implies #[trigger] gpio[j].pin.spec_pin() != pin by {
                    assert(prefix[j] == gpio[j]);
                }
            },
            None => {
                assert forall|j: int| 0 <= j < gpio.len() - 1 implies #[trigger] gpio[j].pin.spec_pin() != pin by {
                    assert(prefix[j] == gpio[j]);
                }
            },
        }
    }
}

/// What `first_used` finds: a pin of the new list that is in use, or,
/// when it finds none, that no pin of the new list is in use.
pub proof fn lemma_first_used(new_pins: Seq<ChosenPin>, used: Seq<ChosenPin>)
    ensures
        first_used(new_pins, used) matches Some(p) ==> used.contains(p) && new_pins.contains(p),
        first_used(new_pins, used) is None ==> forall|i: int| 0 <= i < new_pins.len() ==> !used.contains(#[trigger] new_pins[i]),
    decreases new_pins.len(),
{
    if new_pins.len() > 0 {
        let prefix = new_pins.drop_last();
        lemma_first_used(prefix, used);
        assert forall|i: int| 0 <= i < prefix.len() implies #[trigger] prefix[i] == new_pins[i] by {}
        if let Some(p) = first_used(prefix, used) {
            let k = choose|k: int| 0 <= k < prefix.len() && prefix[k] == p;
            assert(new_pins[k] == p);
        } else if used.contains(new_pins.last()) {
            assert(new_pins[new_pins.len() - 1] == new_pins.last());
        } else {
            assert forall|i: int| 0 <= i < new_pins.len() implies !used.contains(#[trigger] new_pins[i]) by {
                if i < prefix.len() {
                    assert(prefix[i] == new_pins[i]);
                }
            }
        }
    }
}

impl ConfigView {
    /// The configuration with another SPI bus at the end.
    pub open spec fn with_spi(self, spi: SpiConfig) -> ConfigView {
        ConfigView { spi: self.spi.push(spi), ..self }
    }

    /// The configuration without the SPI bus at index `k`.
    pub open spec fn without_spi(self, k: int) -> ConfigView {
        ConfigView { spi: self.spi.remove(k), ..self }
    }

    /// The configuration with another peripheral at the end, under the next
    /// identifier.
    pub open spec fn with_peripheral(self, p: Peripheral) -> ConfigView {
        ConfigView {
            peripherals: self.peripherals.push((PeripheralId::with_number(self.next_id), p)),
            next_id: (self.next_id + 1) as u64,
            ..self
        }
    }

    /// The configuration without the peripheral at index `k`.
    pub open spec fn without_peripheral(self, k: int) -> ConfigView {
        ConfigView { peripherals: self.peripherals.remove(k), ..self }
    }
}

/// The pins of an SPI configuration that follows a mapping are different.
pub proof fn lemma_matching_spi_distinct(spi: SpiConfig)
    requires
        matches_mapping(spi),
    ensures
        spi_uses(spi).no_duplicates(),
{
    let k = choose|k: int| 0 <= k < spi.bus.spec_mappings().len() && #[trigger] mapping_fits(spi.bus.spec_mappings()[k], spi);
    lemma_bus_mappings_sound(spi.bus);
    let m = spi.bus.spec_mappings()[k];
    assert(mapping_pins_distinct(m));
    crate::config::spi::lemma_new_accepts_distinct_pins(spi.sck, spi.miso, spi.mosi);
}

/// Adding an SPI bus that is not configured yet, that follows a mapping of
/// the bus and whose pins are free keeps the configuration invariant.
pub proof fn lemma_with_spi_wf(c: ConfigView, spi: SpiConfig)
    requires
        c.wf(),
        !c.has_spi_bus(spi.bus),
        matches_mapping(spi),
        first_used(spi_uses(spi), c.used_pins()) is None,
    ensures
        c.with_spi(spi).wf(),
{
    lemma_first_used(spi_uses(spi), c.used_pins());
    lemma_matching_spi_distinct(spi);
    let n = c.with_spi(spi);
    let last = c.spi.len() as int;
    assert(n.spi[last] == spi);
    assert forall|i: int| 0 <= i < c.spi.len() implies #[trigger] n.spi[i] == c.spi[i] by {}
    assert forall|x: int, j: int| 0 <= x < spi_uses(spi).len() && 0 <= j < c.spi.len() implies
        !#[trigger] spi_uses(c.spi[j]).contains(#[trigger] spi_uses(spi)[x]) by {
        lemma_used_pins_contains(c, spi_uses(spi)[x]);
    }
    assert forall|x: int, j: int| 0 <= x < spi_uses(spi).len() && 0 <= j < c.peripherals.len() implies
        !#[trigger] peripheral_uses(c.peripherals[j]).contains(#[trigger] spi_uses(spi)[x]) by {
        lemma_used_pins_contains(c, spi_uses(spi)[x]);
    }
    assert forall|x: int, j: int| 0 <= x < spi_uses(spi).len() && 0 <= j < c.gpio.len() implies
        #[trigger] c.gpio[j].pin.spec_pin() != #[trigger] spi_uses(spi)[x] by {
        lemma_used_pins_contains(c, spi_uses(spi)[x]);
    }
    assert forall|i: int, j: int| 0 <= i < n.spi.len() && 0 <= j < n.spi.len() && i != j implies
        disjoint(#[trigger] spi_uses(n.spi[i]), #[trigger] spi_uses(n.spi[j])) by {
        if i == last {
            assert forall|a: int, b: int| 0 <= a < spi_uses(n.spi[i]).len() && 0 <= b < spi_uses(n.spi[j]).len() implies
                spi_uses(n.spi[i])[a] != spi_uses(n.spi[j])[b] by {
                assert(!spi_uses(c.spi[j]).contains(spi_uses(spi)[a]));
            }
        } else if j == last {
            assert forall|a: int, b: int| 0 <= a < spi_uses(n.spi[i]).len() && 0 <= b < spi_uses(n.spi[j]).len() implies
                spi_uses(n.spi[i])[a] != spi_uses(n.spi[j])[b] by {
                assert(!spi_uses(c.spi[i]).contains(spi_uses(spi)[b]));
            }
        }
    }
    assert forall|i: int, j: int| 0 <= i < n.spi.len() && 0 <= j < n.spi.len() && i != j implies
        #[trigger] n.spi[i].bus != #[trigger] n.spi[j].bus by {}
    assert forall|i: int, j: int| 0 <= i < n.gpio.len() && 0 <= j < n.spi.len() implies
        !(#[trigger] spi_uses(n.spi[j])).contains(#[trigger] n.gpio[i].pin.spec_pin()) by {
        if j == last {
            if spi_uses(spi).contains(n.gpio[i].pin.spec_pin()) {
                let x = choose|x: int| 0 <= x < spi_uses(spi).len() && spi_uses(spi)[x] == n.gpio[i].pin.spec_pin();
                assert(c.gpio[i].pin.spec_pin() != spi_uses(spi)[x]);
            }
        }
    }
    assert forall|i: int, j: int| 0 <= i < n.spi.len() && 0 <= j < n.peripherals.len() implies
        disjoint(#[trigger] spi_uses(n.spi[i]), #[trigger] peripheral_uses(n.peripherals[j])) by {
        if i == last {
            assert forall|a: int, b: int| 0 <= a < spi_uses(n.spi[i]).len() && 0 <= b < peripheral_uses(n.peripherals[j]).len() implies
                spi_uses(n.spi[i])[a] != peripheral_uses(n.peripherals[j])[b] by {
                assert(!peripheral_uses(c.peripherals[j]).contains(spi_uses(spi)[a]));
            }
        }
    }
    assert forall|i: int| 0 <= i < n.peripherals.len() implies n.has_spi_bus(#[trigger] n.peripherals[i].1.spec_spi_bus()) by {
        let b = n.peripherals[i].1.spec_spi_bus();
        let k = choose|k: int| 0 <= k < c.spi.len() && #[trigger] c.spi[k].bus == b;
        assert(n.spi[k].bus == b);
    }
}

/// Removing an SPI bus that no peripheral sits on keeps the configuration
/// invariant.
pub proof fn lemma_without_spi_wf(c: ConfigView, k: int)
    requires
        c.wf(),
        0 <= k < c.spi.len(),
        !c.bus_has_peripheral(c.spi[k].bus),
    ensures
        c.without_spi(k).wf(),
{
    let n = c.without_spi(k);
    assert forall|i: int| 0 <= i < n.spi.len() implies #[trigger] n.spi[i] == c.spi[if i < k { i } else { i + 1 }] by {}
    assert forall|i: int, j: int| 0 <= i < n.spi.len() && 0 <= j < n.spi.len() && i != j implies
        disjoint(#[trigger] spi_uses(n.spi[i]), #[trigger] spi_uses(n.spi[j])) by {
        assert(n.spi[i] == c.spi[if i < k { i } else { i + 1 }]);
        assert(n.spi[j] == c.spi[if j < k { j } else { j + 1 }]);
    }
    assert forall|i: int, j: int| 0 <= i < n.spi.len() && 0 <= j < n.spi.len() && i != j implies
        #[trigger] n.spi[i].bus != #[trigger] n.spi[j].bus by {
        assert(n.spi[i] == c.spi[if i < k { i } else { i + 1 }]);
        assert(n.spi[j] == c.spi[if j < k { j } else { j + 1 }]);
    }
    assert forall|i: int| 0 <= i < n.spi.len() implies (#[trigger] spi_uses(n.spi[i])).no_duplicates() by {
        assert(n.spi[i] == c.spi[if i < k { i } else { i + 1 }]);
    }
    assert forall|i: int| 0 <= i < n.spi.len() implies #[trigger] matches_mapping(n.spi[i]) by {
        assert(n.spi[i] == c.spi[if i < k { i } else { i + 1 }]);
    }
    assert forall|i: int, j: int| 0 <= i < n.gpio.len() && 0 <= j < n.spi.len() implies
        !(#[trigger] spi_uses(n.spi[j])).contains(#[trigger] n.gpio[i].pin.spec_pin()) by {
        assert(n.spi[j] == c.spi[if j < k { j } else { j + 1 }]);
    }
    assert forall|i: int, j: int| 0 <= i < n.spi.len() && 0 <= j < n.peripherals.len() implies
        disjoint(#[trigger] spi_uses(n.spi[i]), #[trigger] peripheral_uses(n.peripherals[j])) by {
        assert(n.spi[i] == c.spi[if i < k { i } else { i + 1 }]);
    }
    assert forall|i: int| 0 <= i < n.peripherals.len() implies n.has_spi_bus(#[trigger] n.peripherals[i].1.spec_spi_bus()) by {
        let b = n.peripherals[i].1.spec_spi_bus();
        let m = choose|m: int| 0 <= m < c.spi.len() && #[trigger] c.spi[m].bus == b;
        assert(m != k);
        let m2 = if m < k { m } else { m - 1 };
        assert(n.spi[m2] == c.spi[m]);
    }
}

impl Config {
    /// Returns whether the SPI bus is configured.
    fn spi_bus_configured(&self, bus: ChosenSpiBus) -> (found: bool)
        ensures
            found == self@.has_spi_bus(bus),
    {
        let mut i: usize = 0;
        while i < self.spi_buses.len()
            invariant
                i <= self.spi_buses@.len(),
                forall|j: int| 0 <= j < i ==> self.spi_buses@[j].bus != bus,
            decreases self.spi_buses@.len() - i,
        {
            if self.spi_buses[i].bus == bus {
                return true;
            }
            i += 1;
        }
        false
    }

    /// Returns whether a peripheral sits on the SPI bus.
    fn bus_used_by_peripheral(&self, bus: ChosenSpiBus) -> (found: bool)
        ensures
            found == self@.bus_has_peripheral(bus),
    {
        let mut i: usize = 0;
        while i < self.peripherals.len()
            invariant
                i <= self.peripherals@.len(),
                forall|j: int| 0 <= j < i ==> #[trigger] self.peripherals@[j].1.spec_spi_bus() != bus,
            decreases self.peripherals@.len() - i,
        {
            if self.peripherals[i].1.spi_bus() == bus {
                return true;
            }
            i += 1;
        }
        false
    }

    /// Returns whether the SPI configuration follows one of the mappings of its bus.
    fn follows_mapping(spi: &SpiConfig) -> (found: bool)
        ensures
            found == matches_mapping(*spi),
    {
        let mappings = spi.bus.spi_mappings();
        let mut i: usize = 0;
        while i < mappings.len()
            invariant
                mappings@ == spi.bus.spec_mappings(),
                i <= mappings@.len(),
                forall|j: int| 0 <= j < i ==> !#[trigger] mapping_fits(mappings@[j], *spi),
            decreases mappings@.len() - i,
        {
            let m = mappings[i];
            let miso_fits = match spi.miso {
                Some(p) => p == m.miso,
                None => true,
            };
            let mosi_fits = match spi.mosi {
                Some(p) => p == m.mosi,
                None => true,
            };
            if m.sck == spi.sck && miso_fits && mosi_fits {
                proof {
                    assert(mapping_fits(mappings@[i as int], *spi));
                }
                return true;
            }
            i += 1;
        }
        false
    }

    /// Returns whether the board brings out every pin of the list.
    fn pins_on_board(&self, pins: &Vec<ChosenPin>) -> (found: bool)
        ensures
            found == forall|i: int| 0 <= i < pins@.len() ==> self@.board.spec_gpio_pins().contains(#[trigger] pins@[i]),
    {
        let board_pins = self.board.gpio_pins();
        let mut i: usize = 0;
        while i < pins.len()
            invariant
                board_pins@ == self@.board.spec_gpio_pins(),
                i <= pins@.len(),
                forall|j: int| 0 <= j < i ==> board_pins@.contains(#[trigger] pins@[j]),
            decreases pins@.len() - i,
        {
            if !pins_contain(&board_pins, pins[i]) {
                return false;
            }
            i += 1;
        }
        true
    }

    /// Adds an SPI bus.
    ///
    /// Fails if the bus is already configured, if its pins are no mapping
    /// of the bus, if the board does not bring those pins out, or if one of
    /// them is already in use.
    pub fn add_spi_bus(&mut self, spi: SpiConfig) -> (result: Result<(), ConfigError>)
        ensures
            match old(self)@.spi_refusal(spi) {
                Some(e) => result == Err::<(), ConfigError>(e) && final(self)@ == old(self)@,
                None => result is Ok && final(self)@ == old(self)@.with_spi(spi),
            },
            final(self)@.wf(),
    {
        proof {
            use_type_invariant(&*self);
        }
        if self.spi_bus_configured(spi.bus) {
            return Err(ConfigError::DuplicateSpiBus(spi.bus));
        }
        if !Self::follows_mapping(&spi) {
            return Err(ConfigError::UnsupportedSpiMapping {
                bus: spi.bus,
                sck: spi.sck,
                miso: spi.miso,
                mosi: spi.mosi,
            });
        }
        let uses = spi.uses_pins();
        if !self.pins_on_board(&uses) {
            return Err(ConfigError::SpiMappingUnavailableOnBoard(spi.bus));
        }
        match self.check_conflicts_pins(uses.as_slice()) {
            Err(e) => return Err(e),
            Ok(()) => {},
        }
        let ghost before = self@;
        proof {
            use_type_invariant(&*self);
            lemma_with_spi_wf(before, spi);
        }
        let mut buses = copy_vec(&self.spi_buses);
        buses.push(spi);
        self.spi_buses = buses;
        proof {
            assert(self@ == before.with_spi(spi));
        }
        Ok(())
    }

    /// Removes the SPI bus, unless a peripheral sits on it; returns the
    /// removed configuration, or `None` when the bus was not configured.
    pub fn remove_spi(&mut self, bus: &ChosenSpiBus) -> (result: Result<Option<SpiConfig>, ConfigError>)
        ensures
            old(self)@.bus_has_peripheral(*bus) ==> {
                &&& result == Err::<Option<SpiConfig>, ConfigError>(ConfigError::SpiBusInUse(*bus))
                &&& final(self)@ == old(self)@
            },
            !old(self)@.bus_has_peripheral(*bus) ==> match first_index(old(self)@.spi, |s: SpiConfig| s.bus == *bus) {
                Some(k) => result == Ok::<Option<SpiConfig>, ConfigError>(Some(old(self)@.spi[k]))
                    && final(self)@ == old(self)@.without_spi(k),
                None => result == Ok::<Option<SpiConfig>, ConfigError>(None) && final(self)@ == old(self)@,
            },
            final(self)@.wf(),
    {
        proof {
            use_type_invariant(&*self);
        }
        if self.bus_used_by_peripheral(*bus) {
            return Err(ConfigError::SpiBusInUse(*bus));
        }
        let ghost pred = |s: SpiConfig| s.bus == *bus;
        let ghost start = self@;
        let mut i: usize = 0;
        while i < self.spi_buses.len()
            invariant
                self@ == start,
                start == old(self)@,
                !start.bus_has_peripheral(*bus),
                pred == (|s: SpiConfig| s.bus == *bus),
                i <= self.spi_buses@.len(),
                first_index(self.spi_buses@.take(i as int), pred) is None,
            decreases self.spi_buses@.len() - i,
        {
            proof {
                lemma_first_index_step(self.spi_buses@, pred, i as int);
            }
            if self.spi_buses[i].bus == *bus {
                let ghost before = self@;
                proof {
                    use_type_invariant(&*self);
                    lemma_without_spi_wf(before, i as int);
                }
                let mut buses = copy_vec(&self.spi_buses);
                let removed = buses.remove(i);
                self.spi_buses = buses;
                proof {
                    assert(self@ == before.without_spi(i as int));
                    assert(first_index(before.spi, pred) == Some(i as int));
                    assert(removed == before.spi[i as int]);
                }
                return Ok(Some(removed));
            }
            i += 1;
        }
        proof {
            assert(self.spi_buses@.take(i as int) =~= self.spi_buses@);
        }
        Ok(None)
    }
}


impl ConfigView {
    /// Why an SPI bus cannot be added, if it cannot: the bus must be new,
    /// its pins a mapping of the bus that the board brings out, and free.
    pub open spec fn spi_refusal(self, spi: SpiConfig) -> Option<ConfigError> {
        if self.has_spi_bus(spi.bus) {
            Some(ConfigError::DuplicateSpiBus(spi.bus))
        } else if !matches_mapping(spi) {
            Some(ConfigError::UnsupportedSpiMapping { bus: spi.bus, sck: spi.sck, miso: spi.miso, mosi: spi.mosi })
        } else if !self.spi_on_board(spi) {
            Some(ConfigError::SpiMappingUnavailableOnBoard(spi.bus))
        } else {
            match first_used(spi_uses(spi), self.used_pins()) {
                Some(p) => Some(ConfigError::PinAlreadyInUse(p)),
                None => None,
            }
        }
    }

    /// Why a peripheral cannot be added, if it cannot: its bus must be
    /// configured and free of other peripherals, its own parameters must be
    /// consistent, its network parameters must be new, and its pins free.
    pub open spec fn peripheral_refusal(self, p: Peripheral) -> Option<ConfigError> {
        let bus = p.spec_spi_bus();
        if !self.has_spi_bus(bus) {
            Some(ConfigError::SpiBusNotFound(bus))
        } else if self.bus_has_peripheral(bus) {
            Some(ConfigError::SpiBusAlreadyUsedByPeripheral(bus))
        } else if !p.spec_valid() {
            Some(p.spec_validation_error())
        } else if first_network_conflict(self.peripherals, p) is Some {
            first_network_conflict(self.peripherals, p)
        } else {
            match first_used(p.spec_uses_pins(), self.used_pins()) {
                Some(q) => Some(ConfigError::PinAlreadyInUse(q)),
                None => None,
            }
        }
    }
}

/// No configured peripheral conflicts with the new one exactly when the
/// search finds no conflict.
pub proof fn lemma_first_network_conflict(ps: Seq<(PeripheralId, Peripheral)>, new: Peripheral)
    ensures
        first_network_conflict(ps, new) is None <==> forall|i: int| 0 <= i < ps.len() ==> #[trigger] network_conflict(ps[i].1, new) is None,
    decreases ps.len(),
{
    if ps.len() > 0 {
        let prefix = ps.drop_last();
        lemma_first_network_conflict(prefix, new);
        assert forall|i: int| 0 <= i < prefix.len() implies #[trigger] prefix[i] == ps[i] by {}
        if first_network_conflict(ps, new) is None {
            assert forall|i: int| 0 <= i < ps.len() implies #[trigger] network_conflict(ps[i].1, new) is None by {
                if i < prefix.len() {
                    assert(prefix[i] == ps[i]);
                }
            }
        } else if forall|i: int| 0 <= i < ps.len() ==> #[trigger] network_conflict(ps[i].1, new) is None {
            assert forall|i: int| 0 <= i < prefix.len() implies #[trigger] network_conflict(prefix[i].1, new) is None by {
                assert(prefix[i] == ps[i]);
                assert(network_conflict(ps[i].1, new) is None);
            }
            assert(network_conflict(ps[ps.len() - 1].1, new) is None);
        }
    }
}

/// The first conflict found in a prefix is the first conflict of the whole list.
proof fn lemma_first_network_conflict_prefix(ps: Seq<(PeripheralId, Peripheral)>, new: Peripheral, n: int)
    requires
        0 <= n <= ps.len(),
        first_network_conflict(ps.take(n), new) is Some,
    ensures
        first_network_conflict(ps, new) == first_network_conflict(ps.take(n), new),
    decreases ps.len() - n,
{
    if n < ps.len() {
        assert(ps.take(n + 1).drop_last() =~= ps.take(n));
        lemma_first_network_conflict_prefix(ps, new, n + 1);
    } else {
        assert(ps.take(n) =~= ps);
    }
}

/// Whether two peripherals conflict does not depend on which of them came first.
pub proof fn lemma_network_conflict_symmetric(a: Peripheral, b: Peripheral)
    ensures
        network_conflict(a, b) is None <==> network_conflict(b, a) is None,
{
}

/// Returns the conflict of a new peripheral with a configured one, if any.
fn peripheral_network_conflict(configured: &Peripheral, new: &Peripheral) -> (conflict: Option<ConfigError>)
    ensures
        conflict == network_conflict(*configured, *new),
{
    match (configured, new) {
        (Peripheral::W5500(a), Peripheral::W5500(b)) => {
            if a.network.mac.same_as(&b.network.mac) {
                return Some(ConfigError::DuplicateMacAddress(b.network.mac));
            }
            if a.network.ip.same_as(&b.network.ip) {
                return Some(ConfigError::DuplicateIpAddress(b.network.ip));
            }
            match (a.socket_mode, b.socket_mode) {
                (
                    SocketMode::TcpServer { port: configured_port, socket_num: configured_socket_num },
                    SocketMode::TcpServer { port, socket_num },
                ) => {
                    if configured_port == port {
                        return Some(ConfigError::DuplicateTcpPort(port));
                    }
                    if configured_socket_num == socket_num {
                        return Some(ConfigError::DuplicateSocketNumber(socket_num));
                    }
                },
            }
            None
        },
    }
}

/// Adding a peripheral that is not refused keeps the configuration invariant.
pub proof fn lemma_with_peripheral_wf(c: ConfigView, p: Peripheral)
    requires
        c.wf(),
        c.peripheral_refusal(p) is None,
        c.next_id < u64::MAX,
    ensures
        c.with_peripheral(p).wf(),
{
    broadcast use PeripheralId::lemma_number;
    let n = c.with_peripheral(p);
    let last = c.peripherals.len() as int;
    let uses = peripheral_uses(n.peripherals[last]);
    assert(n.peripherals[last] == (PeripheralId::with_number(c.next_id), p));
    assert(uses == p.spec_uses_pins());
    lemma_first_used(p.spec_uses_pins(), c.used_pins());
    lemma_first_network_conflict(c.peripherals, p);
    assert forall|i: int| 0 <= i < c.peripherals.len() implies #[trigger] n.peripherals[i] == c.peripherals[i] by {}
    assert(uses.no_duplicates()) by {
        match p {
            Peripheral::W5500(w) => {
                assert(uses[0] == w.cs && uses[1] == w.rst);
            },
        }
    }
    assert forall|x: int, j: int| 0 <= x < uses.len() && 0 <= j < c.peripherals.len() implies
        !#[trigger] peripheral_uses(c.peripherals[j]).contains(#[trigger] uses[x]) by {
        lemma_used_pins_contains(c, uses[x]);
    }
    assert forall|x: int, j: int| 0 <= x < uses.len() && 0 <= j < c.spi.len() implies
        !#[trigger] spi_uses(c.spi[j]).contains(#[trigger] uses[x]) by {
        lemma_used_pins_contains(c, uses[x]);
    }
    assert forall|x: int, j: int| 0 <= x < uses.len() && 0 <= j < c.gpio.len() implies
        #[trigger] c.gpio[j].pin.spec_pin() != #[trigger] uses[x] by {
        lemma_used_pins_contains(c, uses[x]);
    }
    assert forall|i: int| 0 <= i < n.peripherals.len() implies (#[trigger] peripheral_uses(n.peripherals[i])).no_duplicates() by {}
    assert forall|i: int, j: int| 0 <= i < n.peripherals.len() && 0 <= j < n.peripherals.len() && i != j implies
        disjoint(#[trigger] peripheral_uses(n.peripherals[i]), #[trigger] peripheral_uses(n.peripherals[j])) by {
        if i == last {
            assert forall|a: int, b: int| 0 <= a < peripheral_uses(n.peripherals[i]).len() && 0 <= b < peripheral_uses(n.peripherals[j]).len() implies
                peripheral_uses(n.peripherals[i])[a] != peripheral_uses(n.peripherals[j])[b] by {
                assert(!peripheral_uses(c.peripherals[j]).contains(uses[a]));
            }
        } else if j == last {
            assert forall|a: int, b: int| 0 <= a < peripheral_uses(n.peripherals[i]).len() && 0 <= b < peripheral_uses(n.peripherals[j]).len() implies
                peripheral_uses(n.peripherals[i])[a] != peripheral_uses(n.peripherals[j])[b] by {
                assert(!peripheral_uses(c.peripherals[i]).contains(uses[b]));
            }
        }
    }
    assert forall|i: int| 0 <= i < n.peripherals.len() implies n.has_spi_bus(#[trigger] n.peripherals[i].1.spec_spi_bus()) by {
        let b = n.peripherals[i].1.spec_spi_bus();
        let k = choose|k: int| 0 <= k < c.spi.len() && #[trigger] c.spi[k].bus == b;
        assert(n.spi[k].bus == b);
    }
    assert forall|i: int, j: int| 0 <= i < n.peripherals.len() && 0 <= j < n.peripherals.len() && i != j implies
        #[trigger] n.peripherals[i].1.spec_spi_bus() != #[trigger] n.peripherals[j].1.spec_spi_bus() by {}
    assert forall|i: int, j: int| 0 <= i < j < n.peripherals.len() implies
        (#[trigger] n.peripherals[i].0).spec_get() < (#[trigger] n.peripherals[j].0).spec_get() by {}
    assert forall|i: int, j: int| 0 <= i < n.peripherals.len() && 0 <= j < n.peripherals.len() && i != j implies
        network_conflict(#[trigger] n.peripherals[i].1, #[trigger] n.peripherals[j].1) is None by {
        if i == last {
            lemma_network_conflict_symmetric(p, c.peripherals[j].1);
            assert(network_conflict(c.peripherals[j].1, p) is None);
        } else if j == last {
            assert(network_conflict(c.peripherals[i].1, p) is None);
        }
    }
    assert forall|i: int, j: int| 0 <= i < n.gpio.len() && 0 <= j < n.peripherals.len() implies
        !(#[trigger] peripheral_uses(n.peripherals[j])).contains(#[trigger] n.gpio[i].pin.spec_pin()) by {
        if j == last {
            if uses.contains(n.gpio[i].pin.spec_pin()) {
                let x = choose|x: int| 0 <= x < uses.len() && uses[x] == n.gpio[i].pin.spec_pin();
                assert(c.gpio[i].pin.spec_pin() != uses[x]);
            }
        }
    }
    assert forall|i: int, j: int| 0 <= i < n.spi.len() && 0 <= j < n.peripherals.len() implies
        disjoint(#[trigger] spi_uses(n.spi[i]), #[trigger] peripheral_uses(n.peripherals[j])) by {
        if j == last {
            assert forall|a: int, b: int| 0 <= a < spi_uses(n.spi[i]).len() && 0 <= b < peripheral_uses(n.peripherals[j]).len() implies
                spi_uses(n.spi[i])[a] != peripheral_uses(n.peripherals[j])[b] by {
                assert(!spi_uses(c.spi[i]).contains(uses[b]));
            }
        }
    }
}


/// Removing a peripheral keeps the configuration invariant.
pub proof fn lemma_without_peripheral_wf(c: ConfigView, k: int)
    requires
        c.wf(),
        0 <= k < c.peripherals.len(),
    ensures
        c.without_peripheral(k).wf(),
{
    let n = c.without_peripheral(k);
    assert forall|i: int| 0 <= i < n.peripherals.len() implies
        #[trigger] n.peripherals[i] == c.peripherals[if i < k { i } else { i + 1 }] by {}
    assert forall|i: int, j: int| 0 <= i < n.peripherals.len() && 0 <= j < n.peripherals.len() && i != j implies
        disjoint(#[trigger] peripheral_uses(n.peripherals[i]), #[trigger] peripheral_uses(n.peripherals[j])) by {
        assert(n.peripherals[i] == c.peripherals[if i < k { i } else { i + 1 }]);
        assert(n.peripherals[j] == c.peripherals[if j < k { j } else { j + 1 }]);
    }
    assert forall|i: int, j: int| 0 <= i < n.peripherals.len() && 0 <= j < n.peripherals.len() && i != j implies
        #[trigger] n.peripherals[i].1.spec_spi_bus() != #[trigger] n.peripherals[j].1.spec_spi_bus() by {
        assert(n.peripherals[i] == c.peripherals[if i < k { i } else { i + 1 }]);
        assert(n.peripherals[j] == c.peripherals[if j < k { j } else { j + 1 }]);
    }
    assert forall|i: int, j: int| 0 <= i < n.peripherals.len() && 0 <= j < n.peripherals.len() && i != j implies
        network_conflict(#[trigger] n.peripherals[i].1, #[trigger] n.peripherals[j].1) is None by {
        assert(n.peripherals[i] == c.peripherals[if i < k { i } else { i + 1 }]);
        assert(n.peripherals[j] == c.peripherals[if j < k { j } else { j + 1 }]);
    }
    assert forall|i: int, j: int| 0 <= i < j < n.peripherals.len() implies
        (#[trigger] n.peripherals[i].0).spec_get() < (#[trigger] n.peripherals[j].0).spec_get() by {
        assert(n.peripherals[i] == c.peripherals[if i < k { i } else { i + 1 }]);
        assert(n.peripherals[j] == c.peripherals[if j < k { j } else { j + 1 }]);
    }
    assert forall|i: int| 0 <= i < n.peripherals.len() implies (#[trigger] peripheral_uses(n.peripherals[i])).no_duplicates() by {
        assert(n.peripherals[i] == c.peripherals[if i < k { i } else { i + 1 }]);
    }
    assert forall|i: int| 0 <= i < n.peripherals.len() implies n.has_spi_bus(#[trigger] n.peripherals[i].1.spec_spi_bus()) by {
        assert(n.peripherals[i] == c.peripherals[if i < k { i } else { i + 1 }]);
        assert(c.has_spi_bus(c.peripherals[if i < k { i } else { i + 1 }].1.spec_spi_bus()));
    }
    assert forall|i: int| 0 <= i < n.peripherals.len() implies (#[trigger] n.peripherals[i].0).spec_get() < n.next_id by {
        assert(n.peripherals[i] == c.peripherals[if i < k { i } else { i + 1 }]);
    }
    assert forall|i: int, j: int| 0 <= i < n.gpio.len() && 0 <= j < n.peripherals.len() implies
        !(#[trigger] peripheral_uses(n.peripherals[j])).contains(#[trigger] n.gpio[i].pin.spec_pin()) by {
        assert(n.peripherals[j] == c.peripherals[if j < k { j } else { j + 1 }]);
    }
    assert forall|i: int, j: int| 0 <= i < n.spi.len() && 0 <= j < n.peripherals.len() implies
        disjoint(#[trigger] spi_uses(n.spi[i]), #[trigger] peripheral_uses(n.peripherals[j])) by {
        assert(n.peripherals[j] == c.peripherals[if j < k { j } else { j + 1 }]);
    }
}

impl Config {
    /// Checks the network parameters of a new peripheral against those of
    /// the configured ones; reports the first conflict.
    fn check_conflicts_w5500(&self, new_peripheral: &Peripheral) -> (result: Result<(), ConfigError>)
        ensures
            match first_network_conflict(self@.peripherals, *new_peripheral) {
                Some(e) => result == Err::<(), ConfigError>(e),
                None => result is Ok,
            },
    {
        let ghost ps = self@.peripherals;
        let mut i: usize = 0;
        while i < self.peripherals.len()
            invariant
                ps == self@.peripherals,
                i <= ps.len(),
                first_network_conflict(ps.take(i as int), *new_peripheral) is None,
            decreases ps.len() - i,
        {
            proof {
                assert(ps.take(i + 1).drop_last() =~= ps.take(i as int));
            }
            match peripheral_network_conflict(&self.peripherals[i].1, new_peripheral) {
                Some(e) => {
                    proof {
                        lemma_first_network_conflict_prefix(ps, *new_peripheral, i + 1);
                    }
                    return Err(e);
                },
                None => {},
            }
            i += 1;
        }
        proof {
            assert(ps.take(i as int) =~= ps);
        }
        Ok(())
    }

    /// Adds a peripheral and returns the identifier it received.
    ///
    /// Fails if its SPI bus is not configured or already carries a
    /// peripheral, if its own parameters are inconsistent, if its MAC, IP,
    /// TCP port or socket is already taken, or if one of its pins is in use.
    pub fn add_peripheral(&mut self, peripheral: Peripheral) -> (result: Result<PeripheralId, ConfigError>)
        requires
            old(self)@.next_id < u64::MAX,
        ensures
            match old(self)@.peripheral_refusal(peripheral) {
                Some(e) => result == Err::<PeripheralId, ConfigError>(e) && final(self)@ == old(self)@,
                None => result == Ok::<PeripheralId, ConfigError>(PeripheralId::with_number(old(self)@.next_id))
                    && final(self)@ == old(self)@.with_peripheral(peripheral),
            },
            final(self)@.wf(),
            result matches Ok(id) ==> forall|i: int| 0 <= i < old(self)@.peripherals.len()
                ==> (#[trigger] old(self)@.peripherals[i].0).spec_get() < id.spec_get(),
    {
        proof {
            use_type_invariant(&*self);
        }
        let spi_bus = peripheral.spi_bus();
        if !self.spi_bus_configured(spi_bus) {
            return Err(ConfigError::SpiBusNotFound(spi_bus));
        }
        if self.bus_used_by_peripheral(spi_bus) {
            return Err(ConfigError::SpiBusAlreadyUsedByPeripheral(spi_bus));
        }
        match peripheral.validate() {
            Err(e) => return Err(e),
            Ok(()) => {},
        }
        match self.check_conflicts_w5500(&peripheral) {
            Err(e) => return Err(e),
            Ok(()) => {},
        }
        let uses = peripheral.uses_pins();
        match self.check_conflicts_pins(uses.as_slice()) {
            Err(e) => return Err(e),
            Ok(()) => {},
        }
        let ghost before = self@;
        proof {
            use_type_invariant(&*self);
            lemma_with_peripheral_wf(before, peripheral);
        }
        let peripheral_id = PeripheralId(self.next_periph_id);
        let mut peripherals = copy_vec(&self.peripherals);
        peripherals.push((peripheral_id, peripheral));
        self.next_periph_id = self.next_periph_id + 1;
        self.peripherals = peripherals;
        proof {
            assert(self@ == before.with_peripheral(peripheral));
        }
        Ok(peripheral_id)
    }

    /// Removes the peripheral with the identifier and returns it.
    pub fn remove_peripheral(&mut self, id: PeripheralId) -> (removed: Option<Peripheral>)
        ensures
            match first_index(old(self)@.peripherals, |e: (PeripheralId, Peripheral)| e.0 == id) {
                Some(k) => removed == Some(old(self)@.peripherals[k].1) && final(self)@ == old(self)@.without_peripheral(k),
                None => removed is None && final(self)@ == old(self)@,
            },
            final(self)@.wf(),
    {
        proof {
            use_type_invariant(&*self);
        }
        let ghost pred = |e: (PeripheralId, Peripheral)| e.0 == id;
        let ghost start = self@;
        let mut i: usize = 0;
        while i < self.peripherals.len()
            invariant
                self@ == start,
                start == old(self)@,
                pred == (|e: (PeripheralId, Peripheral)| e.0 == id),
                i <= self.peripherals@.len(),
                first_index(self.peripherals@.take(i as int), pred) is None,
            decreases self.peripherals@.len() - i,
        {
            proof {
                lemma_first_index_step(self.peripherals@, pred, i as int);
            }
            if self.peripherals[i].0 == id {
                proof {
                    use_type_invariant(&*self);
                    lemma_without_peripheral_wf(start, i as int);
                }
                let mut peripherals = copy_vec(&self.peripherals);
                let (_, peripheral) = peripherals.remove(i);
                self.peripherals = peripherals;
                proof {
                    assert(self@ == start.without_peripheral(i as int));
                    assert(first_index(start.peripherals, pred) == Some(i as int));
                }
                return Some(peripheral);
            }
            i += 1;
        }
        proof {
            assert(self.peripherals@.take(i as int) =~= self.peripherals@);
        }
        None
    }
}

} // verus!
