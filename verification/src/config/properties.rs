//! Properties of configurations that span several operations.

use vstd::prelude::*;
use crate::config::{
    gpio_pins_of, lemma_used_pins_contains, peripheral_pins_of, peripheral_uses,
    spi_pins_of, spi_uses, ConfigView, PeripheralId, PinConfigView, SpiConfig, gpio_position,
};
use crate::peripherals::Peripheral;
use crate::peripherals::ethernet::w5500::{SocketMode, W5500Config};
use crate::errors::ConfigError;
use crate::config::network_conflict;
use crate::seqs::{disjoint, first_index, lemma_concat_no_duplicates, lemma_first_index};
use crate::text::{lemma_flat_map_contains, lemma_flat_map_no_duplicates};

verus! {

/// In a well-formed configuration no pin is used twice: not by two GPIO
/// configurations, two buses, two peripherals, nor by two of different kinds.
pub proof fn lemma_wf_used_pins_distinct(c: ConfigView)
    requires
        c.wf(),
    ensures
        c.used_pins().no_duplicates(),
{
    let g = gpio_pins_of(c.gpio);
    let s = spi_pins_of(c.spi);
    let p = peripheral_pins_of(c.peripherals);
    assert forall|i: int, j: int| 0 <= i < g.len() && 0 <= j < g.len() && i != j implies g[i] != g[j] by {
        assert(g[i] == c.gpio[i].pin.spec_pin() && g[j] == c.gpio[j].pin.spec_pin());
    }
    lemma_flat_map_no_duplicates(c.spi, |x: SpiConfig| spi_uses(x));
    lemma_flat_map_no_duplicates(c.peripherals, |e: (PeripheralId, Peripheral)| peripheral_uses(e));
    assert forall|a: int, b: int| 0 <= a < g.len() && 0 <= b < s.len() implies g[a] != s[b] by {
        lemma_flat_map_contains(c.spi, |x: SpiConfig| spi_uses(x), s[b]);
        assert(s.contains(s[b]));
        let f = |x: SpiConfig| spi_uses(x);
        let j = choose|j: int| 0 <= j < c.spi.len() && #[trigger] f(c.spi[j]).contains(s[b]);
        assert(g[a] == c.gpio[a].pin.spec_pin());
        assert(!spi_uses(c.spi[j]).contains(c.gpio[a].pin.spec_pin()));
    }
    lemma_concat_no_duplicates(g, s);
    assert forall|a: int, b: int| 0 <= a < (g + s).len() && 0 <= b < p.len() implies (g + s)[a] != p[b] by {
        lemma_flat_map_contains(c.peripherals, |e: (PeripheralId, Peripheral)| peripheral_uses(e), p[b]);
        assert(p.contains(p[b]));
        let f = |e: (PeripheralId, Peripheral)| peripheral_uses(e);
        let k = choose|k: int| 0 <= k < c.peripherals.len() && #[trigger] f(c.peripherals[k]).contains(p[b]);
        let x = p[b];
        assert(peripheral_uses(c.peripherals[k]).contains(x));
        let y = choose|y: int| 0 <= y < peripheral_uses(c.peripherals[k]).len() && peripheral_uses(c.peripherals[k])[y] == x;
        if a < g.len() {
            assert((g + s)[a] == c.gpio[a].pin.spec_pin());
            assert(!peripheral_uses(c.peripherals[k]).contains(c.gpio[a].pin.spec_pin()));
        } else {
            let sb = a - g.len();
            assert((g + s)[a] == s[sb]);
            lemma_flat_map_contains(c.spi, |x: SpiConfig| spi_uses(x), s[sb]);
            assert(s.contains(s[sb]));
            let fs = |x: SpiConfig| spi_uses(x);
            let j = choose|j: int| 0 <= j < c.spi.len() && #[trigger] fs(c.spi[j]).contains(s[sb]);
            let z = choose|z: int| 0 <= z < spi_uses(c.spi[j]).len() && spi_uses(c.spi[j])[z] == s[sb];
            assert(disjoint(spi_uses(c.spi[j]), peripheral_uses(c.peripherals[k])));
        }
    }
    lemma_concat_no_duplicates(g + s, p);
}

/// Removing the pin that was just added as a GPIO pin gives back the
/// configuration from before.
pub proof fn lemma_gpio_add_then_remove(c: ConfigView, g: PinConfigView)
    requires
        c.wf(),
        !c.used_pins().contains(g.pin.spec_pin()),
        !c.has_label(g.label_text()),
    ensures
        gpio_position(c.with_gpio(g).gpio, g.pin.spec_pin()) == Some(c.gpio.len() as int),
        c.with_gpio(g).without_gpio(c.gpio.len() as int) == c,
{
    let n = c.with_gpio(g);
    lemma_used_pins_contains(c, g.pin.spec_pin());
    crate::config::lemma_gpio_position_bounds(c.gpio, g.pin.spec_pin());
    assert(n.gpio.drop_last() =~= c.gpio);
    assert(n.without_gpio(c.gpio.len() as int).gpio =~= c.gpio);
}

/// Removing the bus that was just added gives back the configuration from
/// before; no peripheral can sit on it yet.
pub proof fn lemma_spi_add_then_remove(c: ConfigView, spi: SpiConfig)
    requires
        c.wf(),
        !c.has_spi_bus(spi.bus),
    ensures
        !c.with_spi(spi).bus_has_peripheral(spi.bus),
        first_index(c.with_spi(spi).spi, |s: SpiConfig| s.bus == spi.bus) == Some(c.spi.len() as int),
        c.with_spi(spi).without_spi(c.spi.len() as int) == c,
{
    let n = c.with_spi(spi);
    let pred = |s: SpiConfig| s.bus == spi.bus;
    if n.bus_has_peripheral(spi.bus) {
        let i = choose|i: int| 0 <= i < n.peripherals.len() && #[trigger] n.peripherals[i].1.spec_spi_bus() == spi.bus;
        assert(c.has_spi_bus(c.peripherals[i].1.spec_spi_bus()));
    }
    lemma_first_index(c.spi, pred);
    assert(n.spi.drop_last() =~= c.spi);
    assert(first_index(c.spi, pred) is None) by {
        if first_index(c.spi, pred) is Some {
            let k = first_index(c.spi, pred)->0;
            assert(c.spi[k].bus == spi.bus);
        }
    }
    assert(n.without_spi(c.spi.len() as int).spi =~= c.spi);
}

/// Removing the peripheral by the identifier that adding it returned gives
/// back the configuration from before, but for the identifier counter:
/// identifiers are not reused.
pub proof fn lemma_peripheral_add_then_remove(c: ConfigView, p: Peripheral)
    requires
        c.wf(),
        c.next_id < u64::MAX,
    ensures
        forall|i: int| 0 <= i < c.peripherals.len() ==> #[trigger] c.peripherals[i].0 != PeripheralId::with_number(c.next_id),
        first_index(
            c.with_peripheral(p).peripherals,
            |e: (PeripheralId, Peripheral)| e.0 == PeripheralId::with_number(c.next_id),
        ) == Some(c.peripherals.len() as int),
        c.with_peripheral(p).without_peripheral(c.peripherals.len() as int) == (ConfigView { next_id: (c.next_id + 1) as u64, ..c }),
{
    broadcast use PeripheralId::lemma_number;
    let id = PeripheralId::with_number(c.next_id);
    let n = c.with_peripheral(p);
    let pred = |e: (PeripheralId, Peripheral)| e.0 == id;
    assert forall|i: int| 0 <= i < c.peripherals.len() implies #[trigger] c.peripherals[i].0 != id by {
        assert(c.peripherals[i].0.spec_get() < c.next_id);
    }
    lemma_first_index(c.peripherals, pred);
    assert(first_index(c.peripherals, pred) is None) by {
        if first_index(c.peripherals, pred) is Some {
            let k = first_index(c.peripherals, pred)->0;
            assert(c.peripherals[k].0 == id);
        }
    }
    assert(n.peripherals.drop_last() =~= c.peripherals);
    assert(n.without_peripheral(c.peripherals.len() as int).peripherals =~= c.peripherals);
}


/// Whether `n` is `c` with a peripheral added under the next identifier, as
/// [`crate::config::Config::add_peripheral`] does when it succeeds.
pub open spec fn adds_peripheral(c: ConfigView, n: ConfigView) -> bool {
    &&& c.next_id < u64::MAX
    &&& exists|p: Peripheral| #[trigger] c.with_peripheral(p) == n
}

/// Whether `n` is what one call of a mutating method of
/// [`crate::config::Config`] leaves of `c`: a GPIO pin, an SPI bus or a
/// peripheral added or removed, or nothing changed when the call was
/// refused or found nothing to remove.
pub open spec fn config_step(c: ConfigView, n: ConfigView) -> bool {
    ||| n == c
    ||| exists|g: PinConfigView| #[trigger] c.with_gpio(g) == n
    ||| exists|k: int| 0 <= k < c.gpio.len() && #[trigger] c.without_gpio(k) == n
    ||| exists|s: SpiConfig| #[trigger] c.with_spi(s) == n
    ||| exists|k: int| 0 <= k < c.spi.len() && #[trigger] c.without_spi(k) == n
    ||| adds_peripheral(c, n)
    ||| exists|k: int| 0 <= k < c.peripherals.len() && #[trigger] c.without_peripheral(k) == n
}

/// One step keeps the next identifier, or raises it by one when it adds a
/// peripheral.
proof fn lemma_step_next_id(c: ConfigView, n: ConfigView)
    requires
        config_step(c, n),
    ensures
        c.next_id <= n.next_id,
        adds_peripheral(c, n) ==> n.next_id == c.next_id + 1,
{
}

/// Along a sequence of steps the next identifier never decreases.
proof fn lemma_next_id_monotone(cs: Seq<ConfigView>, i: int, j: int)
    requires
        forall|k: int| 0 <= k < cs.len() - 1 ==> config_step(cs[k], #[trigger] cs[k + 1]),
        0 <= i <= j < cs.len(),
    ensures
        cs[i].next_id <= cs[j].next_id,
    decreases j - i,
{
    if i < j {
        lemma_next_id_monotone(cs, i, j - 1);
        assert(config_step(cs[j - 1], cs[j - 1 + 1]));
        lemma_step_next_id(cs[j - 1], cs[j]);
    }
}

/// Identifiers are never handed out twice: along any sequence of calls on a
/// configuration (additions, removals, refused calls) the identifier the
/// next peripheral receives never decreases, and of two successful
/// additions the later one receives the larger identifier, even when
/// peripherals were removed in between.
pub proof fn lemma_ids_increase(cs: Seq<ConfigView>)
    requires
        forall|k: int| 0 <= k < cs.len() - 1 ==> config_step(cs[k], #[trigger] cs[k + 1]),
    ensures
        forall|i: int, j: int| 0 <= i <= j < cs.len() ==> #[trigger] cs[i].next_id <= #[trigger] cs[j].next_id,
        forall|i: int, j: int| 0 <= i < j < cs.len() - 1
            && #[trigger] adds_peripheral(cs[i], cs[i + 1]) && #[trigger] adds_peripheral(cs[j], cs[j + 1])
            ==> cs[i].next_id < cs[j].next_id,
{
    assert forall|i: int, j: int| 0 <= i <= j < cs.len() implies #[trigger] cs[i].next_id <= #[trigger] cs[j].next_id by {
        lemma_next_id_monotone(cs, i, j);
    }
    assert forall|i: int, j: int| 0 <= i < j < cs.len() - 1
        && #[trigger] adds_peripheral(cs[i], cs[i + 1]) && #[trigger] adds_peripheral(cs[j], cs[j + 1])
        implies cs[i].next_id < cs[j].next_id by {
        assert(config_step(cs[i], cs[i + 1]));
        lemma_step_next_id(cs[i], cs[i + 1]);
        lemma_next_id_monotone(cs, i + 1, j);
    }
}


/// The TCP port of a socket mode.
pub open spec fn tcp_port(mode: SocketMode) -> u16 {
    match mode {
        SocketMode::TcpServer { port, .. } => port,
    }
}

/// The socket number of a socket mode.
pub open spec fn socket_number(mode: SocketMode) -> u8 {
    match mode {
        SocketMode::TcpServer { socket_num, .. } => socket_num,
    }
}

/// Two W5500 modules conflict exactly when they share a MAC address, an IP
/// address, a TCP port or a socket number. A reported conflict names a
/// value the two really share, taken from the new module: a shared MAC is
/// reported first, then a shared IP, then a shared port, then a shared
/// socket.
pub proof fn lemma_network_conflict_exact(configured: W5500Config, new: W5500Config)
    ensures
        network_conflict(Peripheral::W5500(configured), Peripheral::W5500(new)) is None <==> {
            &&& configured.network.mac.0@ != new.network.mac.0@
            &&& configured.network.ip.spec_octets() != new.network.ip.spec_octets()
            &&& tcp_port(configured.socket_mode) != tcp_port(new.socket_mode)
            &&& socket_number(configured.socket_mode) != socket_number(new.socket_mode)
        },
        network_conflict(Peripheral::W5500(configured), Peripheral::W5500(new)) matches Some(ConfigError::DuplicateMacAddress(m))
            ==> m == new.network.mac && configured.network.mac.0@ == new.network.mac.0@,
        network_conflict(Peripheral::W5500(configured), Peripheral::W5500(new)) matches Some(ConfigError::DuplicateIpAddress(a))
            ==> a == new.network.ip && configured.network.ip.spec_octets() == new.network.ip.spec_octets()
                && configured.network.mac.0@ != new.network.mac.0@,
        network_conflict(Peripheral::W5500(configured), Peripheral::W5500(new)) matches Some(ConfigError::DuplicateTcpPort(p))
            ==> p == tcp_port(new.socket_mode) && tcp_port(configured.socket_mode) == p
                && configured.network.mac.0@ != new.network.mac.0@
                && configured.network.ip.spec_octets() != new.network.ip.spec_octets(),
        network_conflict(Peripheral::W5500(configured), Peripheral::W5500(new)) matches Some(ConfigError::DuplicateSocketNumber(n))
            ==> n == socket_number(new.socket_mode) && socket_number(configured.socket_mode) == n
                && configured.network.mac.0@ != new.network.mac.0@
                && configured.network.ip.spec_octets() != new.network.ip.spec_octets()
                && tcp_port(configured.socket_mode) != tcp_port(new.socket_mode),
        configured.network.mac.0@ == new.network.mac.0@
            ==> network_conflict(Peripheral::W5500(configured), Peripheral::W5500(new))
                == Some(ConfigError::DuplicateMacAddress(new.network.mac)),
        configured.network.mac.0@ != new.network.mac.0@
            && configured.network.ip.spec_octets() == new.network.ip.spec_octets()
            ==> network_conflict(Peripheral::W5500(configured), Peripheral::W5500(new))
                == Some(ConfigError::DuplicateIpAddress(new.network.ip)),
        configured.network.mac.0@ != new.network.mac.0@
            && configured.network.ip.spec_octets() != new.network.ip.spec_octets()
            && tcp_port(configured.socket_mode) == tcp_port(new.socket_mode)
            ==> network_conflict(Peripheral::W5500(configured), Peripheral::W5500(new))
                == Some(ConfigError::DuplicateTcpPort(tcp_port(new.socket_mode))),
        configured.network.mac.0@ != new.network.mac.0@
            && configured.network.ip.spec_octets() != new.network.ip.spec_octets()
            && tcp_port(configured.socket_mode) != tcp_port(new.socket_mode)
            && socket_number(configured.socket_mode) == socket_number(new.socket_mode)
            ==> network_conflict(Peripheral::W5500(configured), Peripheral::W5500(new))
                == Some(ConfigError::DuplicateSocketNumber(socket_number(new.socket_mode))),
{
}

} // verus!
