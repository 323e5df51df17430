//! The lines that describe configured buses and peripherals in lists.

use vstd::prelude::*;
use crate::config::{PeripheralId, SpiConfig};
use crate::peripherals::Peripheral;
use crate::peripherals::ethernet::w5500::SocketMode;
use crate::peripherals::ethernet::{ipv4_text, mac_text};
use crate::text::{decimal, push_number};

verus! {

/// The title of a configured peripheral: `W5500 #0`.
pub open spec fn peripheral_title_text(id: PeripheralId, peripheral: Peripheral) -> Seq<char> {
    match peripheral {
        Peripheral::W5500(_) => "W5500 #"@ + decimal(id.spec_get() as nat),
    }
}

/// The description of a configured peripheral: its bus, control pins,
/// network and socket.
pub open spec fn peripheral_subtitle_text(peripheral: Peripheral) -> Seq<char> {
    match peripheral {
        Peripheral::W5500(w) => {
            let socket = match w.socket_mode {
                SocketMode::TcpServer { port, socket_num } => "TCP server, port "@ + decimal(port as nat)
                    + ", socket "@ + decimal(socket_num as nat),
            };
            "SPI "@ + w.spi_bus.spec_name() + ", CS "@ + w.cs.spec_name() + ", RST "@ + w.rst.spec_name()
                + "; MAC "@ + mac_text(w.network.mac.0@) + ", IP "@ + ipv4_text(w.network.ip.spec_octets())
                + "; "@ + socket
        },
    }
}

/// The name of an optional line, or that it is not used.
pub open spec fn line_text(pin: Option<crate::gpio::ChosenPin>) -> Seq<char> {
    match pin {
        Some(p) => p.spec_name(),
        None => "не используется"@,
    }
}

/// The description of a configured SPI bus: frequency, mode and pins.
pub open spec fn spi_bus_subtitle_text(spi: SpiConfig) -> Seq<char> {
    decimal(spi.frequency_mhz as nat) + " МГц, "@ + spi.mode.spec_label() + "; SCK "@ + spi.sck.spec_name()
        + ", MISO "@ + line_text(spi.miso) + ", MOSI "@ + line_text(spi.mosi)
}

/// Returns the title of a configured peripheral.
pub fn peripheral_title(id: PeripheralId, peripheral: &Peripheral) -> (title: String)
    ensures
        title@ == peripheral_title_text(id, *peripheral),
{
    match peripheral {
        Peripheral::W5500(_) => {
            let mut title = String::from_str("W5500 #");
            push_number(&mut title, id.get());
            title
        },
    }
}

/// Returns the description of a configured peripheral.
pub fn peripheral_subtitle(peripheral: &Peripheral) -> (subtitle: String)
    ensures
        subtitle@ == peripheral_subtitle_text(*peripheral),
{
    match peripheral {
        Peripheral::W5500(w) => {
            let mut text = String::from_str("SPI ");
            text.append(w.spi_bus.variant_name());
            text.append(", CS ");
            text.append(w.cs.variant_name());
            text.append(", RST ");
            text.append(w.rst.variant_name());
            text.append("; MAC ");
            let mac = w.network.mac.to_string();
            text.append(mac.as_str());
            text.append(", IP ");
            let ip = w.network.ip.to_string();
            text.append(ip.as_str());
            text.append("; ");
            match w.socket_mode {
                SocketMode::TcpServer { port, socket_num } => {
                    text.append("TCP server, port ");
                    push_number(&mut text, port as u64);
                    text.append(", socket ");
                    push_number(&mut text, socket_num as u64);
                },
            }
            proof {
                assert(text@ =~= peripheral_subtitle_text(*peripheral));
            }
            text
        },
    }
}

/// Appends the name of an optional line, or that it is not used.
fn push_line(text: &mut String, pin: Option<crate::gpio::ChosenPin>)
    ensures
        final(text)@ == old(text)@ + line_text(pin),
{
    match pin {
        Some(p) => text.append(p.variant_name()),
        None => text.append("не используется"),
    }
}

/// Returns the description of a configured SPI bus.
pub fn spi_bus_subtitle(spi: &SpiConfig) -> (subtitle: String)
    ensures
        subtitle@ == spi_bus_subtitle_text(*spi),
{
    let mut text = String::new();
    push_number(&mut text, spi.frequency_mhz as u64);
    text.append(" МГц, ");
    text.append(spi.mode.label());
    text.append("; SCK ");
    text.append(spi.sck.variant_name());
    text.append(", MISO ");
    push_line(&mut text, spi.miso);
    text.append(", MOSI ");
    push_line(&mut text, spi.mosi);
    proof {
        assert(text@ =~= spi_bus_subtitle_text(*spi));
    }
    text
}

} // verus!
