use stm32_generator::errors::ConfigError;
use stm32_generator::gpio::f4::f401::{StmF401Pin, StmF401SpiBus};
use stm32_generator::gpio::{ChosenPin, ChosenSpiBus};
use stm32_generator::peripherals::ethernet::w5500::{NetworkConfig, SocketMode, W5500Config};
use stm32_generator::peripherals::ethernet::{Ipv4Addr, MacAddr};
use stm32_generator::peripherals::{Peripheral, PeripheralKind};

fn network() -> NetworkConfig {
    NetworkConfig {
        mac: MacAddr([0x02, 0x00, 0x00, 0x0B, 0x16, 0x21]),
        ip: Ipv4Addr::new(192, 168, 1, 50),
        subnet: Ipv4Addr::new(255, 255, 255, 0),
        gateway: Ipv4Addr::new(192, 168, 1, 1),
    }
}

#[test]
fn mac_address_prints_upper_case_hex_pairs() {
    assert_eq!(MacAddr([0x02, 0x00, 0x00, 0x0B, 0x16, 0x21]).to_string(), "02:00:00:0B:16:21");
    assert_eq!(MacAddr([0xff, 0xab, 0, 1, 0x10, 0xc0]).to_string(), "FF:AB:00:01:10:C0");
    assert!(MacAddr([1, 2, 3, 4, 5, 6]).same_as(&MacAddr([1, 2, 3, 4, 5, 6])));
    assert!(!MacAddr([1, 2, 3, 4, 5, 6]).same_as(&MacAddr([1, 2, 3, 4, 5, 7])));
}

#[test]
fn ipv4_address_prints_dotted_decimal() {
    assert_eq!(Ipv4Addr::new(192, 168, 1, 50).to_string(), "192.168.1.50");
    assert_eq!(Ipv4Addr::new(0, 9, 10, 255).to_string(), "0.9.10.255");
    assert_eq!(Ipv4Addr::new(10, 0, 0, 1).octets(), [10, 0, 0, 1]);
    assert!(Ipv4Addr::new(10, 0, 0, 1).same_as(&Ipv4Addr::new(10, 0, 0, 1)));
    assert!(!Ipv4Addr::new(10, 0, 0, 1).same_as(&Ipv4Addr::new(10, 0, 1, 0)));
}

#[test]
fn w5500_new_refuses_same_cs_and_rst() {
    let bus = ChosenSpiBus::StmF401(StmF401SpiBus::SPI1);
    let pin = ChosenPin::StmF401(StmF401Pin::A4);
    let mode = SocketMode::TcpServer { port: 80, socket_num: 1 };
    assert_eq!(
        W5500Config::new(bus, pin, pin, network(), mode),
        Err(ConfigError::PinAlreadyInUse(pin))
    );
    let rst = ChosenPin::StmF401(StmF401Pin::A3);
    let config = W5500Config::new(bus, pin, rst, network(), mode).unwrap();
    assert_eq!(config.uses_pins(), vec![pin, rst]);
    assert_eq!(config.validate(), Ok(()));
    let peripheral = Peripheral::W5500(config);
    assert_eq!(peripheral.spi_bus(), bus);
    assert_eq!(peripheral.uses_pins(), vec![pin, rst]);
    assert_eq!(peripheral.validate(), Ok(()));
}

#[test]
fn peripheral_kinds_have_labels() {
    assert_eq!(PeripheralKind::all(), vec![PeripheralKind::W5500]);
    assert_eq!(PeripheralKind::labels(), vec!["W5500"]);
    assert_eq!(PeripheralKind::W5500.label(), "W5500");
}
