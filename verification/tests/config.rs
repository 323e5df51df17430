use stm32_generator::board::{Pin, PinType, TargetBoard, TargetBoardId};
use stm32_generator::config::{Config, PinConfig, SpiConfig, SpiMode};
use stm32_generator::errors::ConfigError;
use stm32_generator::gpio::f4::f401::{StmF401Pin, StmF401SpiBus};
use stm32_generator::gpio::f4::StmF4PinMode;
use stm32_generator::gpio::{ChosenPin, ChosenPinWithMode, ChosenSpiBus, TargetMcu};
use stm32_generator::peripherals::ethernet::w5500::{NetworkConfig, SocketMode, W5500Config};
use stm32_generator::peripherals::ethernet::{Ipv4Addr, MacAddr};
use stm32_generator::peripherals::Peripheral;

fn config_with_spi1() -> Config {
    let board = TargetBoard::try_new(TargetBoardId::BlackPill, TargetMcu::StmF401).unwrap();
    let mut config = Config::new(board);

    config
        .add_spi_bus(SpiConfig {
            bus: ChosenSpiBus::StmF401(StmF401SpiBus::SPI1),
            frequency_mhz: 10,
            mode: SpiMode::Mode1,
            sck: ChosenPin::StmF401(StmF401Pin::A5),
            miso: Some(ChosenPin::StmF401(StmF401Pin::A6)),
            mosi: Some(ChosenPin::StmF401(StmF401Pin::A7)),
        })
        .expect("SPI1 should be added");

    config
}

fn config_with_spi1_and_spi2() -> Config {
    let mut config = config_with_spi1();

    config
        .add_spi_bus(SpiConfig {
            bus: ChosenSpiBus::StmF401(StmF401SpiBus::SPI2),
            frequency_mhz: 10,
            mode: SpiMode::Mode1,
            sck: ChosenPin::StmF401(StmF401Pin::B13),
            miso: Some(ChosenPin::StmF401(StmF401Pin::B14)),
            mosi: Some(ChosenPin::StmF401(StmF401Pin::B15)),
        })
        .expect("SPI2 should be added");

    config
}

fn w5500_config(spi_bus: ChosenSpiBus, cs: StmF401Pin, rst: StmF401Pin) -> W5500Config {
    W5500Config {
        spi_bus,
        cs: ChosenPin::StmF401(cs),
        rst: ChosenPin::StmF401(rst),
        network: NetworkConfig {
            mac: MacAddr([0x02, 0x00, 0x00, 11, 22, 33]),
            ip: Ipv4Addr::new(192, 168, 1, 50),
            subnet: Ipv4Addr::new(255, 255, 255, 0),
            gateway: Ipv4Addr::new(192, 168, 1, 1),
        },
        socket_mode: SocketMode::TcpServer {
            port: 8080,
            socket_num: 0,
        },
    }
}

#[test]
fn add_spi_rejects_invalid_mapping_from_direct_struct_construction() {
    let board = TargetBoard::try_new(TargetBoardId::BlackPill, TargetMcu::StmF401).unwrap();
    let mut config = Config::new(board);
    let spi = SpiConfig {
        bus: ChosenSpiBus::StmF401(StmF401SpiBus::SPI1),
        frequency_mhz: 10,
        mode: SpiMode::Mode0,
        sck: ChosenPin::StmF401(StmF401Pin::B13),
        miso: Some(ChosenPin::StmF401(StmF401Pin::B14)),
        mosi: Some(ChosenPin::StmF401(StmF401Pin::B15)),
    };

    assert!(matches!(
        config.add_spi_bus(spi),
        Err(ConfigError::UnsupportedSpiMapping {
            bus: ChosenSpiBus::StmF401(StmF401SpiBus::SPI1),
            ..
        })
    ));
}

#[test]
fn black_pill_does_not_expose_f401_spi4_without_board_pins() {
    let board = TargetBoard::try_new(TargetBoardId::BlackPill, TargetMcu::StmF401).unwrap();
    let config = Config::new(board);
    let available_buses = config.available_spi_buses();

    assert!(available_buses.contains(&ChosenSpiBus::StmF401(StmF401SpiBus::SPI1)));
    assert!(available_buses.contains(&ChosenSpiBus::StmF401(StmF401SpiBus::SPI2)));
    assert!(available_buses.contains(&ChosenSpiBus::StmF401(StmF401SpiBus::SPI3)));
    assert!(!available_buses.contains(&ChosenSpiBus::StmF401(StmF401SpiBus::SPI4)));
}

#[test]
fn black_pill_rejects_f401_spi4_mapping_at_config_level() {
    let board = TargetBoard::try_new(TargetBoardId::BlackPill, TargetMcu::StmF401).unwrap();
    let mut config = Config::new(board);
    let spi = SpiConfig {
        bus: ChosenSpiBus::StmF401(StmF401SpiBus::SPI4),
        frequency_mhz: 10,
        mode: SpiMode::Mode0,
        sck: ChosenPin::StmF401(StmF401Pin::E2),
        miso: Some(ChosenPin::StmF401(StmF401Pin::E5)),
        mosi: Some(ChosenPin::StmF401(StmF401Pin::E6)),
    };

    assert_eq!(
        config.add_spi_bus(spi),
        Err(ConfigError::SpiMappingUnavailableOnBoard(
            ChosenSpiBus::StmF401(StmF401SpiBus::SPI4)
        ))
    );
}

#[test]
fn add_peripheral_rejects_second_peripheral_on_same_spi_bus() {
    let mut config = config_with_spi1();

    config
        .add_peripheral({
            let spi_bus = ChosenSpiBus::StmF401(StmF401SpiBus::SPI1);
            let cs = StmF401Pin::A4;
            let rst = StmF401Pin::A3;
            Peripheral::W5500(w5500_config(spi_bus, cs, rst))
        })
        .expect("first peripheral on SPI1 should be added");

    let result = config.add_peripheral({
        let spi_bus = ChosenSpiBus::StmF401(StmF401SpiBus::SPI1);
        let cs = StmF401Pin::B0;
        let rst = StmF401Pin::B1;
        Peripheral::W5500(w5500_config(spi_bus, cs, rst))
    });

    assert!(matches!(
        result,
        Err(ConfigError::SpiBusAlreadyUsedByPeripheral(bus))
            if bus == ChosenSpiBus::StmF401(StmF401SpiBus::SPI1)
    ));
}

#[test]
fn add_peripheral_rejects_duplicate_mac_address() {
    let mut config = config_with_spi1_and_spi2();

    config
        .add_peripheral({
            let spi_bus = ChosenSpiBus::StmF401(StmF401SpiBus::SPI1);
            let cs = StmF401Pin::A4;
            let rst = StmF401Pin::A3;
            Peripheral::W5500(w5500_config(spi_bus, cs, rst))
        })
        .expect("first peripheral should be added");

    let peripheral = w5500_config(
        ChosenSpiBus::StmF401(StmF401SpiBus::SPI2),
        StmF401Pin::B12,
        StmF401Pin::B10,
    );

    let result = config.add_peripheral(Peripheral::W5500(peripheral));

    assert_eq!(
        result,
        Err(ConfigError::DuplicateMacAddress(MacAddr([
            0x02, 0x00, 0x00, 11, 22, 33,
        ])))
    );
}

#[test]
fn add_peripheral_rejects_duplicate_ip_address() {
    let mut config = config_with_spi1_and_spi2();

    config
        .add_peripheral({
            let spi_bus = ChosenSpiBus::StmF401(StmF401SpiBus::SPI1);
            let cs = StmF401Pin::A4;
            let rst = StmF401Pin::A3;
            Peripheral::W5500(w5500_config(spi_bus, cs, rst))
        })
        .expect("first peripheral should be added");

    let mut peripheral = w5500_config(
        ChosenSpiBus::StmF401(StmF401SpiBus::SPI2),
        StmF401Pin::B12,
        StmF401Pin::B10,
    );
    peripheral.network.mac = MacAddr([0x02, 0x00, 0x00, 11, 22, 34]);

    let result = config.add_peripheral(Peripheral::W5500(peripheral));

    assert_eq!(
        result,
        Err(ConfigError::DuplicateIpAddress(Ipv4Addr::new(
            192, 168, 1, 50
        )))
    );
}

#[test]
fn add_peripheral_rejects_duplicate_tcp_port() {
    let mut config = config_with_spi1_and_spi2();

    config
        .add_peripheral({
            let spi_bus = ChosenSpiBus::StmF401(StmF401SpiBus::SPI1);
            let cs = StmF401Pin::A4;
            let rst = StmF401Pin::A3;
            Peripheral::W5500(w5500_config(spi_bus, cs, rst))
        })
        .expect("first peripheral should be added");

    let mut peripheral = w5500_config(
        ChosenSpiBus::StmF401(StmF401SpiBus::SPI2),
        StmF401Pin::B12,
        StmF401Pin::B10,
    );
    peripheral.network.mac = MacAddr([0x02, 0x00, 0x00, 11, 22, 34]);
    peripheral.network.ip = Ipv4Addr::new(192, 168, 1, 51);
    peripheral.socket_mode = SocketMode::TcpServer {
        port: 8080,
        socket_num: 1,
    };

    let result = config.add_peripheral(Peripheral::W5500(peripheral));

    assert_eq!(result, Err(ConfigError::DuplicateTcpPort(8080)));
}

#[test]
fn add_peripheral_rejects_duplicate_socket_number() {
    let mut config = config_with_spi1_and_spi2();

    config
        .add_peripheral({
            let spi_bus = ChosenSpiBus::StmF401(StmF401SpiBus::SPI1);
            let cs = StmF401Pin::A4;
            let rst = StmF401Pin::A3;
            Peripheral::W5500(w5500_config(spi_bus, cs, rst))
        })
        .expect("first peripheral should be added");

    let mut peripheral = w5500_config(
        ChosenSpiBus::StmF401(StmF401SpiBus::SPI2),
        StmF401Pin::B12,
        StmF401Pin::B10,
    );
    peripheral.network.mac = MacAddr([0x02, 0x00, 0x00, 11, 22, 34]);
    peripheral.network.ip = Ipv4Addr::new(192, 168, 1, 51);
    peripheral.socket_mode = SocketMode::TcpServer {
        port: 8081,
        socket_num: 0,
    };

    let result = config.add_peripheral(Peripheral::W5500(peripheral));

    assert_eq!(result, Err(ConfigError::DuplicateSocketNumber(0)));
}

#[test]
fn add_peripheral_accepts_distinct_network_and_socket_config() {
    let mut config = config_with_spi1_and_spi2();

    config
        .add_peripheral({
            let spi_bus = ChosenSpiBus::StmF401(StmF401SpiBus::SPI1);
            let cs = StmF401Pin::A4;
            let rst = StmF401Pin::A3;
            Peripheral::W5500(w5500_config(spi_bus, cs, rst))
        })
        .expect("first peripheral should be added");

    let mut peripheral = w5500_config(
        ChosenSpiBus::StmF401(StmF401SpiBus::SPI2),
        StmF401Pin::B12,
        StmF401Pin::B10,
    );
    peripheral.network.mac = MacAddr([0x02, 0x00, 0x00, 11, 22, 34]);
    peripheral.network.ip = Ipv4Addr::new(192, 168, 1, 51);
    peripheral.socket_mode = SocketMode::TcpServer {
        port: 8081,
        socket_num: 1,
    };

    let result = config.add_peripheral(Peripheral::W5500(peripheral));

    assert!(result.is_ok());
}

fn f401_gpio(pin: StmF401Pin, label: Option<&str>) -> PinConfig {
    PinConfig {
        pin: ChosenPinWithMode::StmF401(pin, StmF4PinMode::default()),
        label: label.map(|l| l.to_string()),
    }
}

#[test]
fn add_gpio_pin_then_remove_restores_configuration() {
    let mut config = config_with_spi1();
    let before = config.all_uses_pins();
    config.add_gpio_pin(f401_gpio(StmF401Pin::C13, Some("led"))).unwrap();
    assert_eq!(config.gpio().len(), 1);
    let removed = config.remove_gpio_pin(&ChosenPin::StmF401(StmF401Pin::C13)).unwrap();
    assert_eq!(removed.label.as_deref(), Some("led"));
    assert_eq!(config.all_uses_pins(), before);
    assert!(config.gpio().is_empty());
    assert!(config.remove_gpio_pin(&ChosenPin::StmF401(StmF401Pin::C13)).is_none());
}

#[test]
fn add_gpio_pin_rejects_pin_in_use_and_repeated_label() {
    let mut config = config_with_spi1();
    assert_eq!(
        config.add_gpio_pin(f401_gpio(StmF401Pin::A5, None)),
        Err(ConfigError::PinAlreadyInUse(ChosenPin::StmF401(StmF401Pin::A5)))
    );
    config.add_gpio_pin(f401_gpio(StmF401Pin::B0, None)).unwrap();
    assert_eq!(config.gpio()[0].label(), "pb0");
    assert_eq!(
        config.add_gpio_pin(f401_gpio(StmF401Pin::B1, Some("pb0"))),
        Err(ConfigError::LabelAlreadyInUse("pb0".to_string()))
    );
    assert_eq!(config.gpio().len(), 1);
}

#[test]
fn add_spi_bus_rejects_duplicate_bus_and_used_pins() {
    let mut config = config_with_spi1();
    let again = SpiConfig {
        bus: ChosenSpiBus::StmF401(StmF401SpiBus::SPI1),
        frequency_mhz: 1,
        mode: SpiMode::Mode0,
        sck: ChosenPin::StmF401(StmF401Pin::B3),
        miso: None,
        mosi: None,
    };
    assert_eq!(
        config.add_spi_bus(again),
        Err(ConfigError::DuplicateSpiBus(ChosenSpiBus::StmF401(StmF401SpiBus::SPI1)))
    );
    config.add_gpio_pin(f401_gpio(StmF401Pin::B13, None)).unwrap();
    let spi2 = SpiConfig {
        bus: ChosenSpiBus::StmF401(StmF401SpiBus::SPI2),
        frequency_mhz: 1,
        mode: SpiMode::Mode0,
        sck: ChosenPin::StmF401(StmF401Pin::B13),
        miso: Some(ChosenPin::StmF401(StmF401Pin::B14)),
        mosi: Some(ChosenPin::StmF401(StmF401Pin::B15)),
    };
    assert_eq!(
        config.add_spi_bus(spi2),
        Err(ConfigError::PinAlreadyInUse(ChosenPin::StmF401(StmF401Pin::B13)))
    );
    assert_eq!(config.spi().len(), 1);
}

#[test]
fn remove_spi_refuses_bus_with_peripheral_and_removes_free_bus() {
    let mut config = config_with_spi1_and_spi2();
    let spi1 = ChosenSpiBus::StmF401(StmF401SpiBus::SPI1);
    let spi2 = ChosenSpiBus::StmF401(StmF401SpiBus::SPI2);
    let id = config
        .add_peripheral(Peripheral::W5500(w5500_config(spi1, StmF401Pin::A4, StmF401Pin::A3)))
        .unwrap();
    assert_eq!(id.get(), 0);
    assert_eq!(config.remove_spi(&spi1), Err(ConfigError::SpiBusInUse(spi1)));
    let removed = config.remove_spi(&spi2).unwrap().unwrap();
    assert_eq!(removed.bus, spi2);
    assert_eq!(config.remove_spi(&spi2), Ok(None));
    assert_eq!(config.spi().len(), 1);
}

#[test]
fn peripheral_add_then_remove_and_fresh_identifiers() {
    let mut config = config_with_spi1();
    let spi1 = ChosenSpiBus::StmF401(StmF401SpiBus::SPI1);
    let before = config.all_uses_pins();
    let peripheral = Peripheral::W5500(w5500_config(spi1, StmF401Pin::A4, StmF401Pin::A3));
    let first = config.add_peripheral(peripheral).unwrap();
    assert_eq!(first.get(), 0);
    assert_eq!(config.peripherals().len(), 1);
    assert_eq!(config.remove_peripheral(first), Some(peripheral));
    assert_eq!(config.all_uses_pins(), before);
    assert_eq!(config.remove_peripheral(first), None);
    let second = config.add_peripheral(peripheral).unwrap();
    assert_eq!(second.get(), 1);
}

#[test]
fn add_peripheral_rejects_missing_bus_invalid_pins_and_used_pins() {
    let mut config = config_with_spi1();
    let spi2 = ChosenSpiBus::StmF401(StmF401SpiBus::SPI2);
    let spi1 = ChosenSpiBus::StmF401(StmF401SpiBus::SPI1);
    assert_eq!(
        config.add_peripheral(Peripheral::W5500(w5500_config(spi2, StmF401Pin::A4, StmF401Pin::A3))),
        Err(ConfigError::SpiBusNotFound(spi2))
    );
    assert_eq!(
        config.add_peripheral(Peripheral::W5500(w5500_config(spi1, StmF401Pin::A4, StmF401Pin::A4))),
        Err(ConfigError::PinAlreadyInUse(ChosenPin::StmF401(StmF401Pin::A4)))
    );
    assert_eq!(
        config.add_peripheral(Peripheral::W5500(w5500_config(spi1, StmF401Pin::A5, StmF401Pin::A3))),
        Err(ConfigError::PinAlreadyInUse(ChosenPin::StmF401(StmF401Pin::A5)))
    );
    assert!(config.peripherals().is_empty());
}

#[test]
fn all_uses_pins_lists_gpio_then_spi_then_peripherals() {
    let mut config = config_with_spi1();
    let spi1 = ChosenSpiBus::StmF401(StmF401SpiBus::SPI1);
    config.add_gpio_pin(f401_gpio(StmF401Pin::C13, None)).unwrap();
    config
        .add_peripheral(Peripheral::W5500(w5500_config(spi1, StmF401Pin::A4, StmF401Pin::A3)))
        .unwrap();
    let p = |pin| ChosenPin::StmF401(pin);
    assert_eq!(
        config.all_uses_pins(),
        vec![
            p(StmF401Pin::C13),
            p(StmF401Pin::A5),
            p(StmF401Pin::A6),
            p(StmF401Pin::A7),
            p(StmF401Pin::A4),
            p(StmF401Pin::A3),
        ]
    );
    assert_eq!(config.spi_pins(), vec![p(StmF401Pin::A5), p(StmF401Pin::A6), p(StmF401Pin::A7)]);
    assert_eq!(config.peripheral_pins(), vec![p(StmF401Pin::A4), p(StmF401Pin::A3)]);
    assert_eq!(
        config.not_gpio_configured_pins(),
        vec![p(StmF401Pin::A5), p(StmF401Pin::A6), p(StmF401Pin::A7), p(StmF401Pin::A4), p(StmF401Pin::A3)]
    );
    assert_eq!(config.spi_pin_bus_name(p(StmF401Pin::A6)), Some("SPI1".to_string()));
    assert_eq!(config.spi_pin_bus_name(p(StmF401Pin::A4)), None);
}

#[test]
fn board_pins_carry_aliases_and_lock_state() {
    let mut config = config_with_spi1();
    let spi1 = ChosenSpiBus::StmF401(StmF401SpiBus::SPI1);
    config.add_gpio_pin(f401_gpio(StmF401Pin::C13, Some("led"))).unwrap();
    config.add_gpio_pin(f401_gpio(StmF401Pin::B0, None)).unwrap();
    config
        .add_peripheral(Peripheral::W5500(w5500_config(spi1, StmF401Pin::A4, StmF401Pin::A3)))
        .unwrap();
    let board_pins = vec![
        Pin::power("GND"),
        Pin::gpio(ChosenPin::StmF401(StmF401Pin::C13)),
        Pin::gpio(ChosenPin::StmF401(StmF401Pin::B0)),
        Pin::gpio(ChosenPin::StmF401(StmF401Pin::A5)),
        Pin::gpio(ChosenPin::StmF401(StmF401Pin::A4)),
        Pin::gpio(ChosenPin::StmF401(StmF401Pin::B1)),
    ];
    let pins = config.build_pins_with_aliases(&board_pins);
    let summary: Vec<(String, Option<String>, bool)> =
        pins.into_iter().map(|(pin, alias, configured)| (pin.key, alias, configured)).collect();
    assert_eq!(
        summary,
        vec![
            ("GND".to_string(), None, false),
            ("C13".to_string(), Some("led".to_string()), true),
            ("B0".to_string(), None, true),
            ("A5".to_string(), Some("SPI1".to_string()), true),
            ("A4".to_string(), Some("Peripheral".to_string()), true),
            ("B1".to_string(), None, false),
        ]
    );
    assert_eq!(
        config.not_gpio_configured_pins_keys(&board_pins),
        vec!["A5".to_string(), "A4".to_string()]
    );
    assert!(matches!(board_pins[0].pin_type, PinType::Power));
}

#[test]
fn blue_pill_exposes_its_spi_buses() {
    let board = TargetBoard::try_new(TargetBoardId::BluePill, TargetMcu::StmF103).unwrap();
    let config = Config::new(board);
    let buses = config.available_spi_buses();
    assert_eq!(buses.len(), 2);
}
