use stm32_generator::board::{Pin, PinType, TargetBoard, TargetBoardId};
use stm32_generator::config::{Config, PinConfig, PeripheralId, SpiConfig, SpiMode};
use stm32_generator::errors::{ConfigError, TargetBoardError};
use stm32_generator::forms::pages::{
    add_bus, add_w5500, apply_pin_config, find_gpio_config, free_board_pins, peripheral_page_options,
    pin_locked_by_non_gpio, remove_bus, remove_peripheral, spi_page_options,
};
use stm32_generator::forms::pin_mode::{PinMode, PinModeForm, PinModeFormInput};
use stm32_generator::forms::rows::{peripheral_subtitle, peripheral_title, spi_bus_subtitle};
use stm32_generator::forms::spi::{SpiForm, SpiFormInput};
use stm32_generator::forms::w5500::{parse_ipv4, parse_mac, parse_port, parse_socket_num, W5500Form, W5500FormInput};
use stm32_generator::forms::{clamp_index, default_distinct_pin_index, mode_from_index, Choice};
use stm32_generator::gpio::f1::f103::{StmF103Pin, StmF103SpiBus};
use stm32_generator::gpio::f1::{StmF1InputMode, StmF1OutputMode, StmF1OutputSpeed, StmF1PinMode};
use stm32_generator::gpio::f4::f401::{StmF401Pin, StmF401SpiBus};
use stm32_generator::gpio::{ChosenPin, ChosenPinWithMode, ChosenSpiBus, TargetMcu};
use stm32_generator::peripherals::ethernet::w5500::{NetworkConfig, SocketMode, W5500Config};
use stm32_generator::peripherals::ethernet::{Ipv4Addr, MacAddr};
use stm32_generator::peripherals::Peripheral;

#[test]
fn mac_parses_colons_dashes_and_whitespace() {
    assert_eq!(parse_mac("02:00:00:0B:16:21"), Ok(MacAddr([2, 0, 0, 0x0b, 0x16, 0x21])));
    assert_eq!(parse_mac("  aa-bb-cc-dd-ee-ff\t"), Ok(MacAddr([0xaa, 0xbb, 0xcc, 0xdd, 0xee, 0xff])));
    assert_eq!(parse_mac("1:2:3:4:5:6"), Ok(MacAddr([1, 2, 3, 4, 5, 6])));
    assert_eq!(parse_mac("+1:2:3:4:5:6"), Ok(MacAddr([1, 2, 3, 4, 5, 6])));
    assert_eq!(parse_mac("01:02:03-04:05:06"), Ok(MacAddr([1, 2, 3, 4, 5, 6])));
}

#[test]
fn mac_refuses_wrong_shapes_and_digits() {
    let shape = Err("MAC должен состоять из 6 hex-байтов".to_string());
    let hex = Err("MAC должен состоять из hex-байтов".to_string());
    assert_eq!(parse_mac("02:00:00:0B:16"), shape);
    assert_eq!(parse_mac("02:00:00:0B:16:21:33"), shape);
    assert_eq!(parse_mac("02:00::0B:16:21"), shape);
    assert_eq!(parse_mac("02:000:00:0B:16:21"), shape);
    assert_eq!(parse_mac("02:00:00:0B:16:2G"), hex);
    assert_eq!(parse_mac("02:+:00:0B:16:21"), hex);
    assert_eq!(parse_mac("02:é:00:0B:16:21"), hex);
    assert_eq!(parse_mac("02:ж1:00:0B:16:21"), shape);
    assert_eq!(parse_mac(""), shape);
}

#[test]
fn mac_printed_text_parses_back() {
    let mac = MacAddr([0x02, 0xab, 0x00, 0x0b, 0xff, 0x21]);
    assert_eq!(parse_mac(&mac.to_string()), Ok(mac));
}

#[test]
fn ipv4_follows_the_standard_grammar() {
    assert_eq!(parse_ipv4("IP", "192.168.1.50").unwrap().octets(), [192, 168, 1, 50]);
    assert_eq!(parse_ipv4("IP", " 10.0.0.1 \n").unwrap().octets(), [10, 0, 0, 1]);
    assert_eq!(parse_ipv4("IP", "0.0.0.0").unwrap().octets(), [0, 0, 0, 0]);
    assert_eq!(parse_ipv4("IP", "255.255.255.255").unwrap().octets(), [255, 255, 255, 255]);
    for bad in ["256.1.1.1", "01.2.3.4", "1.2.3", "1.2.3.4.5", "1..2.3", "+1.2.3.4", "1.2.3.4.", "a.b.c.d", "1234.1.1.1", ""] {
        assert_eq!(parse_ipv4("Gateway", bad), Err("Gateway должен быть IPv4-адресом".to_string()), "{bad}");
    }
    let ip = Ipv4Addr::new(172, 16, 0, 9);
    assert!(parse_ipv4("IP", &ip.to_string()).unwrap().same_as(&ip));
}

#[test]
fn port_and_socket_ranges() {
    let port_err = Err("TCP-порт должен быть числом 1..=65535".to_string());
    assert_eq!(parse_port("8080"), Ok(8080));
    assert_eq!(parse_port(" +80 "), Ok(80));
    assert_eq!(parse_port("65535"), Ok(65535));
    assert_eq!(parse_port("0"), port_err);
    assert_eq!(parse_port("65536"), port_err);
    assert_eq!(parse_port("-1"), port_err);
    assert_eq!(parse_port("+"), port_err);
    assert_eq!(parse_port(""), port_err);
    let socket_err = Err("Socket должен быть числом 0..=7".to_string());
    assert_eq!(parse_socket_num("0"), Ok(0));
    assert_eq!(parse_socket_num("007"), Ok(7));
    assert_eq!(parse_socket_num("8"), socket_err);
    assert_eq!(parse_socket_num("300"), socket_err);
}

#[test]
fn index_helpers() {
    assert_eq!(clamp_index(5, 0), 0);
    assert_eq!(clamp_index(5, 3), 2);
    assert_eq!(clamp_index(1, 3), 1);
    assert_eq!(default_distinct_pin_index(1, 2), 1);
    assert_eq!(default_distinct_pin_index(1, 1), 0);
    assert_eq!(mode_from_index(2), SpiMode::Mode2);
    assert_eq!(mode_from_index(9), SpiMode::Mode0);
    assert_eq!(mode_from_index(257), SpiMode::Mode1);
    let mut choice = Choice::new(vec![10, 20, 30]);
    assert_eq!(choice.selected(), Some(10));
    choice.reset_selected(7);
    assert_eq!(choice.selected(), Some(30));
    choice.replace_items(vec![1]);
    assert_eq!(choice.selected(), Some(1));
    choice.replace_items(Vec::new());
    assert_eq!(choice.selected(), None);
    assert!(choice.is_empty());
}

fn f401(pin: StmF401Pin) -> ChosenPin {
    ChosenPin::StmF401(pin)
}

#[test]
fn w5500_form_builds_a_configuration_or_says_why_not() {
    let mut form = W5500Form::new();
    assert_eq!(form.build_config(), Err("Сначала настройте SPI-шину для W5500".to_string()));
    let bus = ChosenSpiBus::StmF401(StmF401SpiBus::SPI1);
    assert_eq!(
        form.update(W5500FormInput::UpdateOptions { spi_buses: vec![bus], pins: vec![f401(StmF401Pin::A4)] }),
        None
    );
    assert!(!form.can_submit());
    form.update(W5500FormInput::ResetIndexes);
    assert_eq!(form.rst_pin.selected_idx, 0);
    assert_eq!(
        form.build_config(),
        Err("Пин уже используется: StmF401(A4)".to_string())
    );
    form.update(W5500FormInput::UpdateOptions {
        spi_buses: vec![bus],
        pins: vec![f401(StmF401Pin::A4), f401(StmF401Pin::A3)],
    });
    form.update(W5500FormInput::ResetIndexes);
    assert!(form.can_submit());
    let config = form.update(W5500FormInput::Submit).unwrap();
    assert_eq!(config.spi_bus, bus);
    assert_eq!(config.cs, f401(StmF401Pin::A4));
    assert_eq!(config.rst, f401(StmF401Pin::A3));
    assert_eq!(config.network.mac, MacAddr([2, 0, 0, 0x0b, 0x16, 0x21]));
    assert_eq!(config.network.ip.octets(), [192, 168, 1, 50]);
    assert_eq!(config.network.subnet.octets(), [255, 255, 255, 0]);
    assert_eq!(config.network.gateway.octets(), [192, 168, 1, 1]);
    assert_eq!(config.socket_mode, SocketMode::TcpServer { port: 8080, socket_num: 0 });
    assert_eq!(form.error, None);

    form.update(W5500FormInput::SubnetChanged("255.255.255.256".to_string()));
    assert_eq!(form.update(W5500FormInput::Submit), None);
    assert_eq!(form.error, Some("Subnet должен быть IPv4-адресом".to_string()));
    form.update(W5500FormInput::ClearError);
    assert_eq!(form.error, None);
    form.update(W5500FormInput::SubnetChanged("255.255.255.0".to_string()));
    form.update(W5500FormInput::SocketNumChanged("9".to_string()));
    assert_eq!(form.build_config(), Err("Socket должен быть числом 0..=7".to_string()));
    form.update(W5500FormInput::RstPinSelected(5));
    assert_eq!(form.build_config(), Err("Выберите RST из списка свободных пинов".to_string()));
}

#[test]
fn spi_form_offers_mappings_of_the_chosen_bus_once() {
    let mut form = SpiForm::new();
    assert!(!form.can_submit());
    let spi1 = ChosenSpiBus::StmF401(StmF401SpiBus::SPI1);
    let spi2 = ChosenSpiBus::StmF401(StmF401SpiBus::SPI2);
    let mut mappings = StmF401SpiBus::SPI1.spi_mappings();
    mappings.extend(StmF401SpiBus::SPI2.spi_mappings());
    let spi1_count = StmF401SpiBus::SPI1.spi_mappings().len();
    form.update(SpiFormInput::UpdateOptions { buses: vec![spi1, spi2], mappings: mappings.clone() });
    assert_eq!(form.mapping.items.len(), spi1_count);
    assert!(form.mapping.items.iter().all(|m| m.bus == spi1));
    assert_eq!(form.mapping_labels()[0], "A5 / A6 / A7");
    assert_eq!(form.bus_labels(), vec!["SPI1", "SPI2"]);
    assert_eq!(form.selected_mapping_sck(), "A5");

    form.update(SpiFormInput::UseMisoToggled(false));
    form.update(SpiFormInput::UseMosiToggled(false));
    assert_eq!(form.selected_mapping_miso(), "отключён");
    let sck_count = {
        let mut scks: Vec<ChosenPin> = Vec::new();
        for m in StmF401SpiBus::SPI1.spi_mappings() {
            if !scks.contains(&m.sck) {
                scks.push(m.sck);
            }
        }
        scks.len()
    };
    assert_eq!(form.mapping.items.len(), sck_count);

    form.update(SpiFormInput::BusSelected(1));
    assert!(form.mapping.items.iter().all(|m| m.bus == spi2));
    form.update(SpiFormInput::FrequencyChanged(" 8 ".to_string()));
    form.update(SpiFormInput::ModeSelected(3));
    form.update(SpiFormInput::UseMisoToggled(true));
    form.update(SpiFormInput::UseMosiToggled(true));
    let config = form.update(SpiFormInput::Submit).unwrap();
    assert_eq!(config.bus, spi2);
    assert_eq!(config.frequency_mhz, 8);
    assert_eq!(config.mode, SpiMode::Mode3);
    assert_eq!(config.sck, StmF401SpiBus::SPI2.spi_mappings()[0].sck);
    assert!(config.miso.is_some() && config.mosi.is_some());

    form.update(SpiFormInput::FrequencyChanged("0".to_string()));
    assert_eq!(form.update(SpiFormInput::Submit), None);
    assert_eq!(form.error, Some("Частота SPI должна быть положительным числом".to_string()));
    form.update(SpiFormInput::ResetAfterChange);
    assert_eq!(form.frequency, "10");
    assert_eq!(form.bus.selected_idx, 0);
    assert!(form.use_miso && form.use_mosi);
}

#[test]
fn pin_mode_form_offers_modes_of_the_pin() {
    let mut form = PinModeForm::new();
    let pin = Pin::gpio(ChosenPin::StmF103(StmF103Pin::C13));
    form.update(PinModeFormInput::SelectPin { pin, config: None });
    assert_eq!(form.mode_labels, vec!["Not Configured", "Input", "Output"]);
    assert_eq!(form.mode.selected_idx, 0);
    assert_eq!(form.selected_mode(), None);

    let configured = PinConfig {
        pin: ChosenPinWithMode::StmF103(
            StmF103Pin::C13,
            StmF1PinMode::Output(StmF1OutputMode::OpenDrain, StmF1OutputSpeed::Mhz10),
        ),
        label: Some("led".to_string()),
    };
    form.update(PinModeFormInput::SelectPin {
        pin: Pin::gpio(ChosenPin::StmF103(StmF103Pin::C13)),
        config: Some(configured.clone()),
    });
    assert_eq!(form.mode.selected_idx, 2);
    assert_eq!(form.alias, "led");
    assert_eq!(form.selected_mode(), Some(configured.pin));
    assert_eq!(
        form.mode.items[1],
        PinMode::Configured(ChosenPinWithMode::StmF103(StmF103Pin::C13, StmF1PinMode::Input(StmF1InputMode::PullUp)))
    );
    assert_eq!(form.selected_properties().len(), 2);
    form.update(PinModeFormInput::PropertyChanged(1, 2));
    assert_eq!(
        form.selected_mode(),
        Some(ChosenPinWithMode::StmF103(
            StmF103Pin::C13,
            StmF1PinMode::Output(StmF1OutputMode::OpenDrain, StmF1OutputSpeed::Mhz50)
        ))
    );
    form.update(PinModeFormInput::AliasChanged("  lamp ".to_string()));
    let applied = form.update(PinModeFormInput::Apply).unwrap();
    assert_eq!(applied.alias, Some("lamp".to_string()));
    form.update(PinModeFormInput::AliasChanged("   ".to_string()));
    form.update(PinModeFormInput::ModeSelected(0));
    let applied = form.update(PinModeFormInput::Apply).unwrap();
    assert_eq!(applied.alias, None);
    assert_eq!(applied.mode, None);

    form.update(PinModeFormInput::SelectPin { pin: Pin::power("GND"), config: None });
    assert!(form.mode.items.is_empty());
    form.update(PinModeFormInput::ClearSelection);
    assert!(form.selected_pin.is_none());
}

fn w5500(bus: ChosenSpiBus, cs: ChosenPin, rst: ChosenPin) -> W5500Config {
    W5500Config {
        spi_bus: bus,
        cs,
        rst,
        network: NetworkConfig {
            mac: MacAddr([0x02, 0x00, 0x00, 0x0b, 0x16, 0x21]),
            ip: Ipv4Addr::new(192, 168, 1, 50),
            subnet: Ipv4Addr::new(255, 255, 255, 0),
            gateway: Ipv4Addr::new(192, 168, 1, 1),
        },
        socket_mode: SocketMode::TcpServer { port: 8080, socket_num: 3 },
    }
}

#[test]
fn list_rows_describe_buses_and_peripherals() {
    let spi = SpiConfig {
        bus: ChosenSpiBus::StmF401(StmF401SpiBus::SPI1),
        frequency_mhz: 12,
        mode: SpiMode::Mode2,
        sck: f401(StmF401Pin::A5),
        miso: None,
        mosi: Some(f401(StmF401Pin::A7)),
    };
    assert_eq!(spi_bus_subtitle(&spi), "12 МГц, Mode2; SCK A5, MISO не используется, MOSI A7");
    let board = TargetBoard::try_new(TargetBoardId::BlackPill, TargetMcu::StmF401).unwrap();
    let mut config = Config::new(board);
    config.add_spi_bus(SpiConfig { miso: Some(f401(StmF401Pin::A6)), ..spi }).unwrap();
    let p = Peripheral::W5500(w5500(spi.bus, f401(StmF401Pin::A4), f401(StmF401Pin::B0)));
    let id = config.add_peripheral(p).unwrap();
    assert_eq!(peripheral_title(id, &p), "W5500 #0");
    assert_eq!(
        peripheral_subtitle(&p),
        "SPI SPI1, CS A4, RST B0; MAC 02:00:00:0B:16:21, IP 192.168.1.50; TCP server, port 8080, socket 3"
    );
}

#[test]
fn error_messages_match_the_user_texts() {
    let bus = ChosenSpiBus::StmF103(StmF103SpiBus::SPI2);
    let pin = ChosenPin::StmF103(StmF103Pin::B13);
    assert_eq!(ConfigError::DuplicateSpiBus(bus).message(), "Дублирующийся SPI: StmF103(SPI2)");
    assert_eq!(ConfigError::SpiBusInUse(bus).message(), "SPI шина используется периферией, удалите сначала её: StmF103(SPI2)");
    assert_eq!(
        ConfigError::UnsupportedSpiMapping { bus, sck: pin, miso: None, mosi: Some(pin) }.message(),
        "Недопустимая распиновка StmF103(SPI2): SCK=StmF103(B13), MISO=None, MOSI=Some(StmF103(B13))"
    );
    assert_eq!(ConfigError::LabelAlreadyInUse("led".to_string()).message(), "Название пина уже используется: led");
    assert_eq!(
        ConfigError::DuplicateMacAddress(MacAddr([1, 2, 3, 4, 5, 0xab])).message(),
        "MAC-адрес уже используется: 01:02:03:04:05:AB"
    );
    assert_eq!(
        ConfigError::DuplicateIpAddress(Ipv4Addr::new(10, 0, 0, 7)).message(),
        "IP-адрес уже используется: 10.0.0.7"
    );
    assert_eq!(ConfigError::DuplicateTcpPort(65535).message(), "TCP-порт уже используется: 65535");
    assert_eq!(ConfigError::DuplicateSocketNumber(7).message(), "Номер сокета уже используется: 7");
    assert_eq!(
        TargetBoardError::UnsupportedMcu { board: TargetBoardId::BlackPill, mcu: TargetMcu::StmF103 }.message(),
        "MCU StmF103 не поддерживается платой BlackPill"
    );
}

#[test]
fn pages_offer_free_buses_pins_and_mappings() {
    let board = TargetBoard::try_new(TargetBoardId::BluePill, TargetMcu::StmF103).unwrap();
    let mut config = Config::new(board);
    let spi1 = ChosenSpiBus::StmF103(StmF103SpiBus::SPI1);
    let spi2 = ChosenSpiBus::StmF103(StmF103SpiBus::SPI2);
    let (buses, mappings) = spi_page_options(&config);
    assert_eq!(buses, vec![spi1, spi2]);
    assert_eq!(mappings.len(), 2);
    let free_before = free_board_pins(&config);
    assert_eq!(free_before.len(), 32);

    config
        .add_gpio_pin(PinConfig {
            pin: ChosenPinWithMode::StmF103(StmF103Pin::B14, StmF1PinMode::default()),
            label: None,
        })
        .unwrap();
    let (buses, mappings) = spi_page_options(&config);
    assert_eq!(buses, vec![spi1, spi2]);
    assert_eq!(mappings.len(), 1);
    assert_eq!(mappings[0].bus, spi1);

    let spi = SpiConfig {
        bus: spi1,
        frequency_mhz: 2,
        mode: SpiMode::Mode0,
        sck: ChosenPin::StmF103(StmF103Pin::A5),
        miso: Some(ChosenPin::StmF103(StmF103Pin::A6)),
        mosi: Some(ChosenPin::StmF103(StmF103Pin::A7)),
    };
    assert_eq!(add_bus(&mut config, spi), Ok(()));
    assert_eq!(add_bus(&mut config, spi), Err("Дублирующийся SPI: StmF103(SPI1)".to_string()));
    let (buses, _) = spi_page_options(&config);
    assert_eq!(buses, vec![spi2]);
    let (peripheral_buses, pins) = peripheral_page_options(&config);
    assert_eq!(peripheral_buses, vec![spi1]);
    assert_eq!(pins.len(), 28);

    let id = add_w5500(
        &mut config,
        w5500(spi1, ChosenPin::StmF103(StmF103Pin::A4), ChosenPin::StmF103(StmF103Pin::A3)),
    )
    .unwrap();
    assert_eq!(
        remove_bus(&mut config, spi1),
        Err("Шина используется периферией. Сначала удалите связанную периферию.".to_string())
    );
    assert_eq!(remove_bus(&mut config, spi2), Err("SPI-шина SPI2 не найдена в конфигурации".to_string()));
    assert!(remove_peripheral(&mut config, id).is_ok());
    assert_eq!(remove_peripheral(&mut config, id), Err("Периферия #0 не найдена".to_string()));
    assert_eq!(remove_bus(&mut config, spi1), Ok(()));
    assert!(config.spi().is_empty());
    let _ = PeripheralId::get;
}

#[test]
fn pins_page_applies_and_locks_pins() {
    let board = TargetBoard::try_new(TargetBoardId::BluePill, TargetMcu::StmF103).unwrap();
    let mut config = Config::new(board);
    let c13 = ChosenPin::StmF103(StmF103Pin::C13);
    let mode = ChosenPinWithMode::StmF103(StmF103Pin::C13, StmF1PinMode::default());
    assert_eq!(apply_pin_config(&mut config, c13, Some(mode), Some("led".to_string())), Ok(()));
    let found = find_gpio_config(&config, &Pin::gpio(c13)).unwrap();
    assert_eq!(found.label.as_deref(), Some("led"));
    assert!(find_gpio_config(&config, &Pin::power("GND")).is_none());
    let b0 = ChosenPin::StmF103(StmF103Pin::B0);
    let b0_mode = ChosenPinWithMode::StmF103(StmF103Pin::B0, StmF1PinMode::default());
    assert_eq!(
        apply_pin_config(&mut config, b0, Some(b0_mode), Some("led".to_string())),
        Err("Название пина уже используется: led".to_string())
    );
    assert_eq!(apply_pin_config(&mut config, c13, None, None), Ok(()));
    assert!(config.gpio().is_empty());

    let spi = SpiConfig {
        bus: ChosenSpiBus::StmF103(StmF103SpiBus::SPI1),
        frequency_mhz: 2,
        mode: SpiMode::Mode0,
        sck: ChosenPin::StmF103(StmF103Pin::A5),
        miso: None,
        mosi: Some(ChosenPin::StmF103(StmF103Pin::A7)),
    };
    config.add_spi_bus(spi).unwrap();
    assert!(pin_locked_by_non_gpio(&config, &Pin::gpio(ChosenPin::StmF103(StmF103Pin::A5))));
    assert!(!pin_locked_by_non_gpio(&config, &Pin::gpio(ChosenPin::StmF103(StmF103Pin::A6))));
    assert!(!pin_locked_by_non_gpio(&config, &Pin::power("GND")));
    let a5_mode = ChosenPinWithMode::StmF103(StmF103Pin::A5, StmF1PinMode::default());
    assert_eq!(
        apply_pin_config(&mut config, ChosenPin::StmF103(StmF103Pin::A5), Some(a5_mode), None),
        Err("Пин уже используется: StmF103(A5)".to_string())
    );
    assert!(matches!(Pin::power("GND").pin_type, PinType::Power));
}
