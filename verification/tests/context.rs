use stm32_generator::board::{TargetBoard, TargetBoardId};
use stm32_generator::config::{Config, PinConfig, SpiConfig, SpiMode};
use stm32_generator::generator::context::{PinCtx, TemplateContext};
use stm32_generator::gpio::f1::f103::{StmF103Pin, StmF103SpiBus};
use stm32_generator::gpio::f1::StmF1PinMode;
use stm32_generator::gpio::f4::f401::{StmF401Pin, StmF401SpiBus};
use stm32_generator::gpio::{ChosenPin, ChosenPinWithMode, ChosenSpiBus, TargetMcu};
use stm32_generator::peripherals::ethernet::w5500::{NetworkConfig, SocketMode, W5500Config};
use stm32_generator::peripherals::ethernet::{Ipv4Addr, MacAddr};
use stm32_generator::peripherals::Peripheral;

#[test]
fn empty_f103_config_uses_selected_board_metadata() {
    let board = TargetBoard::try_new(TargetBoardId::BluePill, TargetMcu::StmF103).unwrap();
    let config = Config::new(board);

    let context = TemplateContext::from_config(&config, "blue_pill".to_string())
        .expect("board metadata should be enough to build an empty context");

    assert_eq!(context.mcu_family, "stm32f1");
    assert_eq!(context.hal_version, "0.11.0");
    assert_eq!(context.hal_feature, "stm32f103");
    assert_eq!(context.target, "thumbv7m-none-eabi");
    assert_eq!(context.chip, "STM32F103C8T6");
    assert_eq!(context.flash_origin, "0x08000000");
    assert_eq!(context.flash_length, "64K");
    assert_eq!(context.ram_origin, "0x20000000");
    assert_eq!(context.ram_length, "20K");
    assert!(context.used_ports.is_empty());
}

#[test]
fn empty_f401_config_uses_selected_board_metadata() {
    let board = TargetBoard::try_new(TargetBoardId::BlackPill, TargetMcu::StmF401).unwrap();
    let config = Config::new(board);

    let context = TemplateContext::from_config(&config, "black_pill".to_string())
        .expect("board metadata should be enough to build an empty context");

    assert_eq!(context.mcu_family, "stm32f4");
    assert_eq!(context.hal_version, "0.23.0");
    assert_eq!(context.hal_feature, "stm32f401");
    assert_eq!(context.target, "thumbv7em-none-eabi");
    assert_eq!(context.chip, "STM32F401CCU6");
    assert_eq!(context.flash_length, "256K");
    assert_eq!(context.ram_length, "64K");
}

#[test]
fn pin_ctx_takes_pin_names_apart() {
    let low = PinCtx::new(&ChosenPin::StmF103(StmF103Pin::A5));
    assert_eq!(low.port, "a");
    assert_eq!(low.pin_num, "5");
    assert_eq!(low.cr_reg, "crl");
    assert_eq!(low.hal_pin_type, "gpio::gpioa::PA5");

    let high = PinCtx::new(&ChosenPin::StmF401(StmF401Pin::B13));
    assert_eq!(high.port, "b");
    assert_eq!(high.pin_num, "13");
    assert_eq!(high.cr_reg, "crh");
    assert_eq!(high.hal_pin_type, "gpio::gpiob::PB13");

    let edge = PinCtx::new(&ChosenPin::StmF103(StmF103Pin::B8));
    assert_eq!(edge.cr_reg, "crh");
    let edge = PinCtx::new(&ChosenPin::StmF103(StmF103Pin::B7));
    assert_eq!(edge.cr_reg, "crl");
}

fn blue_pill_with_spi(miso: Option<StmF103Pin>, mosi: Option<StmF103Pin>) -> Config {
    let board = TargetBoard::try_new(TargetBoardId::BluePill, TargetMcu::StmF103).unwrap();
    let mut config = Config::new(board);
    config
        .add_spi_bus(SpiConfig {
            bus: ChosenSpiBus::StmF103(StmF103SpiBus::SPI1),
            frequency_mhz: 2,
            mode: SpiMode::Mode0,
            sck: ChosenPin::StmF103(StmF103Pin::A5),
            miso: miso.map(ChosenPin::StmF103),
            mosi: mosi.map(ChosenPin::StmF103),
        })
        .unwrap();
    config
}

#[test]
fn spi_context_lists_pin_tuples() {
    let config = blue_pill_with_spi(Some(StmF103Pin::A6), Some(StmF103Pin::A7));
    let context = TemplateContext::from_config(&config, "blue_pill_spi".to_string()).unwrap();
    let spi = &context.spis[0];
    assert_eq!(spi.bus_name, "spi1");
    assert_eq!(spi.pac_bus, "SPI1");
    assert_eq!(spi.polarity, "IdleLow");
    assert_eq!(spi.phase, "CaptureOnFirstTransition");
    assert_eq!(spi.frequency_mhz, 2);
    assert_eq!(spi.pins_tuple, "Some(sck_spi1), Some(miso_spi1), Some(mosi_spi1)");
    assert_eq!(spi.f1_pins_tuple, "Some(sck_spi1), Some(miso_spi1), Some(mosi_spi1)");
    assert_eq!(spi.sck.hal_pin_type, "gpio::gpioa::PA5");
    assert_eq!(spi.miso.as_ref().unwrap().pin_num, "6");
    assert_eq!(context.used_ports, vec!["a".to_string()]);
}

#[test]
fn spi_context_names_types_of_missing_f1_pins() {
    let config = blue_pill_with_spi(None, Some(StmF103Pin::A7));
    let context = TemplateContext::from_config(&config, "p".to_string()).unwrap();
    let spi = &context.spis[0];
    assert!(spi.miso.is_none());
    assert_eq!(spi.pins_tuple, "Some(sck_spi1), None, Some(mosi_spi1)");
    assert_eq!(
        spi.f1_pins_tuple,
        "Some(sck_spi1), None::<stm32f1xx_hal::gpio::gpioa::PA6>, Some(mosi_spi1)"
    );
}

#[test]
fn context_lists_gpio_pins_ports_and_peripherals() {
    let mut config = blue_pill_with_spi(Some(StmF103Pin::A6), Some(StmF103Pin::A7));
    config
        .add_gpio_pin(PinConfig {
            pin: ChosenPinWithMode::StmF103(StmF103Pin::C13, StmF1PinMode::default()),
            label: Some("led".to_string()),
        })
        .unwrap();
    config
        .add_peripheral(Peripheral::W5500(W5500Config {
            spi_bus: ChosenSpiBus::StmF103(StmF103SpiBus::SPI1),
            cs: ChosenPin::StmF103(StmF103Pin::B4),
            rst: ChosenPin::StmF103(StmF103Pin::A3),
            network: NetworkConfig {
                mac: MacAddr([0x02, 0x00, 0x00, 11, 22, 33]),
                ip: Ipv4Addr::new(192, 168, 1, 50),
                subnet: Ipv4Addr::new(255, 255, 255, 0),
                gateway: Ipv4Addr::new(192, 168, 1, 1),
            },
            socket_mode: SocketMode::TcpServer { port: 8080, socket_num: 0 },
        }))
        .unwrap();
    let context = TemplateContext::from_config(&config, "demo".to_string()).unwrap();
    assert_eq!(context.project_name, "demo");
    assert_eq!(context.used_ports, vec!["a".to_string(), "b".to_string(), "c".to_string()]);

    let gpio = &context.gpio_pins[0];
    assert_eq!(gpio.label, "led");
    assert_eq!(gpio.port, "c");
    assert_eq!(gpio.pin_num, "13");
    assert_eq!(gpio.cr_reg, "crh");
    assert_eq!(gpio.method, "into_pull_up_input");
    assert!(!gpio.is_output);
    assert_eq!(gpio.speed, None);

    assert!(context.features.uses_w5500);
    assert!(context.features.uses_w5500_tcp);
    assert!(context.features.uses_embedded_hal_bus);
    let peripheral = &context.peripherals[0];
    assert_eq!(peripheral.id, 0);
    assert_eq!(peripheral.kind, "w5500");
    let w5500 = peripheral.w5500.as_ref().unwrap();
    assert_eq!(w5500.spi_bus, "spi1");
    assert_eq!(w5500.cs.hal_pin_type, "gpio::gpiob::PB4");
    assert_eq!(w5500.rst.cr_reg, "crl");
    assert_eq!(w5500.mac, [0x02, 0x00, 0x00, 11, 22, 33]);
    assert_eq!(w5500.ip, [192, 168, 1, 50]);
    assert_eq!(w5500.subnet, [255, 255, 255, 0]);
    assert_eq!(w5500.gateway, [192, 168, 1, 1]);
    let tcp = w5500.socket_mode.tcp_server.unwrap();
    assert_eq!((tcp.port, tcp.socket_num), (8080, 0));
}

#[test]
fn context_without_peripherals_needs_no_features() {
    let board = TargetBoard::try_new(TargetBoardId::BlackPill, TargetMcu::StmF401).unwrap();
    let mut config = Config::new(board);
    config
        .add_spi_bus(SpiConfig {
            bus: ChosenSpiBus::StmF401(StmF401SpiBus::SPI2),
            frequency_mhz: 8,
            mode: SpiMode::Mode3,
            sck: ChosenPin::StmF401(StmF401Pin::B13),
            miso: Some(ChosenPin::StmF401(StmF401Pin::B14)),
            mosi: Some(ChosenPin::StmF401(StmF401Pin::B15)),
        })
        .unwrap();
    let context = TemplateContext::from_config(&config, "x".to_string()).unwrap();
    assert!(!context.features.uses_w5500);
    assert!(!context.features.uses_w5500_tcp);
    assert!(!context.features.uses_embedded_hal_bus);
    assert!(context.peripherals.is_empty());
    assert_eq!(context.used_ports, vec!["b".to_string()]);
    assert_eq!(context.spis[0].polarity, "IdleHigh");
    assert_eq!(context.spis[0].phase, "CaptureOnSecondTransition");
}
