use stm32_generator::gpio::f1::f103::{StmF103Pin, StmF103SpiBus};
use stm32_generator::gpio::f1::{StmF1InputMode, StmF1OutputMode, StmF1OutputSpeed, StmF1PinMode};
use stm32_generator::gpio::f4::f401::{StmF401Pin, StmF401SpiBus};
use stm32_generator::gpio::f4::{StmF4InputMode, StmF4OutputMode, StmF4OutputSpeed, StmF4PinMode};
use stm32_generator::gpio::{ChosenPin, ChosenPinWithMode, ChosenSpiBus, PinModeUiInfo, TargetMcu};

#[test]
fn f103_all_pins_matches_lqfp48_gpio_universe() {
    let actual = TargetMcu::StmF103
        .all_pins()
        .into_iter()
        .map(|pin| pin.variant_name().to_string())
        .collect::<Vec<_>>();
    let expected = [
        "A0", "A1", "A2", "A3", "A4", "A5", "A6", "A7", "A8", "A9", "A10", "A11", "A12", "A13",
        "A14", "A15", "B0", "B1", "B2", "B3", "B4", "B5", "B6", "B7", "B8", "B9", "B10", "B11",
        "B12", "B13", "B14", "B15", "C13", "C14", "C15", "D0", "D1",
    ]
    .map(str::to_string)
    .to_vec();

    assert_eq!(actual, expected);
}

#[test]
fn spi1_uses_default_pins() {
    let mapping = StmF103SpiBus::SPI1.spi_mappings();

    assert_eq!(mapping.len(), 1);
    assert_eq!(mapping[0].bus, ChosenSpiBus::StmF103(StmF103SpiBus::SPI1));
    assert_eq!(mapping[0].sck, ChosenPin::StmF103(StmF103Pin::A5));
    assert_eq!(mapping[0].miso, ChosenPin::StmF103(StmF103Pin::A6));
    assert_eq!(mapping[0].mosi, ChosenPin::StmF103(StmF103Pin::A7));
}

#[test]
fn spi2_uses_default_pins() {
    let mapping = StmF103SpiBus::SPI2.spi_mappings();

    assert_eq!(mapping.len(), 1);
    assert_eq!(mapping[0].sck, ChosenPin::StmF103(StmF103Pin::B13));
    assert_eq!(mapping[0].miso, ChosenPin::StmF103(StmF103Pin::B14));
    assert_eq!(mapping[0].mosi, ChosenPin::StmF103(StmF103Pin::B15));
}

#[test]
fn default_mode_is_pull_up_input() {
    let mode = StmF1PinMode::default();

    assert_eq!(mode.current_mode_index(), 0);
    assert_eq!(mode.mode_variants(), vec!["Input", "Output"]);
    assert_eq!(mode, StmF1PinMode::Input(StmF1InputMode::PullUp));
}

#[test]
fn output_mode_exposes_type_and_f1_speed_properties() {
    let mut mode = StmF1PinMode::default();
    mode.set_mode_index(1);

    assert_eq!(
        mode,
        StmF1PinMode::Output(StmF1OutputMode::PushPull, StmF1OutputSpeed::Mhz2)
    );
    assert_eq!(mode.properties()[0].0, "Тип выхода");
    assert_eq!(mode.properties()[1].0, "Скорость");

    mode.set_property(0, 1);
    mode.set_property(1, 2);

    assert_eq!(
        mode,
        StmF1PinMode::Output(StmF1OutputMode::OpenDrain, StmF1OutputSpeed::Mhz50)
    );
}

#[test]
fn f4_mode_switches_and_ignores_unknown_indices() {
    let mut mode = StmF4PinMode::default();
    assert_eq!(mode, StmF4PinMode::Input(StmF4InputMode::PullUp));
    assert_eq!(mode.mode_variants(), vec!["Input", "Onput"]);
    mode.set_mode_index(7);
    assert_eq!(mode, StmF4PinMode::Input(StmF4InputMode::PullUp));
    mode.set_property(0, 0);
    assert_eq!(mode, StmF4PinMode::Input(StmF4InputMode::Floating));
    mode.set_mode_index(1);
    assert_eq!(mode, StmF4PinMode::Output(StmF4OutputMode::PushPull, StmF4OutputSpeed::Low));
    assert_eq!(mode.current_mode_index(), 1);
    mode.set_property(1, 3);
    mode.set_property(5, 0);
    assert_eq!(mode, StmF4PinMode::Output(StmF4OutputMode::PushPull, StmF4OutputSpeed::VeryHigh));
    assert_eq!(mode.template_vars(), ("into_push_pull_output", true, Some("VeryHigh")));
    let props = mode.properties();
    assert_eq!(props.len(), 2);
    assert_eq!(props[1].2, 3);
    mode.set_mode_index(0);
    assert_eq!(mode.current_mode_index(), 0);
}

#[test]
fn chosen_pin_facts_follow_the_mcu() {
    let f1 = ChosenPin::StmF103(StmF103Pin::C13);
    assert_eq!(f1.variant_name(), "C13");
    assert_eq!(f1.mcu_family(), "stm32f1");
    assert_eq!(f1.hal_version(), "0.11.0");
    assert_eq!(f1.hal_feature(), "stm32f103");
    assert_eq!(
        f1.default_mode(),
        ChosenPinWithMode::StmF103(StmF103Pin::C13, StmF1PinMode::Input(StmF1InputMode::PullUp))
    );
    let f4 = ChosenPin::StmF401(StmF401Pin::B10);
    assert_eq!(f4.variant_name(), "B10");
    assert_eq!(f4.mcu_family(), "stm32f4");
    assert_eq!(ChosenSpiBus::StmF401(StmF401SpiBus::SPI3).variant_name(), "SPI3");
}

#[test]
fn f401_buses_have_only_sound_mappings() {
    for bus in TargetMcu::StmF401.all_spi_buses() {
        let mappings = bus.spi_mappings();
        assert!(!mappings.is_empty());
        for m in mappings {
            assert_eq!(m.bus, bus);
            assert_ne!(m.sck, m.miso);
            assert_ne!(m.sck, m.mosi);
            assert_ne!(m.miso, m.mosi);
        }
    }
    let spi1 = StmF401SpiBus::SPI1.spi_mappings();
    assert_eq!(spi1[0].sck, ChosenPin::StmF401(StmF401Pin::A5));
    assert_eq!(spi1[0].miso, ChosenPin::StmF401(StmF401Pin::A6));
    assert_eq!(spi1[0].mosi, ChosenPin::StmF401(StmF401Pin::A7));
}

#[test]
fn mcu_facts() {
    assert_eq!(TargetMcu::StmF401.chip(), "STM32F401CCU6");
    assert_eq!(TargetMcu::StmF103.target(), "thumbv7m-none-eabi");
    assert_eq!(TargetMcu::StmF401.flash_origin(), "0x08000000");
    assert_eq!(TargetMcu::StmF401.ram_origin(), "0x20000000");
    assert_eq!(TargetMcu::StmF103.debug_name(), "StmF103");
    assert_eq!(TargetMcu::StmF103.all_spi_buses().len(), 2);
    assert_eq!(TargetMcu::StmF401.all_pins().len(), 42);
}
