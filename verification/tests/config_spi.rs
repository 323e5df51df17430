use stm32_generator::config::{SpiConfig, SpiMode};
use stm32_generator::errors::ConfigError;
use stm32_generator::gpio::f4::f401::{StmF401Pin, StmF401SpiBus};
use stm32_generator::gpio::{ChosenPin, ChosenSpiBus};

#[test]
fn new_accepts_distinct_pins() {
    let result = SpiConfig::new(
        ChosenSpiBus::StmF401(StmF401SpiBus::SPI1),
        10,
        SpiMode::Mode0,
        ChosenPin::StmF401(StmF401Pin::A5),
        Some(ChosenPin::StmF401(StmF401Pin::A6)),
        Some(ChosenPin::StmF401(StmF401Pin::A7)),
    );

    assert_eq!(
        result,
        Ok(SpiConfig {
            bus: ChosenSpiBus::StmF401(StmF401SpiBus::SPI1),
            frequency_mhz: 10,
            mode: SpiMode::Mode0,
            sck: ChosenPin::StmF401(StmF401Pin::A5),
            miso: Some(ChosenPin::StmF401(StmF401Pin::A6)),
            mosi: Some(ChosenPin::StmF401(StmF401Pin::A7)),
        })
    );
}

#[test]
fn new_rejects_miso_equal_to_sck() {
    let duplicated_pin = ChosenPin::StmF401(StmF401Pin::A5);

    let result = SpiConfig::new(
        ChosenSpiBus::StmF401(StmF401SpiBus::SPI1),
        10,
        SpiMode::Mode0,
        duplicated_pin,
        Some(duplicated_pin),
        None,
    );

    assert_eq!(result, Err(ConfigError::PinAlreadyInUse(duplicated_pin)));
}

#[test]
fn new_rejects_mosi_equal_to_sck() {
    let duplicated_pin = {
        let pin = StmF401Pin::A5;
        ChosenPin::StmF401(pin)
    };

    let result = SpiConfig::new(
        ChosenSpiBus::StmF401(StmF401SpiBus::SPI1),
        10,
        SpiMode::Mode0,
        duplicated_pin,
        None,
        Some(duplicated_pin),
    );

    assert_eq!(result, Err(ConfigError::PinAlreadyInUse(duplicated_pin)));
}

#[test]
fn new_rejects_mosi_equal_to_miso() {
    let duplicated_pin = {
        let pin = StmF401Pin::A6;
        ChosenPin::StmF401(pin)
    };

    let result = SpiConfig::new(
        ChosenSpiBus::StmF401(StmF401SpiBus::SPI1),
        10,
        SpiMode::Mode0,
        ChosenPin::StmF401(StmF401Pin::A5),
        Some(duplicated_pin),
        Some(duplicated_pin),
    );

    assert_eq!(result, Err(ConfigError::PinAlreadyInUse(duplicated_pin)));
}

#[test]
fn uses_pins_returns_all_configured_pins_in_bus_order() {
    let config = SpiConfig::new(
        ChosenSpiBus::StmF401(StmF401SpiBus::SPI1),
        10,
        SpiMode::Mode0,
        ChosenPin::StmF401(StmF401Pin::A5),
        Some(ChosenPin::StmF401(StmF401Pin::A6)),
        Some(ChosenPin::StmF401(StmF401Pin::A7)),
    )
    .expect("distinct SPI pins should produce a valid config");

    assert_eq!(
        config.uses_pins(),
        vec![
            ChosenPin::StmF401(StmF401Pin::A5),
            ChosenPin::StmF401(StmF401Pin::A6),
            ChosenPin::StmF401(StmF401Pin::A7),
        ]
    );
}

#[test]
fn uses_pins_skips_missing_pins() {
    let config = SpiConfig::new(
        ChosenSpiBus::StmF401(StmF401SpiBus::SPI1),
        10,
        SpiMode::Mode3,
        ChosenPin::StmF401(StmF401Pin::A5),
        None,
        Some(ChosenPin::StmF401(StmF401Pin::A7)),
    )
    .unwrap();
    assert_eq!(
        config.uses_pins(),
        vec![ChosenPin::StmF401(StmF401Pin::A5), ChosenPin::StmF401(StmF401Pin::A7)]
    );
}

#[test]
fn spi_mode_indices_labels_and_template_names() {
    assert_eq!(SpiMode::default(), SpiMode::Mode0);
    assert_eq!(SpiMode::from_index(2), Some(SpiMode::Mode2));
    assert_eq!(SpiMode::from_index(4), None);
    assert_eq!(SpiMode::Mode3.index(), 3);
    assert_eq!(SpiMode::all().len(), 4);
    assert_eq!(SpiMode::labels().len(), 4);
    assert_eq!(SpiMode::Mode0.template_vars(), ("IdleLow", "CaptureOnFirstTransition"));
    assert_eq!(SpiMode::Mode1.template_vars(), ("IdleLow", "CaptureOnSecondTransition"));
    assert_eq!(SpiMode::Mode2.template_vars(), ("IdleHigh", "CaptureOnFirstTransition"));
    assert_eq!(SpiMode::Mode3.template_vars(), ("IdleHigh", "CaptureOnSecondTransition"));
    for i in 0..4 {
        assert_eq!(SpiMode::from_index(i).unwrap().index(), i);
    }
}
