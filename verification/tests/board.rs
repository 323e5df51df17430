use stm32_generator::board::{Pin, PinType, TargetBoard, TargetBoardId};
use stm32_generator::errors::TargetBoardError;
use stm32_generator::gpio::f1::f103::StmF103Pin;
use stm32_generator::gpio::f4::f401::StmF401Pin;
use stm32_generator::gpio::{ChosenPin, TargetMcu};

#[test]
fn board_board_pair_is_created_for_supported_mcu() {
    let board = TargetBoard::try_new(TargetBoardId::BluePill, TargetMcu::StmF103)
        .expect("Blue Pill should support STM32F103");

    assert_eq!(board.id(), TargetBoardId::BluePill);
    assert_eq!(board.mcu(), TargetMcu::StmF103);
}

#[test]
fn board_board_pair_rejects_unsupported_mcu() {
    let error = TargetBoard::try_new(TargetBoardId::BlackPill, TargetMcu::StmF103)
        .expect_err("Black Pill must reject STM32F103 for now");

    assert_eq!(
        error,
        TargetBoardError::UnsupportedMcu {
            board: TargetBoardId::BlackPill,
            mcu: TargetMcu::StmF103,
        }
    );
}

#[test]
fn tests_board_pair_is_created_for_supported_mcu() {
    let board = TargetBoard::try_new(TargetBoardId::BluePill, TargetMcu::StmF103)
        .expect("Blue Pill should support STM32F103");

    assert_eq!(board.id(), TargetBoardId::BluePill);
    assert_eq!(board.mcu(), TargetMcu::StmF103);
}

#[test]
fn tests_board_pair_rejects_unsupported_mcu() {
    let error = TargetBoard::try_new(TargetBoardId::BlackPill, TargetMcu::StmF103)
        .expect_err("Black Pill must reject STM32F103 for now");

    assert_eq!(
        error,
        TargetBoardError::UnsupportedMcu {
            board: TargetBoardId::BlackPill,
            mcu: TargetMcu::StmF103,
        }
    );
}

#[test]
fn blue_pill_exposes_sorted_gpio_subset() {
    let board = TargetBoard::try_new(TargetBoardId::BluePill, TargetMcu::StmF103).unwrap();
    let gpio_keys = board
        .build_pins()
        .into_iter()
        .filter_map(|pin| match pin.pin_type {
            PinType::Gpio(_) => Some(pin.key),
            PinType::Power => None,
        })
        .collect::<Vec<_>>();

    assert_eq!(gpio_keys.len(), 32);
    assert_eq!(gpio_keys.first().map(String::as_str), Some("A0"));
    assert_eq!(gpio_keys.last().map(String::as_str), Some("C15"));
    assert!(!gpio_keys.iter().any(|pin| pin == "A13"));
    assert!(!gpio_keys.iter().any(|pin| pin == "A14"));
    assert!(!gpio_keys.iter().any(|pin| pin == "B2"));
}

#[test]
fn black_pill_rejects_nothing_it_carries() {
    let board = TargetBoard::try_new(TargetBoardId::BlackPill, TargetMcu::StmF401).unwrap();
    assert_eq!(board.id(), TargetBoardId::BlackPill);
    assert_eq!(board.mcu(), TargetMcu::StmF401);
    assert_eq!(TargetBoard::supported_mcus(TargetBoardId::BlackPill), vec![TargetMcu::StmF401]);
    assert_eq!(TargetBoard::supported_mcus(TargetBoardId::BluePill), vec![TargetMcu::StmF103]);
}

#[test]
fn blue_pill_rejects_f401() {
    assert_eq!(
        TargetBoard::try_new(TargetBoardId::BluePill, TargetMcu::StmF401),
        Err(TargetBoardError::UnsupportedMcu {
            board: TargetBoardId::BluePill,
            mcu: TargetMcu::StmF401,
        })
    );
}

#[test]
fn board_names_and_chip_labels() {
    let black = TargetBoard::try_new(TargetBoardId::BlackPill, TargetMcu::StmF401).unwrap();
    let blue = TargetBoard::try_new(TargetBoardId::BluePill, TargetMcu::StmF103).unwrap();
    assert_eq!(black.name(), "Black Pill (StmF401)");
    assert_eq!(blue.name(), "Blue Pill (StmF103)");
    assert_eq!(black.chip_label(), "STM32F401");
    assert_eq!(blue.chip_label(), "STM32F103");
    assert_eq!(TargetBoardId::BlackPill.label(), "Black Pill");
    assert_eq!(TargetBoardId::BluePill.label(), "Blue Pill");
}

#[test]
fn board_header_starts_and_ends_with_power_pins() {
    let board = TargetBoard::try_new(TargetBoardId::BlackPill, TargetMcu::StmF401).unwrap();
    let pins = board.build_pins();
    let gpio_count = pins.iter().filter(|p| matches!(p.pin_type, PinType::Gpio(_))).count();
    assert_eq!(pins.len(), gpio_count + 7);
    assert_eq!(pins[0].pin_type, PinType::Power);
    assert_eq!(pins[pins.len() - 1].pin_type, PinType::Power);
    assert_eq!(board.gpio_pins().len(), gpio_count);
    assert!(board.gpio_pins().contains(&ChosenPin::StmF401(StmF401Pin::A5)));
}

#[test]
fn gpio_pin_has_p_label_and_name_key() {
    let pin = Pin::gpio(ChosenPin::StmF103(StmF103Pin::B13));
    assert_eq!(pin.pin_type, PinType::Gpio(ChosenPin::StmF103(StmF103Pin::B13)));
    assert_eq!(pin.label, "PB13");
    assert_eq!(pin.key, "B13");

    let power = Pin::power("3V3");
    assert_eq!(power.pin_type, PinType::Power);
    assert_eq!(power.label, "3V3");
    assert_eq!(power.key, "3V3");
}
