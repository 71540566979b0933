use ftd2xx_embedded_hal::ledger::PIN_COUNT;
use ftd2xx_embedded_hal::{Fault, PinLedger, PinUse};

#[test]
fn purposes_are_named_as_in_diagnostics() {
    assert_eq!(PinUse::I2c.name(), "I2C");
    assert_eq!(PinUse::Spi.name(), "SPI");
    assert_eq!(PinUse::Output.name(), "GPIO");
}

#[test]
fn there_are_eight_pins() {
    assert_eq!(PIN_COUNT, 8);
}

#[test]
fn new_ledger_has_no_owner() {
    let ledger = PinLedger::new();
    for pin in 0..=255u8 {
        assert_eq!(ledger.owner(pin), None);
    }
}

#[test]
fn allocate_pin_records_the_owner() {
    let mut ledger = PinLedger::new();
    ledger.allocate_pin(5, PinUse::I2c);
    assert_eq!(ledger.owner(5), Some(PinUse::I2c));
    for pin in (0..8u8).filter(|pin| *pin != 5) {
        assert_eq!(ledger.owner(pin), None);
    }
}

#[test]
fn try_allocate_pin_grants_a_free_pin() {
    let mut ledger = PinLedger::new();
    assert_eq!(ledger.try_allocate_pin(0, PinUse::Spi), Ok(()));
    assert_eq!(ledger.try_allocate_pin(7, PinUse::Output), Ok(()));
    assert_eq!(ledger.owner(0), Some(PinUse::Spi));
    assert_eq!(ledger.owner(7), Some(PinUse::Output));
    assert_eq!(ledger.owner(1), None);
}

#[test]
fn second_allocation_fails_and_first_owner_stays() {
    let purposes = [PinUse::I2c, PinUse::Spi, PinUse::Output];
    for pin in 0..8u8 {
        for first in purposes {
            for second in purposes {
                let mut ledger = PinLedger::new();
                assert_eq!(ledger.try_allocate_pin(pin, first), Ok(()));
                assert_eq!(
                    ledger.try_allocate_pin(pin, second),
                    Err(Fault::Conflict { pin, requested: second, current: first })
                );
                assert_eq!(ledger.owner(pin), Some(first));
            }
        }
    }
}

#[test]
fn out_of_range_index_is_refused_without_a_change() {
    for pin in 8..=255u8 {
        let mut ledger = PinLedger::new();
        ledger.allocate_pin(3, PinUse::Output);
        assert_eq!(
            ledger.try_allocate_pin(pin, PinUse::Spi),
            Err(Fault::OutOfRange { pin, requested: PinUse::Spi })
        );
        for slot in 0..8u8 {
            let expected = if slot == 3 { Some(PinUse::Output) } else { None };
            assert_eq!(ledger.owner(slot), expected);
        }
    }
}

#[test]
fn index_eight_is_the_first_that_is_no_pin() {
    let mut ledger = PinLedger::new();
    assert_eq!(ledger.try_allocate_pin(7, PinUse::Output), Ok(()));
    assert_eq!(
        ledger.try_allocate_pin(8, PinUse::Output),
        Err(Fault::OutOfRange { pin: 8, requested: PinUse::Output })
    );
}

#[test]
fn range_is_checked_before_the_slot() {
    let mut ledger = PinLedger::new();
    for pin in 0..8u8 {
        ledger.allocate_pin(pin, PinUse::Output);
    }
    assert_eq!(
        ledger.try_allocate_pin(200, PinUse::I2c),
        Err(Fault::OutOfRange { pin: 200, requested: PinUse::I2c })
    );
}

#[test]
fn can_allocate_answers_without_changing_the_ledger() {
    let mut ledger = PinLedger::new();
    assert_eq!(ledger.can_allocate(4, PinUse::Spi), Ok(()));
    assert_eq!(ledger.owner(4), None);
    ledger.allocate_pin(4, PinUse::Spi);
    assert_eq!(
        ledger.can_allocate(4, PinUse::I2c),
        Err(Fault::Conflict { pin: 4, requested: PinUse::I2c, current: PinUse::Spi })
    );
    assert_eq!(
        ledger.can_allocate(8, PinUse::I2c),
        Err(Fault::OutOfRange { pin: 8, requested: PinUse::I2c })
    );
    assert_eq!(ledger.owner(4), Some(PinUse::Spi));
    assert_eq!(ledger.can_allocate(3, PinUse::I2c), Ok(()));
}
