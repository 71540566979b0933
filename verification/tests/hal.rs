use ftd2xx_embedded_hal::{
    Fault, Ft232hHal, Initialized, MpsseSettings, OutputPin, PinUse, Uninitialized,
};

/// A device that records what it was configured with and what was written to
/// it.
#[derive(Debug, Default)]
struct Recorder {
    configured: Vec<MpsseSettings>,
    written: Vec<Vec<u8>>,
}

fn record(device: &mut Recorder, settings: &MpsseSettings) -> Result<(), String> {
    device.configured.push(*settings);
    Ok(())
}

fn write(device: &mut Recorder, command: &[u8]) -> Result<(), String> {
    device.written.push(command.to_vec());
    Ok(())
}

fn ready() -> Ft232hHal<Initialized, Recorder> {
    let hal: Ft232hHal<Uninitialized, Recorder> = Ft232hHal::from(Recorder::default());
    hal.init_default(record).expect("the recorder accepts every configuration")
}

fn owners(hal: &Ft232hHal<Initialized, Recorder>) -> Vec<Option<PinUse>> {
    (0..8u8).map(|pin| hal.inner().gpio().owner(pin)).collect()
}

fn conflict(pin: u8, requested: PinUse, current: PinUse) -> Result<(), Fault> {
    Err(Fault::Conflict { pin, requested, current })
}

#[test]
fn a_new_wrapper_starts_from_the_fresh_state() {
    let hal: Ft232hHal<Uninitialized, u32> = Ft232hHal::from(5u32);
    assert_eq!(*hal.inner().device(), 5);
    assert_eq!(hal.inner().gpio().direction(), 0xFB);
    assert_eq!(hal.inner().gpio().value(), 0x00);
    for pin in 0..8u8 {
        assert_eq!(hal.inner().gpio().owner(pin), None);
    }
}

#[test]
fn init_default_configures_the_documented_defaults() {
    let hal = ready();
    assert_eq!(
        hal.inner().device().configured,
        vec![MpsseSettings {
            reset: true,
            in_transfer_size: 4096,
            read_timeout_ms: 1000,
            write_timeout_ms: 1000,
            latency_timer_ms: 16,
            mask: 0xFB,
            clock_frequency: Some(100_000),
        }]
    );
    assert_eq!(owners(&hal), vec![None; 8]);
    assert_eq!(hal.inner().gpio().direction(), 0xFB);
    assert_eq!(hal.inner().gpio().value(), 0x00);
}

#[test]
fn init_overwrites_the_mask_of_the_caller() {
    let requested = MpsseSettings {
        reset: false,
        in_transfer_size: 128,
        read_timeout_ms: 5000,
        write_timeout_ms: 250,
        latency_timer_ms: 2,
        mask: 0x00,
        clock_frequency: Some(500_000),
    };
    assert!(requested.has_clock());
    let hal = Ft232hHal::from(Recorder::default()).init(&requested, record).expect("accepted");
    assert_eq!(hal.inner().device().configured, vec![MpsseSettings { mask: 0xFB, ..requested }]);
}

#[test]
fn init_hands_the_device_error_back() {
    let hal = Ft232hHal::from(Recorder::default());
    let outcome = hal.init_default(|_device: &mut Recorder, _settings: &MpsseSettings| {
        Err::<(), &str>("timeout")
    });
    assert!(matches!(outcome, Err("timeout")));
}

#[test]
fn spi_then_output_on_a_bus_pin_fails() {
    let mut hal = ready();
    assert_eq!(hal.can_claim_bus(PinUse::Spi), Ok(()));
    let _spi = hal.spi();
    assert_eq!(hal.can_claim_output(1), conflict(1, PinUse::Output, PinUse::Spi));
    assert_eq!(hal.inner().gpio().owner(1), Some(PinUse::Spi));
}

#[test]
fn i2c_then_output_on_the_third_bus_pin_fails() {
    let mut hal = ready();
    let _i2c = hal.i2c();
    assert_eq!(hal.can_claim_output(2), conflict(2, PinUse::Output, PinUse::I2c));
    assert_eq!(hal.inner().gpio().owner(2), Some(PinUse::I2c));
}

#[test]
fn output_pin_is_acquired_once() {
    let mut hal = ready();
    assert_eq!(hal.can_claim_output(3), Ok(()));
    let pin = hal.ad3();
    assert_eq!(pin.index(), 3);
    assert_eq!(hal.can_claim_output(3), conflict(3, PinUse::Output, PinUse::Output));
}

#[test]
fn spi_then_i2c_fails() {
    let mut hal = ready();
    let _spi = hal.spi();
    assert_eq!(hal.can_claim_bus(PinUse::I2c), conflict(0, PinUse::I2c, PinUse::Spi));
    assert_eq!(
        owners(&hal)[..3],
        [Some(PinUse::Spi), Some(PinUse::Spi), Some(PinUse::Spi)]
    );
}

#[test]
fn i2c_then_spi_fails() {
    let mut hal = ready();
    let _i2c = hal.i2c();
    assert_eq!(hal.can_claim_bus(PinUse::Spi), conflict(0, PinUse::Spi, PinUse::I2c));
    assert_eq!(
        owners(&hal)[..3],
        [Some(PinUse::I2c), Some(PinUse::I2c), Some(PinUse::I2c)]
    );
}

#[test]
fn bus_is_acquired_once() {
    let mut hal = ready();
    let _i2c = hal.i2c();
    assert_eq!(hal.can_claim_bus(PinUse::I2c), conflict(0, PinUse::I2c, PinUse::I2c));
}

#[test]
fn every_output_pin_can_be_acquired_exactly_once() {
    let mut hal = ready();
    for pin in 0..8u8 {
        assert_eq!(hal.can_claim_output(pin), Ok(()));
    }
    let taken = [
        hal.ad0().index(),
        hal.ad1().index(),
        hal.ad2().index(),
        hal.ad3().index(),
        hal.ad4().index(),
        hal.ad5().index(),
        hal.ad6().index(),
        hal.ad7().index(),
    ];
    assert_eq!(taken, [0, 1, 2, 3, 4, 5, 6, 7]);
    for pin in 0..8u8 {
        assert_eq!(hal.can_claim_output(pin), conflict(pin, PinUse::Output, PinUse::Output));
    }
    assert_eq!(owners(&hal), vec![Some(PinUse::Output); 8]);
    assert_eq!(hal.inner().gpio().direction(), 0xFF);
}

#[test]
fn no_output_has_an_index_beyond_seven() {
    let hal = ready();
    for pin in 8..=255u8 {
        assert_eq!(
            hal.can_claim_output(pin),
            Err(Fault::OutOfRange { pin, requested: PinUse::Output })
        );
    }
}

#[test]
fn taking_one_output_leaves_the_others_free() {
    let mut hal = ready();
    let _five = hal.ad5();
    assert!(hal.can_claim_output(5).is_err());
    assert_eq!(hal.can_claim_output(4), Ok(()));
    assert_eq!(hal.can_claim_output(6), Ok(()));
    assert_eq!(hal.can_claim_bus(PinUse::Spi), Ok(()));
    let _four = hal.ad4();
    let _spi = hal.spi();
    assert_eq!(
        owners(&hal),
        vec![
            Some(PinUse::Spi),
            Some(PinUse::Spi),
            Some(PinUse::Spi),
            None,
            Some(PinUse::Output),
            Some(PinUse::Output),
            None,
            None
        ]
    );
}

#[test]
fn output_on_a_bus_pin_blocks_the_bus() {
    let mut hal = ready();
    let _two = hal.ad2();
    assert_eq!(hal.can_claim_bus(PinUse::Spi), conflict(2, PinUse::Spi, PinUse::Output));
    assert_eq!(hal.can_claim_bus(PinUse::I2c), conflict(2, PinUse::I2c, PinUse::Output));
    assert_eq!(hal.can_claim_output(0), Ok(()));
}

#[test]
fn dropping_a_handle_does_not_release_its_pins() {
    let mut hal = ready();
    drop(hal.spi());
    drop(hal.ad4());
    assert_eq!(hal.can_claim_bus(PinUse::Spi), conflict(0, PinUse::Spi, PinUse::Spi));
    assert_eq!(hal.can_claim_bus(PinUse::I2c), conflict(0, PinUse::I2c, PinUse::Spi));
    assert_eq!(hal.can_claim_output(4), conflict(4, PinUse::Output, PinUse::Output));
}

#[test]
fn acquiring_makes_the_pins_outputs_and_keeps_the_rest() {
    let mut hal = ready();
    let _i2c = hal.i2c();
    assert_eq!(hal.inner().gpio().direction(), 0xFF);
    assert_eq!(hal.inner().gpio().value(), 0x00);
    assert_eq!(hal.inner().device().configured.len(), 1);
    assert!(hal.inner().device().written.is_empty());
}

#[test]
fn output_pin_writes_its_level_with_the_shared_masks() {
    let mut hal = ready();
    let two: OutputPin = hal.ad2();
    let five: OutputPin = hal.ad5();
    assert_eq!(five.set(&mut hal, true, write), Ok(()));
    assert_eq!(two.set(&mut hal, true, write), Ok(()));
    assert_eq!(five.set(&mut hal, false, write), Ok(()));
    assert_eq!(two.set(&mut hal, false, write), Ok(()));
    assert_eq!(
        hal.inner().device().written,
        vec![
            vec![0x80, 0x20, 0xFF, 0x87],
            vec![0x80, 0x24, 0xFF, 0x87],
            vec![0x80, 0x04, 0xFF, 0x87],
            vec![0x80, 0x00, 0xFF, 0x87]
        ]
    );
    assert_eq!(hal.inner().gpio().value(), 0x00);
}

#[test]
fn output_pin_hands_the_device_error_back() {
    let mut hal = ready();
    let pin = hal.ad0();
    let outcome = pin.set(&mut hal, true, |_device: &mut Recorder, _command: &[u8]| {
        Err::<(), u32>(17)
    });
    assert_eq!(outcome, Err(17));
    assert_eq!(hal.inner().gpio().value(), 0x01);
}

#[test]
fn the_device_can_be_used_without_touching_the_pins() {
    let mut hal = ready();
    let _pin = hal.ad6();
    hal.device_mut().written.push(vec![0xAB]);
    assert_eq!(hal.inner().device().written, vec![vec![0xAB]]);
    assert_eq!(hal.inner().gpio().owner(6), Some(PinUse::Output));
}
