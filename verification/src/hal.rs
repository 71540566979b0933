use vstd::prelude::*;
use crate::fault::Fault;
use crate::gpio::OutputPin;
use crate::i2c::I2c;
use crate::inner::{accepts_exactly, DeviceState, Ft232hInner};
use crate::ledger::allocation_outcome;
use crate::pin_use::PinUse;
use crate::settings::{default_settings, MpsseSettings};
use crate::spi::Spi;
use crate::state::GpioView;

verus! {

/// Type state for an initialized FTDI HAL.
#[derive(Debug)]
pub struct Initialized;

/// Type state for an uninitialized FTDI HAL.
#[derive(Debug)]
pub struct Uninitialized;

/// FT232H device.
///
/// The wrapper is made around a device handle in the uninitialized state. It
/// is initialised once, which consumes it and gives the initialized wrapper,
/// and only that one hands out peripheral handles.
///
/// The wrapper owns the state of the device and every operation takes it by
/// `&mut`, so that no two operations ever work on the state at the same time.
/// A program that shares the wrapper keeps it behind a lock.
#[derive(Debug)]
pub struct Ft232hHal<INITIALIZED, D> {
    #[allow(dead_code)]
    init: INITIALIZED,
    inner: Ft232hInner<D>,
}

impl<INITIALIZED, D> View for Ft232hHal<INITIALIZED, D> {
    type V = DeviceState<D>;

    closed spec fn view(&self) -> DeviceState<D> {
        self.inner@
    }
}

/// What the configuring step returned, read off the answer of
/// initialisation: `Ok` for the initialized wrapper, and the error
/// otherwise.
pub open spec fn configured<D, E>(answer: Result<Ft232hHal<Initialized, D>, E>) -> Result<(), E> {
    match answer {
        Ok(_) => Ok(()),
        Err(error) => Err(error),
    }
}

impl<INITIALIZED, D> Ft232hHal<INITIALIZED, D> {
    /// The state of the device, to read.
    pub fn inner(&self) -> (inner: &Ft232hInner<D>)
        ensures
            inner@ == self@,
    {
        &self.inner
    }
}

impl<D> From<D> for Ft232hHal<Uninitialized, D> {
    /// Create a new FT232H structure from a specific FT232H device. The
    /// wrapper starts from the fresh state: direction mask `0xFB`, value mask
    /// `0x00`, every pin free. The device is not touched.
    fn from(ft: D) -> (hal: Ft232hHal<Uninitialized, D>)
        ensures
            hal@ == (DeviceState { device: ft, gpio: GpioView::fresh() }),
    {
        Ft232hHal { init: Uninitialized, inner: Ft232hInner::from(ft) }
    }
}

impl<D> vstd::std_specs::convert::FromSpecImpl<D> for Ft232hHal<Uninitialized, D> {
    open spec fn obeys_from_spec() -> bool {
        false
    }

    open spec fn from_spec(ft: D) -> Ft232hHal<Uninitialized, D> {
        arbitrary()
    }
}

impl<D> Ft232hHal<Uninitialized, D> {
    /// Initialize the FTDI MPSSE with sane defaults.
    ///
    /// Default values:
    ///
    /// * Reset the FTDI device.
    /// * 4k USB transfer size.
    /// * 1s USB read timeout.
    /// * 1s USB write timeout.
    /// * 16ms latency timer.
    /// * 100kHz clock frequency.
    ///
    /// `configure` is the step that writes a configuration to the device; see
    /// [`Ft232hHal::init`].
    pub fn init_default<E, F: FnOnce(&mut D, &MpsseSettings) -> Result<(), E>>(
        self,
        configure: F,
    ) -> (hal: Result<Ft232hHal<Initialized, D>, E>)
        requires
            accepts_exactly(
                configure,
                self@.device,
                default_settings().with_mask(self@.gpio.direction),
            ),
        ensures
            hal matches Ok(ready) ==> ready@.gpio == self@.gpio,
            exists|handle: &mut D, handed: &MpsseSettings|
                {
                    &&& *handle == self@.device
                    &&& *handed == default_settings().with_mask(self@.gpio.direction)
                    &&& #[trigger] configure.ensures((handle, handed), configured(hal))
                    &&& hal matches Ok(ready) ==> ready@.device == *final(handle)
                },
    {
        let settings = MpsseSettings::defaults();
        self.init(&settings, configure)
    }

    /// Initialize the FTDI MPSSE with custom values.
    ///
    /// `configure` is the step that writes a configuration to the device. It
    /// is called once, with the device and with `mpsse_settings` in which the
    /// direction mask has been replaced by the one that the wrapper holds.
    ///
    /// **Note:** The `mask` field of `mpsse_settings` is ignored.
    ///
    /// The wrapper is initialised exactly when `configure` returns `Ok`; the
    /// masks and the ledger stay as they are, and the device is as `configure`
    /// left it. An error of `configure` comes back unchanged.
    ///
    /// The `clock_frequency` field of `mpsse_settings` must be present, which
    /// [`MpsseSettings::has_clock`] tests.
    pub fn init<E, F: FnOnce(&mut D, &MpsseSettings) -> Result<(), E>>(
        self,
        mpsse_settings: &MpsseSettings,
        configure: F,
    ) -> (hal: Result<Ft232hHal<Initialized, D>, E>)
        requires
            mpsse_settings.clock_frequency is Some,
            accepts_exactly(
                configure,
                self@.device,
                mpsse_settings.with_mask(self@.gpio.direction),
            ),
        ensures
            hal matches Ok(ready) ==> ready@.gpio == self@.gpio,
            exists|handle: &mut D, handed: &MpsseSettings|
                {
                    &&& *handle == self@.device
                    &&& *handed == mpsse_settings.with_mask(self@.gpio.direction)
                    &&& #[trigger] configure.ensures((handle, handed), configured(hal))
                    &&& hal matches Ok(ready) ==> ready@.device == *final(handle)
                },
    {
        let mut inner = self.inner;
        let result = inner.configure(mpsse_settings, configure);
        match result {
            Ok(done) => {
                assert(result == Ok::<(), E>(done) && done == ());
                Ok(Ft232hHal { init: Initialized, inner })
            },
            Err(error) => Err(error),
        }
    }
}

impl<D> Ft232hHal<Initialized, D> {
    /// Tests whether the three bus pins can be had for `purpose`. The state
    /// is only read.
    ///
    /// A refusal names the lowest of the three pins that is taken, `purpose`
    /// as the requested purpose and the purpose that holds the pin.
    pub fn can_claim_bus(&self, purpose: PinUse) -> (outcome: Result<(), Fault>)
        ensures
            self@.gpio.well_formed(),
            outcome == self@.gpio.bus_outcome(purpose),
    {
        self.inner.gpio().can_claim_bus(purpose)
    }

    /// Tests whether `idx` can be had as a digital output. The state is only
    /// read.
    ///
    /// A refusal names `idx`, the output as the requested purpose and, for a
    /// taken pin, the purpose that holds it.
    pub fn can_claim_output(&self, idx: u8) -> (outcome: Result<(), Fault>)
        ensures
            self@.gpio.well_formed(),
            outcome == allocation_outcome(self@.gpio.owners, idx, PinUse::Output),
    {
        self.inner.gpio().can_allocate(idx, PinUse::Output)
    }

    /// The device handle, for the time of one transaction on the device. The
    /// masks and the ledger cannot be reached through it.
    pub fn device_mut(&mut self) -> (device: &mut D)
        ensures
            *device == old(self)@.device,
            final(self)@ == (DeviceState { device: *final(device), gpio: old(self)@.gpio }),
    {
        self.inner.device_mut()
    }

    /// The state of the device, for the operations of the peripheral
    /// handles.
    pub(crate) fn inner_mut(&mut self) -> (inner: &mut Ft232hInner<D>)
        ensures
            inner@ == old(self)@,
            final(self)@ == final(inner)@,
    {
        &mut self.inner
    }

    /// Acquire the SPI peripheral for the FT232H: the slots of the three bus
    /// pins are taken and the pins are made outputs.
    ///
    /// Pin assignments:
    /// * AD0 => SCK
    /// * AD1 => MOSI
    /// * AD2 => MISO
    ///
    /// Pins 0, 1 and 2 must not be in use, which [`Ft232hHal::can_claim_bus`]
    /// tests.
    pub fn spi(&mut self) -> (spi: Spi)
        requires
            old(self)@.gpio.bus_outcome(PinUse::Spi) is Ok,
        ensures
            final(self)@.gpio == old(self)@.gpio.claim_bus(PinUse::Spi),
            final(self)@.device == old(self)@.device,
            old(self)@.gpio.drives_its_pins() ==> final(self)@.gpio.drives_its_pins(),
    {
        self.inner.claim_bus_pins(PinUse::Spi);
        Spi::new()
    }

    /// Acquire the I2C peripheral for the FT232H: the slots of the three bus
    /// pins are taken and the pins are made outputs.
    ///
    /// Pin assignments:
    /// * AD0 => SCL
    /// * AD1 => SDA
    /// * AD2 => SDA
    ///
    /// Yes, AD1 and AD2 are both SDA.
    /// These pins must be shorted together for I2C operation.
    ///
    /// Pins 0, 1 and 2 must not be in use, which [`Ft232hHal::can_claim_bus`]
    /// tests.
    pub fn i2c(&mut self) -> (i2c: I2c)
        requires
            old(self)@.gpio.bus_outcome(PinUse::I2c) is Ok,
        ensures
            final(self)@.gpio == old(self)@.gpio.claim_bus(PinUse::I2c),
            final(self)@.device == old(self)@.device,
            old(self)@.gpio.drives_its_pins() ==> final(self)@.gpio.drives_its_pins(),
    {
        self.inner.claim_bus_pins(PinUse::I2c);
        I2c::new()
    }

    /// Acquire the digital output pin 0 for the FT232H: the slot of the pin
    /// is taken and the pin is made an output.
    ///
    /// The pin must not be in use, which [`Ft232hHal::can_claim_output`]
    /// tests.
    pub fn ad0(&mut self) -> (pin: OutputPin)
        requires
            old(self)@.gpio.owners[0] is None,
        ensures
            pin.pin() == 0,
            final(self)@.gpio == old(self)@.gpio.claim(0, PinUse::Output),
            final(self)@.device == old(self)@.device,
            old(self)@.gpio.drives_its_pins() ==> final(self)@.gpio.drives_its_pins(),
    {
        self.inner.claim_output(0);
        OutputPin::new(0)
    }

    /// Acquire the digital output pin 1 for the FT232H: the slot of the pin
    /// is taken and the pin is made an output.
    ///
    /// The pin must not be in use, which [`Ft232hHal::can_claim_output`]
    /// tests.
    pub fn ad1(&mut self) -> (pin: OutputPin)
        requires
            old(self)@.gpio.owners[1] is None,
        ensures
            pin.pin() == 1,
            final(self)@.gpio == old(self)@.gpio.claim(1, PinUse::Output),
            final(self)@.device == old(self)@.device,
            old(self)@.gpio.drives_its_pins() ==> final(self)@.gpio.drives_its_pins(),
    {
        self.inner.claim_output(1);
        OutputPin::new(1)
    }

    /// Acquire the digital output pin 2 for the FT232H: the slot of the pin
    /// is taken and the pin is made an output.
    ///
    /// The pin must not be in use, which [`Ft232hHal::can_claim_output`]
    /// tests.
    pub fn ad2(&mut self) -> (pin: OutputPin)
        requires
            old(self)@.gpio.owners[2] is None,
        ensures
            pin.pin() == 2,
            final(self)@.gpio == old(self)@.gpio.claim(2, PinUse::Output),
            final(self)@.device == old(self)@.device,
            old(self)@.gpio.drives_its_pins() ==> final(self)@.gpio.drives_its_pins(),
    {
        self.inner.claim_output(2);
        OutputPin::new(2)
    }

    /// Acquire the digital output pin 3 for the FT232H: the slot of the pin
    /// is taken and the pin is made an output.
    ///
    /// The pin must not be in use, which [`Ft232hHal::can_claim_output`]
    /// tests.
    pub fn ad3(&mut self) -> (pin: OutputPin)
        requires
            old(self)@.gpio.owners[3] is None,
        ensures
            pin.pin() == 3,
            final(self)@.gpio == old(self)@.gpio.claim(3, PinUse::Output),
            final(self)@.device == old(self)@.device,
            old(self)@.gpio.drives_its_pins() ==> final(self)@.gpio.drives_its_pins(),
    {
        self.inner.claim_output(3);
        OutputPin::new(3)
    }

    /// Acquire the digital output pin 4 for the FT232H: the slot of the pin
    /// is taken and the pin is made an output.
    ///
    /// The pin must not be in use, which [`Ft232hHal::can_claim_output`]
    /// tests.
    pub fn ad4(&mut self) -> (pin: OutputPin)
        requires
            old(self)@.gpio.owners[4] is None,
        ensures
            pin.pin() == 4,
            final(self)@.gpio == old(self)@.gpio.claim(4, PinUse::Output),
            final(self)@.device == old(self)@.device,
            old(self)@.gpio.drives_its_pins() ==> final(self)@.gpio.drives_its_pins(),
    {
        self.inner.claim_output(4);
        OutputPin::new(4)
    }

    /// Acquire the digital output pin 5 for the FT232H: the slot of the pin
    /// is taken and the pin is made an output.
    ///
    /// The pin must not be in use, which [`Ft232hHal::can_claim_output`]
    /// tests.
    pub fn ad5(&mut self) -> (pin: OutputPin)
        requires
            old(self)@.gpio.owners[5] is None,
        ensures
            pin.pin() == 5,
            final(self)@.gpio == old(self)@.gpio.claim(5, PinUse::Output),
            final(self)@.device == old(self)@.device,
            old(self)@.gpio.drives_its_pins() ==> final(self)@.gpio.drives_its_pins(),
    {
        self.inner.claim_output(5);
        OutputPin::new(5)
    }

    /// Acquire the digital output pin 6 for the FT232H: the slot of the pin
    /// is taken and the pin is made an output.
    ///
    /// The pin must not be in use, which [`Ft232hHal::can_claim_output`]
    /// tests.
    pub fn ad6(&mut self) -> (pin: OutputPin)
        requires
            old(self)@.gpio.owners[6] is None,
        ensures
            pin.pin() == 6,
            final(self)@.gpio == old(self)@.gpio.claim(6, PinUse::Output),
            final(self)@.device == old(self)@.device,
            old(self)@.gpio.drives_its_pins() ==> final(self)@.gpio.drives_its_pins(),
    {
        self.inner.claim_output(6);
        OutputPin::new(6)
    }

    /// Acquire the digital output pin 7 for the FT232H: the slot of the pin
    /// is taken and the pin is made an output.
    ///
    /// The pin must not be in use, which [`Ft232hHal::can_claim_output`]
    /// tests.
    pub fn ad7(&mut self) -> (pin: OutputPin)
        requires
            old(self)@.gpio.owners[7] is None,
        ensures
            pin.pin() == 7,
            final(self)@.gpio == old(self)@.gpio.claim(7, PinUse::Output),
            final(self)@.device == old(self)@.device,
            old(self)@.gpio.drives_its_pins() ==> final(self)@.gpio.drives_its_pins(),
    {
        self.inner.claim_output(7);
        OutputPin::new(7)
    }
}

} // verus!
