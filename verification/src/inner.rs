use vstd::prelude::*;
use crate::command::{gpio_command, gpio_lower_command};
use crate::ledger::PIN_COUNT;
use crate::pin_use::PinUse;
use crate::settings::MpsseSettings;
use crate::state::{with_level, GpioState, GpioView};

verus! {

/// The state that the peripheral handles of one device share, as contracts
/// see it.
pub struct DeviceState<D> {
    /// The handle of the device.
    pub device: D,
    /// The masks of the lower GPIO byte and the owners of its pins.
    pub gpio: GpioView,
}

/// The state of one device: its handle, the two GPIO masks and the pin
/// ledger. Every peripheral handle of the device works on this one value.
#[derive(Debug)]
pub struct Ft232hInner<D> {
    /// Handle of the device.
    ft: D,
    /// GPIO direction, GPIO value and pin allocation.
    gpio: GpioState,
}

impl<D> View for Ft232hInner<D> {
    type V = DeviceState<D>;

    closed spec fn view(&self) -> DeviceState<D> {
        DeviceState { device: self.ft, gpio: self.gpio@ }
    }
}

impl<D> From<D> for Ft232hInner<D> {
    /// The state of a device on which nothing has been claimed: direction
    /// mask `0xFB`, value mask `0x00`, every pin free.
    fn from(ft: D) -> (inner: Ft232hInner<D>)
        ensures
            inner@ == (DeviceState { device: ft, gpio: GpioView::fresh() }),
    {
        Ft232hInner { ft, gpio: GpioState::new() }
    }
}

impl<D> vstd::std_specs::convert::FromSpecImpl<D> for Ft232hInner<D> {
    open spec fn obeys_from_spec() -> bool {
        false
    }

    open spec fn from_spec(ft: D) -> Ft232hInner<D> {
        arbitrary()
    }
}

/// Whether `configure` can be called on `device` with `settings`.
pub open spec fn accepts_exactly<D, E, F: FnOnce(&mut D, &MpsseSettings) -> Result<(), E>>(
    configure: F,
    device: D,
    settings: MpsseSettings,
) -> bool {
    forall|handle: &mut D, handed: &MpsseSettings|
        *handle == device && *handed == settings ==> #[trigger] configure.requires(
            (handle, handed),
        )
}

/// Whether `write` can be called on `device` with the bytes `command`.
pub open spec fn accepts_command<D, E, F: FnOnce(&mut D, &[u8]) -> Result<(), E>>(
    write: F,
    device: D,
    command: Seq<u8>,
) -> bool {
    forall|handle: &mut D, handed: &[u8]|
        *handle == device && handed@ == command ==> #[trigger] write.requires((handle, handed))
}

impl<D> Ft232hInner<D> {
    /// Writes a configuration to the device: `configure` is called once, with
    /// the device and with `requested` in which the direction mask has been
    /// replaced by the one held here. What it returns is handed back; the
    /// masks and the ledger stay as they are.
    pub fn configure<E, F: FnOnce(&mut D, &MpsseSettings) -> Result<(), E>>(
        &mut self,
        requested: &MpsseSettings,
        configure: F,
    ) -> (result: Result<(), E>)
        requires
            accepts_exactly(
                configure,
                old(self)@.device,
                requested.with_mask(old(self)@.gpio.direction),
            ),
        ensures
            final(self)@.gpio == old(self)@.gpio,
            exists|handle: &mut D, handed: &MpsseSettings|
                {
                    &&& *handle == old(self)@.device
                    &&& *final(handle) == final(self)@.device
                    &&& *handed == requested.with_mask(old(self)@.gpio.direction)
                    &&& #[trigger] configure.ensures((handle, handed), result)
                },
    {
        let settings = self.driver_settings(requested);
        let handle = &mut self.ft;
        let result = configure(handle, &settings);
        result
    }

    /// Drives `idx` high for `true` and low for `false`: the level is
    /// recorded in the value mask, and `write` is called once, with the device
    /// and with the command that sets the lower GPIO byte to the new value
    /// mask and the direction mask. What it returns is handed back; the level
    /// stays recorded also when `write` fails.
    pub fn write_level<E, F: FnOnce(&mut D, &[u8]) -> Result<(), E>>(
        &mut self,
        idx: u8,
        high: bool,
        write: F,
    ) -> (result: Result<(), E>)
        requires
            idx < PIN_COUNT,
            accepts_command(
                write,
                old(self)@.device,
                gpio_command(
                    with_level(old(self)@.gpio.value, idx, high),
                    old(self)@.gpio.direction,
                ),
            ),
        ensures
            final(self)@.gpio == (GpioView {
                value: with_level(old(self)@.gpio.value, idx, high),
                ..old(self)@.gpio
            }),
            exists|handle: &mut D, handed: &[u8]|
                {
                    &&& *handle == old(self)@.device
                    &&& *final(handle) == final(self)@.device
                    &&& handed@ == gpio_command(
                        with_level(old(self)@.gpio.value, idx, high),
                        old(self)@.gpio.direction,
                    )
                    &&& #[trigger] write.ensures((handle, handed), result)
                },
    {
        self.gpio.set_level(idx, high);
        let command = gpio_lower_command(self.gpio.value(), self.gpio.direction());
        let handle = &mut self.ft;
        let result = write(handle, command.as_slice());
        result
    }

    /// The device handle.
    pub fn device(&self) -> (device: &D)
        ensures
            *device == self@.device,
    {
        &self.ft
    }

    /// The device handle, for the time of one operation on the device. The
    /// masks and the ledger cannot be reached through it.
    pub fn device_mut(&mut self) -> (device: &mut D)
        ensures
            *device == old(self)@.device,
            final(self)@ == (DeviceState { device: *final(device), gpio: old(self)@.gpio }),
    {
        &mut self.ft
    }

    /// The masks and the ledger, to read.
    pub fn gpio(&self) -> (gpio: &GpioState)
        ensures
            gpio@ == self@.gpio,
    {
        &self.gpio
    }

    /// Sets the level that `idx` is driven to: high for `true`, low for
    /// `false`. Nothing else changes.
    pub fn set_level(&mut self, idx: u8, high: bool)
        requires
            idx < PIN_COUNT,
        ensures
            final(self)@.gpio == (GpioView {
                value: with_level(old(self)@.gpio.value, idx, high),
                ..old(self)@.gpio
            }),
            final(self)@.device == old(self)@.device,
    {
        self.gpio.set_level(idx, high);
    }

    /// Allocate a pin for a specific use. Only the slot of the pin changes:
    /// the masks and the device stay as they are.
    ///
    /// The pin must exist and be free, which [`GpioState::can_allocate`]
    /// tests on [`Ft232hInner::gpio`].
    pub fn allocate_pin(&mut self, idx: u8, purpose: PinUse)
        requires
            idx < PIN_COUNT,
            old(self)@.gpio.owners[idx as int] is None,
        ensures
            final(self)@.gpio == old(self)@.gpio.allocate(idx, purpose),
            final(self)@.device == old(self)@.device,
    {
        self.gpio.allocate_pin(idx, purpose);
    }

    /// Claims AD0, AD1 and AD2 for the serial bus `purpose`: the three slots
    /// are taken and the three pins are made outputs. The value mask and the
    /// device stay as they are.
    ///
    /// The three pins must be free, which [`GpioState::can_claim_bus`] tests
    /// on [`Ft232hInner::gpio`].
    pub fn claim_bus_pins(&mut self, purpose: PinUse)
        requires
            old(self)@.gpio.bus_outcome(purpose) is Ok,
        ensures
            final(self)@.gpio == old(self)@.gpio.claim_bus(purpose),
            final(self)@.device == old(self)@.device,
            old(self)@.gpio.drives_its_pins() ==> final(self)@.gpio.drives_its_pins(),
    {
        self.gpio.claim_bus_pins(purpose);
    }

    /// Claims `idx` as a discrete digital output: the slot is taken and the
    /// pin is made an output. The value mask and the device stay as they are.
    ///
    /// The pin must exist and be free, which [`GpioState::can_allocate`]
    /// tests on [`Ft232hInner::gpio`].
    pub fn claim_output(&mut self, idx: u8)
        requires
            idx < PIN_COUNT,
            old(self)@.gpio.owners[idx as int] is None,
        ensures
            final(self)@.gpio == old(self)@.gpio.claim(idx, PinUse::Output),
            final(self)@.device == old(self)@.device,
            old(self)@.gpio.drives_its_pins() ==> final(self)@.gpio.drives_its_pins(),
    {
        self.gpio.claim_pin(idx, PinUse::Output);
    }

    /// The settings that the device is initialised with when `requested` is
    /// asked for: the direction mask is always the one held here, never the
    /// one that the caller wrote.
    pub fn driver_settings(&self, requested: &MpsseSettings) -> (settings: MpsseSettings)
        ensures
            settings == requested.with_mask(self@.gpio.direction),
    {
        requested.masked(self.gpio.direction())
    }
}

} // verus!
