use vstd::prelude::*;
use crate::command::gpio_command;
use crate::hal::{Ft232hHal, Initialized};
use crate::inner::{accepts_command, DeviceState};
use crate::ledger::PIN_COUNT;
use crate::state::{with_level, GpioView};

verus! {

/// One pin of a device, used as a digital output.
///
/// The handle stands for the pin, which the wrapper holds as an output for as
/// long as it lives; dropping the handle does not give the pin back. It is
/// handed out by the functions `ad0` to `ad7` of [`Ft232hHal`] and by nothing
/// else.
#[derive(Debug)]
pub struct OutputPin {
    /// GPIO pin index, 0 to 7.
    idx: u8,
}

impl OutputPin {
    #[verifier::type_invariant]
    closed spec fn inv(&self) -> bool {
        self.idx < PIN_COUNT
    }

    /// The pin that this handle stands for.
    pub closed spec fn pin(&self) -> u8 {
        self.idx
    }

    /// The handle for a pin that has just been claimed as an output.
    pub(crate) fn new(idx: u8) -> (output: OutputPin)
        requires
            idx < PIN_COUNT,
        ensures
            output.pin() == idx,
    {
        OutputPin { idx }
    }

    /// The index of the pin, 0 to 7.
    pub fn index(&self) -> (idx: u8)
        ensures
            idx == self.pin(),
            idx < PIN_COUNT,
    {
        proof {
            use_type_invariant(self);
        }
        self.idx
    }

    /// Drives the pin high for `true` and low for `false`.
    ///
    /// The level is recorded in the value mask of `hal`, and `write`, the
    /// step that writes a command to the device, is called once with the
    /// device and with the command that sets the lower GPIO byte to the new
    /// value mask and the direction mask. What `write` returns is handed back;
    /// the level stays recorded also when it fails. The direction mask and
    /// the ledger stay as they are.
    pub fn set<D, E, F: FnOnce(&mut D, &[u8]) -> Result<(), E>>(
        &self,
        hal: &mut Ft232hHal<Initialized, D>,
        state: bool,
        write: F,
    ) -> (result: Result<(), E>)
        requires
            accepts_command(
                write,
                old(hal)@.device,
                gpio_command(
                    with_level(old(hal)@.gpio.value, self.pin(), state),
                    old(hal)@.gpio.direction,
                ),
            ),
        ensures
            final(hal)@.gpio == (GpioView {
                value: with_level(old(hal)@.gpio.value, self.pin(), state),
                ..old(hal)@.gpio
            }),
            exists|handle: &mut D, handed: &[u8]|
                {
                    &&& *handle == old(hal)@.device
                    &&& *final(handle) == final(hal)@.device
                    &&& handed@ == gpio_command(
                        with_level(old(hal)@.gpio.value, self.pin(), state),
                        old(hal)@.gpio.direction,
                    )
                    &&& #[trigger] write.ensures((handle, handed), result)
                },
    {
        proof {
            use_type_invariant(self);
        }
        hal.inner_mut().write_level(self.idx, state, write)
    }
}

} // verus!
