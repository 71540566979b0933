use vstd::prelude::*;

verus! {

/// The I2C bus of a device: AD0 is SCL, AD1 and AD2 are both SDA and have to
/// be wired together.
///
/// The handle stands for the three pins, which the wrapper holds for I2C for
/// as long as it lives; dropping the handle does not give them back. It is
/// handed out by [`crate::Ft232hHal::i2c`] and by nothing else.
#[derive(Debug)]
pub struct I2c {
    /// Keeps the handle from being made anywhere but in this crate.
    claimed: (),
}

impl I2c {
    /// The handle for three pins that have just been claimed for I2C.
    pub(crate) fn new() -> I2c {
        I2c { claimed: () }
    }
}

} // verus!
