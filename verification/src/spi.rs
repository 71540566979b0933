use vstd::prelude::*;

verus! {

/// The SPI bus of a device: AD0 is SCK, AD1 is MOSI and AD2 is MISO.
///
/// The handle stands for the three pins, which the wrapper holds for SPI for
/// as long as it lives; dropping the handle does not give them back. It is
/// handed out by [`crate::Ft232hHal::spi`] and by nothing else.
#[derive(Debug)]
pub struct Spi {
    /// Keeps the handle from being made anywhere but in this crate.
    claimed: (),
}

impl Spi {
    /// The handle for three pins that have just been claimed for SPI.
    pub(crate) fn new() -> Spi {
        Spi { claimed: () }
    }
}

} // verus!
