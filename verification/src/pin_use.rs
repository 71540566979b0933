use vstd::prelude::*;

verus! {

/// What a pin of the chip has been claimed for.
#[derive(Debug, Clone, Copy, PartialEq, Eq, Structural)]
pub enum PinUse {
    /// The pin belongs to the I2C bus.
    I2c,
    /// The pin belongs to the SPI bus.
    Spi,
    /// The pin is a discrete digital output.
    Output,
}

impl PinUse {
    /// The text by which a purpose is named in diagnostics.
    pub open spec fn label(self) -> Seq<char> {
        match self {
            PinUse::I2c => "I2C"@,
            PinUse::Spi => "SPI"@,
            PinUse::Output => "GPIO"@,
        }
    }

    /// The name of the purpose: `"I2C"`, `"SPI"` or `"GPIO"`.
    pub fn name(&self) -> (s: &'static str)
        ensures
            s@ == self.label(),
    {
        match self {
            PinUse::I2c => "I2C",
            PinUse::Spi => "SPI",
            PinUse::Output => "GPIO",
        }
    }
}

} // verus!
