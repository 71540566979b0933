use vstd::prelude::*;
use crate::pin_use::PinUse;

verus! {

/// Why a request for a pin cannot be granted.
///
/// A fault is a programming error, not a failure of the environment: nothing
/// is gained by trying the same request again. The functions that test a
/// request report it; the functions that change the state leave such requests
/// out by their preconditions. Transport failures of the device never appear
/// here.
#[derive(Debug, Clone, Copy, PartialEq, Eq, Structural)]
pub enum Fault {
    /// The pin index is not one of 0 to 7.
    OutOfRange {
        /// The index that was asked for.
        pin: u8,
        /// The purpose it was asked for.
        requested: PinUse,
    },
    /// The pin already has an owner.
    Conflict {
        /// The index that was asked for.
        pin: u8,
        /// The purpose it was asked for.
        requested: PinUse,
        /// The purpose that holds the pin.
        current: PinUse,
    },
}

} // verus!
