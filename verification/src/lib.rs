//! Pin arbitration for one FT232H multi-protocol serial engine.
//!
//! Several peripheral handles (SPI, I2C, digital outputs) share one chip. This
//! crate decides who owns which of the eight AD pins and keeps the direction
//! and value masks of the lower GPIO byte. A handle can only be obtained from
//! a wrapper that has been initialised, which the type of the wrapper records.
//!
//! The wrapper owns the state and every operation takes it by `&mut`: that is
//! the exclusive access under which the state may be read and changed. A
//! request that cannot be granted is a programming error. The functions that
//! change the state leave such requests out by their preconditions, and for
//! each of them there is a function that tests the request and names the
//! fault.
//!
//! The crate performs no device I/O itself. The device handle is a type
//! parameter that is carried through, and each step that talks to the chip
//! (writing the configuration when the wrapper is initialised, writing a
//! command when a pin is driven) is handed in by the caller.
//!
//! The modules, from the leaves up:
//!
//! * [`pin_use`] and [`fault`]: the purposes a pin can have, and why a
//!   request can be refused.
//! * [`ledger`]: which purpose owns each pin.
//! * [`state`]: the ledger together with the GPIO masks; claiming an output
//!   or a bus takes the slots and makes the pins outputs.
//! * [`settings`] and [`command`]: what is written to the device.
//! * [`inner`]: the state of one device, with its handle.
//! * [`hal`]: the wrapper in its two phases, and [`spi`], [`i2c`] and
//!   [`gpio`]: the peripheral handles it hands out.

pub mod command;
pub mod fault;
pub mod gpio;
pub mod hal;
pub mod i2c;
pub mod inner;
pub mod ledger;
pub mod pin_use;
pub mod settings;
pub mod spi;
pub mod state;

pub use fault::Fault;
pub use gpio::OutputPin;
pub use hal::{Ft232hHal, Initialized, Uninitialized};
pub use i2c::I2c;
pub use inner::{DeviceState, Ft232hInner};
pub use ledger::PinLedger;
pub use pin_use::PinUse;
pub use settings::MpsseSettings;
pub use spi::Spi;
pub use state::{GpioState, GpioView};
