//! Control logic for the DRV2605L haptic motor driver: the register codec and
//! the calibration and mode protocols, written as a bus-independent state
//! machine.

pub mod bits;
pub mod driver;
pub mod effects;
pub mod laws;
pub mod operation;
pub mod params;
pub mod protocol;
pub mod registers;
pub mod settings;

pub use driver::Drv2605l;
pub use effects::{Effect, Library};
pub use operation::Operation;
pub use params::{Calibration, CalibrationParams, DrvError, LoadParams, Mode, RomParams};
