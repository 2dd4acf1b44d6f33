//! An in-memory model of a NOR flash device.
//!
//! The device keeps a byte array in which erasing sets bits and programming
//! only clears them. Reads, writes and erases must respect the device's
//! alignment granularities. The model counts the traffic it sees, keeps a
//! per-page erase counter, and can wear pages out: past a configurable number
//! of erase cycles it injects single stuck bits from a seeded generator.
//! Every operation can be recorded in a transaction log whose verbosity is
//! configurable, and the accumulated counters feed a closed-form timing
//! estimate.
use vstd::prelude::*;

pub mod builder;
pub mod fault;
pub mod flash;
pub mod laws;
pub mod operation;
pub mod stats;
pub mod timing;
pub mod transaction;

pub use builder::SimulatedNorFlashBuilder;
pub use flash::{
    AnySimulatedNorFlash, FlashSnapshot, FlashView, SimulatedNorFlash, SimulatedNorFlashR1W1E4k,
    SimulatedNorFlashR1W4E4k, SimulatedNorFlashR4W4E4k, TagLabel,
};
pub use operation::Operation;
pub use stats::median;
pub use timing::{FlashTimings, SpiType};
pub use transaction::{Transaction, TransactionLogLevel};
