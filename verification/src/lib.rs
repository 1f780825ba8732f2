//! Verified core of a launcher that runs an HPC application under a power
//! strategy: parsing the strategy, deciding which hardware settings to apply
//! and when, and deciding when the cluster's power draw has become stable.
pub mod json;
pub mod text;
pub mod state;
pub mod execute;
pub mod prepare;
pub mod logger;

pub use execute::{Action, Executor};
pub use logger::PowerLogger;
pub use prepare::{Preparer, StabilityMonitor};
pub use state::{State, StateManager};
