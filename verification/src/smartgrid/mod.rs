//! `SmartGrid` control: operating modes, relay bookkeeping, the mode actor's
//! state machine and the warm-by heat-up decisions.

pub mod actor;
pub mod gpio;
pub mod heatup;
pub mod mode;

pub use actor::{SmartGridError, ApplyModeError};
pub use mode::SmartGridMode;
