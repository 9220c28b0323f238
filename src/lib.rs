pub mod laws;
pub mod manager;
pub mod model;

pub use manager::{TickAction, TimerManager, TimerModel};
pub use model::{TimerState, TimerStatus, TimerType, UserPreferences};
