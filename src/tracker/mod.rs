//! The antenna tracker: its commands, TLE handling and the state of its worker.
pub mod error;
pub mod parsing;
pub mod state;
pub mod trajectory;
pub mod types;

pub use error::TrackerError;
pub use parsing::parse_tle_lines;
pub use state::{TrackerMode, TrackerState, TrackerStatus};
pub use types::{Command, Frequencies, RadioConfig, RunCommand};
