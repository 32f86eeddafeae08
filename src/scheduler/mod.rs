//! Schedules: parsing, storage, approval, the artifacts of a run and the runner's decisions.
pub mod approval;
pub mod artifacts;
pub mod parser;
pub mod runner;
pub mod storage;

pub use parser::{Command, ParseError, Schedule, Step, TimeExpr};
