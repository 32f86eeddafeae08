//! Control plane for satellite passes: schedules, their storage, and the decisions of the
//! runner, the shell executor and the antenna tracker.
use vstd::prelude::*;

pub mod abort;
pub mod executor;
pub mod predict;
pub mod radio;
pub mod scheduler;
pub mod text;
pub mod time;
pub mod tracker;
pub mod web;
pub mod yaml;
