//! Request outcomes and response bodies.
pub mod error;
pub mod schedules;
