//! Element sets read in bulk, for pass prediction.
pub mod tle;

pub use tle::{parse_multi_tle, PredictError, SatelliteInfo};
