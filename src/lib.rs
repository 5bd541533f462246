//! Renders one UTC instant in many textual and numeric date/time encodings.
//!
//! The engine is `timestamp::from_chrono`: a total, deterministic map from an
//! [`instant::Instant`] to a [`timestamp::Timestamp`], a fixed record of named
//! fields whose every value is stated exactly by its contract.
use vstd::prelude::*;

pub mod calendar;
pub mod config;
pub mod instant;
pub mod text;
pub mod timestamp;

pub use config::Config;
pub use instant::Instant;
pub use timestamp::{from_chrono, Timestamp};
