//! Environmental sensor library: single-wire temperature/humidity frame
//! capture and decoding, air-quality register addressing, and application
//! fault bookkeeping.

pub mod capture;
pub mod ccs811;
pub mod config;
pub mod temperature_humidity;
pub mod util;

pub use util::vec_to_int;
