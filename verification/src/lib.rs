//! Kand: technical analysis indicators for financial series.
//!
//! This crate holds the verified part of the library: parameter and input
//! validation, lookback periods, the warm-up schedules of the streaming
//! indicators and the candle signal encoding. All of it is stated over
//! integers, so that every contract below is checked by Verus.
use vstd::prelude::*;

pub mod error;
pub mod helper;
pub mod ta;
pub mod types;

pub use error::KandError;
pub use ta::ohlcv;

verus! {

/// Integer type used for indicator outputs such as candle signals and trend directions.
pub type TAInt = i64;

/// Type of indicator periods and lookback windows.
pub type TAPeriod = usize;

} // verus!
