//! Market-data core: a verified library for loading demo price records,
//! classifying live-provider responses with a single fallback hop,
//! reporting service health, and computing a trailing moving average.
//!
//! Prices are decimal fixed-point values: an `i64` counts ten-thousandths
//! of a currency unit, so the text `101.5` is stored as `1015000`.
//! All parsing works on bytes; the surrounding binary does the I/O and
//! hands byte strings in.

pub mod num;
pub mod schema;
pub mod demo;
pub mod sma;
pub mod live;
pub mod health;
