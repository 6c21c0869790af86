//! A once-per-UTC-day bonus with streak tracking, held in a time-expiring cache.
//!
//! The key scheme, the cache model, the check/claim engine and the plain values that
//! travel around it are verified here; the HTTP service around the library lives elsewhere.

pub mod calendar;
pub mod key;
pub mod store;
pub mod engine;
pub mod laws;
pub mod auth;
pub mod payout;
pub mod responses;
