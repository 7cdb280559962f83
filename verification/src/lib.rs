//! A streaming filter for NMEA 0183 sentence logs.
//!
//! The library tracks a rolling "current time" derived from timestamp-bearing
//! sentences, matches each sentence's sender and message codes against
//! configurable include/exclude pattern sets, and decides whether the original
//! line falls inside a configured inclusive time window.

pub mod config;
pub mod engine;
pub mod pattern;
pub mod sentence;
pub mod stream;
pub mod time;
pub mod window;
