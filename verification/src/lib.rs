//! A small live-video segmenter: splits a raw H.264 Annex-B byte stream into
//! NAL units, groups them into independently playable segments, and decides
//! how a rolling window of recent segments is served to polling readers.
//!
//! The modules hold the policy and parsing logic; spawning the capture and
//! encode subprocesses, file handling and the HTTP transport live outside
//! this crate and call into it with plain values.

pub mod config;
pub mod delivery;
pub mod h264;
pub mod params;
pub mod ptr;
pub mod rotator;
pub mod store;
pub mod streams;
