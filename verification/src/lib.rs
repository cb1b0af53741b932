//! Frame-based voice activity detection over linear PCM audio.
//!
//! A [`detector::Detector`] owns a configuration (sample rate and
//! aggressiveness mode) together with the adaptive state of an underlying
//! classification engine. Frames of 10, 20 or 30 ms at one of the telephony
//! sample rates are classified one at a time as voice-bearing or not.
//! [`registry::DetectorRegistry`] hands out opaque integer handles for
//! detectors, so that a host holding only a token can drive the full
//! lifecycle, with every operation on a destroyed handle rejected.

pub mod config;
pub mod detector;
pub mod engine;
pub mod errors;
pub mod exception;
pub mod registry;
