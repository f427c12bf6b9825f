//! Offline rendering of a MIDI performance through an instrument bank into a
//! stereo floating-point WAVE container.
//!
//! The library decides and computes; it touches no file. The caller reads
//! and parses the two input files and runs the synthesizer, and the library
//! takes each result, says what comes next, and makes the finished container
//! as bytes.

pub mod config;
pub mod encode;
pub mod engine;
pub mod error;
pub mod frames;
pub mod render;
