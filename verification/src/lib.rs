//! Discrete waveform synthesis over an exact rational time base.
//!
//! Times, amplitudes and every parameter of a waveform are exact rational
//! numbers. Sample values that only a transcendental function can produce
//! (the sine family, normally distributed noise) are returned in a symbolic
//! form that a host evaluates numerically; everything else is an exact
//! rational value.

pub mod rational;
pub mod value;
pub mod grid;
pub mod rng;
pub mod signals;
pub mod processor;
