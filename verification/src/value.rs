use vstd::prelude::*;
use crate::rational::{Q, Rat, q_eq, q_le, q_wf, q_zero};

verus! {

/// Failures of waveform construction or of synthesis.
#[derive(Clone, Copy, Debug, PartialEq, Eq, Structural)]
pub enum SignalError {
    /// A parameter outside its documented domain, such as a non-positive
    /// frequency for a periodic waveform or a probability outside `[0, 1]`.
    InvalidParameter,
    /// Synthesis was requested while no waveform is registered, so no signal
    /// duration is defined.
    EmptyCollection,
}

/// The value carried by one sample.
///
/// Rational values are exact. Values that only a transcendental function can
/// produce are kept symbolic, pinned down by exact rational arguments; a host
/// turns them into machine numbers when it renders the signal.
#[derive(Clone, Copy, Debug, PartialEq, Eq, Structural)]
pub enum SampleValue {
    /// An exactly known rational value.
    Exact(Rat),
    /// `amplitude * sin(TAU * turns + shift)`: `turns` counts whole periods
    /// passed at the sample instant and `shift` is a phase in radians.
    Sine { amplitude: Rat, turns: Rat, shift: Rat },
    /// `max(0, amplitude * sin(TAU * turns + shift))`: the half-wave
    /// rectified sine value.
    HalfSine { amplitude: Rat, turns: Rat, shift: Rat },
    /// `abs(amplitude * sin(TAU * turns + shift))`: the full-wave rectified
    /// sine value.
    FullSine { amplitude: Rat, turns: Rat, shift: Rat },
    /// `amplitude` times a fresh draw from the standard normal distribution,
    /// to be drawn by the host when the signal is rendered.
    Gauss { amplitude: Rat },
}

/// One sample: an absolute instant `x` in seconds and the value `y` there.
#[derive(Clone, Copy, Debug, PartialEq, Eq, Structural)]
pub struct CoordPair {
    pub x: Rat,
    pub y: SampleValue,
}

/// `y` is an exactly known value equal to the rational `v`.
pub open spec fn exact_sample(v: Q, y: SampleValue) -> bool {
    match y {
        SampleValue::Exact(r) => q_wf(r@) && q_eq(r@, v),
        _ => false,
    }
}

/// The sample value is non-negative whatever the sine function returns:
/// a clamp or an absolute value, or an exact value at least zero.
pub open spec fn known_nonneg(y: SampleValue) -> bool {
    match y {
        SampleValue::Exact(r) => q_le(q_zero(), r@),
        SampleValue::Sine { .. } => false,
        SampleValue::HalfSine { .. } => true,
        SampleValue::FullSine { .. } => true,
        SampleValue::Gauss { .. } => false,
    }
}

/// The half-wave rectified form of a plain sine value.
pub open spec fn half_of(y: SampleValue) -> SampleValue {
    match y {
        SampleValue::Sine { amplitude, turns, shift } => SampleValue::HalfSine {
            amplitude,
            turns,
            shift,
        },
        _ => y,
    }
}

/// The full-wave rectified form of a plain sine value.
pub open spec fn full_of(y: SampleValue) -> SampleValue {
    match y {
        SampleValue::Sine { amplitude, turns, shift } => SampleValue::FullSine {
            amplitude,
            turns,
            shift,
        },
        _ => y,
    }
}

} // verus!
