use std::f64::consts::TAU;
use wavesynth::grid::linspace_by_freq;
use wavesynth::rational::Rat;
use wavesynth::signals::{
    FullWaveRectifiedSineSignal, HalfWaveRectifiedSineSignal, RectangularSignal, SineSignal,
    SymmetricRectangularSignal, TriangularSignal, UnitJump, UnitPulse,
};
use wavesynth::value::{SampleValue, SignalError};

fn ratf(r: &Rat) -> f64 {
    r.num as f64 / r.den as f64
}

/// Numeric value of a sample, for the deterministic variants.
fn value_f(v: &SampleValue) -> f64 {
    match v {
        SampleValue::Exact(r) => ratf(r),
        SampleValue::Sine { amplitude, turns, shift } => {
            ratf(amplitude) * (TAU * ratf(turns) + ratf(shift)).sin()
        }
        SampleValue::HalfSine { amplitude, turns, shift } => {
            (ratf(amplitude) * (TAU * ratf(turns) + ratf(shift)).sin()).max(0.0)
        }
        SampleValue::FullSine { amplitude, turns, shift } => {
            (ratf(amplitude) * (TAU * ratf(turns) + ratf(shift)).sin()).abs()
        }
        SampleValue::Gauss { .. } => panic!("deterministic value expected"),
    }
}

fn unit_grid(points_per_second: i64, seconds: i64) -> Vec<Rat> {
    linspace_by_freq(&Rat::whole(0), &Rat::whole(seconds), &Rat::whole(points_per_second)).unwrap()
}

#[test]
fn sine_quarter_period_reads_one() {
    // freq=1, duration=1, amplitude=1, phase 0: at t = 0.25 the value is
    // sin(TAU * 0.25) = 1.
    let s = SineSignal::new(Rat::whole(1), Rat::whole(1), Rat::whole(0), Rat::whole(1),
        Rat::whole(0)).unwrap();
    let grid = unit_grid(4, 1);
    let out = s.calculate_signal(&grid);
    assert_eq!(out.len(), 4);
    assert!((ratf(&out[1].x) - 0.25).abs() < 1e-12);
    assert!((value_f(&out[1].y) - 1.0).abs() < 1e-9);
    // the symbolic sample pins turns = freq * t = 1/4 exactly
    match &out[1].y {
        SampleValue::Sine { turns, .. } => {
            assert_eq!(turns.num * 4, turns.den);
        }
        _ => panic!("sine sample expected"),
    }
}

#[test]
fn sine_rejects_nonpositive_frequency() {
    let r = SineSignal::new(Rat::whole(0), Rat::whole(1), Rat::whole(0), Rat::whole(1),
        Rat::whole(0));
    assert_eq!(r.unwrap_err(), SignalError::InvalidParameter);
}

#[test]
fn rectified_sines_never_negative_and_full_is_abs() {
    let half = HalfWaveRectifiedSineSignal::new(Rat::whole(3), Rat::whole(2), Rat::whole(0),
        Rat::new(5, 4), Rat::new(1, 3)).unwrap();
    let full = FullWaveRectifiedSineSignal::new(Rat::whole(3), Rat::whole(2), Rat::whole(0),
        Rat::new(5, 4), Rat::new(1, 3)).unwrap();
    let plain = SineSignal::new(Rat::whole(3), Rat::whole(2), Rat::whole(0), Rat::new(5, 4),
        Rat::new(1, 3)).unwrap();
    let grid = unit_grid(100, 2);
    let out_h = half.calculate_signal(&grid);
    let out_f = full.calculate_signal(&grid);
    let out_s = plain.calculate_signal(&grid);
    for i in 0..grid.len() {
        let vh = value_f(&out_h[i].y);
        let vf = value_f(&out_f[i].y);
        let vs = value_f(&out_s[i].y);
        assert!(vh >= 0.0);
        assert!(vf >= 0.0);
        assert!((vf - vs.abs()).abs() < 1e-12);
        assert!((vh - vs.max(0.0)).abs() < 1e-12);
    }
}

#[test]
fn unit_jump_is_strict_at_the_flip_instant() {
    // flip_offset = 0.5, start_offset = 0: t = 0.5 reads 0, any instant
    // past it reads the amplitude.
    let s = UnitJump::new(Rat::new(1, 2), Rat::whole(1), Rat::whole(0), Rat::whole(3));
    let t_at = Rat::new(1, 2);
    let t_past = Rat::new(50001, 100000);
    let grid = vec![Rat::whole(0), t_at, t_past];
    let out = s.calculate_signal(&grid);
    assert_eq!(value_f(&out[0].y), 0.0);
    assert_eq!(value_f(&out[1].y), 0.0);
    assert_eq!(value_f(&out[2].y), 3.0);
}

#[test]
fn unit_pulse_marks_exactly_one_sample() {
    // target at 0.3 over [0.0, 0.25, 0.5, 0.75]: nearest is 0.25
    let s = UnitPulse::new(Rat::new(3, 10), Rat::whole(1), Rat::whole(0), Rat::whole(2));
    let grid = unit_grid(4, 1);
    let out = s.calculate_signal(&grid);
    let mut hits = 0;
    for p in &out {
        if value_f(&p.y) != 0.0 {
            hits += 1;
            assert_eq!(value_f(&p.y), 2.0);
            assert!((ratf(&p.x) - 0.25).abs() < 1e-12);
        }
    }
    assert_eq!(hits, 1);
}

#[test]
fn unit_pulse_first_wins_ties() {
    // target 0.375 is equally far from 0.25 and 0.5: the earlier instant
    // keeps the pulse.
    let s = UnitPulse::new(Rat::new(3, 8), Rat::whole(1), Rat::whole(0), Rat::whole(1));
    let grid = unit_grid(4, 1);
    let out = s.calculate_signal(&grid);
    assert_eq!(value_f(&out[1].y), 1.0);
    assert_eq!(value_f(&out[2].y), 0.0);
}

#[test]
fn symmetric_rectangular_splits_the_period_evenly() {
    // duty 1/2 at 1 Hz: sampling clear of the boundary, half of the
    // instants in each period read +amplitude, half -amplitude
    let s = SymmetricRectangularSignal::new(Rat::whole(1), Rat::whole(1), Rat::whole(0),
        Rat::whole(2), Rat::new(1, 2)).unwrap();
    let grid = linspace_by_freq(&Rat::new(1, 20), &Rat::new(21, 20), &Rat::whole(10)).unwrap();
    assert_eq!(grid.len(), 10);
    let out = s.calculate_signal(&grid);
    let high = out.iter().filter(|p| value_f(&p.y) > 0.0).count();
    let low = out.iter().filter(|p| value_f(&p.y) < 0.0).count();
    assert_eq!(high, 5);
    assert_eq!(low, 5);
}

#[test]
fn symmetric_rectangular_boundary_is_high() {
    // the flip instant itself still reads +amplitude: offset <= flip
    let s = SymmetricRectangularSignal::new(Rat::whole(1), Rat::whole(1), Rat::whole(0),
        Rat::whole(2), Rat::new(1, 2)).unwrap();
    let grid = vec![Rat::whole(0), Rat::new(1, 2), Rat::new(3, 4)];
    let out = s.calculate_signal(&grid);
    assert_eq!(value_f(&out[0].y), 2.0);
    assert_eq!(value_f(&out[1].y), 2.0);
    assert_eq!(value_f(&out[2].y), -2.0);
}

#[test]
fn rectangular_is_clamped_symmetric() {
    let sym = SymmetricRectangularSignal::new(Rat::whole(2), Rat::whole(1), Rat::whole(0),
        Rat::whole(3), Rat::new(1, 4)).unwrap();
    let rect = RectangularSignal::new(Rat::whole(2), Rat::whole(1), Rat::whole(0), Rat::whole(3),
        Rat::new(1, 4)).unwrap();
    let grid = unit_grid(40, 1);
    let out_s = sym.calculate_signal(&grid);
    let out_r = rect.calculate_signal(&grid);
    for i in 0..grid.len() {
        assert_eq!(value_f(&out_r[i].y), value_f(&out_s[i].y).max(0.0));
    }
}

#[test]
fn rectangular_rejects_duty_cycle_out_of_range() {
    let r = RectangularSignal::new(Rat::whole(1), Rat::whole(1), Rat::whole(0), Rat::whole(1),
        Rat::new(3, 2));
    assert_eq!(r.unwrap_err(), SignalError::InvalidParameter);
    let r = SymmetricRectangularSignal::new(Rat::whole(1), Rat::whole(1), Rat::whole(0),
        Rat::whole(1), Rat::new(-1, 2));
    assert_eq!(r.unwrap_err(), SignalError::InvalidParameter);
}

#[test]
fn triangular_exact_values() {
    // freq 1, duty 1/2, amplitude 2: descending from 1 at each period start
    // to 0 at the flip, then ascending back.
    let s = TriangularSignal::new(Rat::whole(1), Rat::whole(1), Rat::whole(0), Rat::whole(2),
        Rat::new(1, 2)).unwrap();
    let grid = unit_grid(4, 1);
    let out = s.calculate_signal(&grid);
    // t=0: 1 - 0/0.5 = 1 -> 2; t=0.25: 1 - 0.25/0.5 = 0.5 -> 1
    // t=0.5: 1 - 0.5/0.5 = 0 -> 0; t=0.75: (0.75-0.5)/(1-0.5) = 0.5 -> 1
    let expect = [2.0, 1.0, 0.0, 1.0];
    for i in 0..4 {
        assert!((value_f(&out[i].y) - expect[i]).abs() < 1e-12);
    }
}

#[test]
fn triangular_rejects_zero_duty_cycle() {
    // duty 0 would divide by zero on the descending segment
    let r = TriangularSignal::new(Rat::whole(1), Rat::whole(1), Rat::whole(0), Rat::whole(1),
        Rat::whole(0));
    assert_eq!(r.unwrap_err(), SignalError::InvalidParameter);
}

#[test]
fn signal_end_is_start_offset_plus_duration() {
    let s = SineSignal::new(Rat::whole(2), Rat::new(3, 2), Rat::new(1, 4), Rat::whole(1),
        Rat::whole(0)).unwrap();
    assert!((ratf(&s.get_signal_end()) - 1.75).abs() < 1e-12);
    let j = UnitJump::new(Rat::whole(0), Rat::whole(2), Rat::new(-1, 2), Rat::whole(1));
    assert!((ratf(&j.get_signal_end()) - 1.5).abs() < 1e-12);
}
