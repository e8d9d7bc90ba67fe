use rand::SeedableRng;
use rand::rngs::StdRng;
use wavesynth::processor::SignalProcessor;
use wavesynth::rational::Rat;
use wavesynth::value::{SampleValue, SignalError};

fn ratf(r: &Rat) -> f64 {
    r.num as f64 / r.den as f64
}

#[test]
fn synthesis_with_no_waveform_fails_with_empty_collection() {
    let p = SignalProcessor::new(Rat::whole(10), Rat::whole(0));
    let mut rng = StdRng::seed_from_u64(1);
    assert_eq!(p.get_signal(&mut rng).unwrap_err(), SignalError::EmptyCollection);
}

#[test]
fn synthesis_count_matches_grid_of_own_end_time() {
    // one sine of duration 2 s at 10 Hz sampling: 20 samples
    let mut p = SignalProcessor::new(Rat::whole(10), Rat::whole(0));
    p.add_sine(Rat::whole(1), Rat::whole(2), Rat::whole(0), Rat::whole(1), Rat::whole(0))
        .unwrap();
    let mut rng = StdRng::seed_from_u64(1);
    let out = p.get_signal(&mut rng).unwrap();
    assert_eq!(out.len(), 20);
    for (i, s) in out.iter().enumerate() {
        assert!((ratf(&s.x) - 0.1 * i as f64).abs() < 1e-12);
    }
}

#[test]
fn synthesis_surfaces_only_the_first_waveform() {
    // the grid spans the longest registered waveform, but only the first
    // one is sampled
    let mut p = SignalProcessor::new(Rat::whole(4), Rat::whole(0));
    p.add_unit_jump(Rat::new(1, 2), Rat::whole(1), Rat::whole(0), Rat::whole(7));
    p.add_sine(Rat::whole(1), Rat::whole(3), Rat::whole(0), Rat::whole(1), Rat::whole(0))
        .unwrap();
    let mut rng = StdRng::seed_from_u64(1);
    let out = p.get_signal(&mut rng).unwrap();
    // grid spans 3 s at 4 Hz: 12 samples
    assert_eq!(out.len(), 12);
    for s in &out {
        match &s.y {
            SampleValue::Exact(v) => {
                let expected = if ratf(&s.x) > 0.5 { 7.0 } else { 0.0 };
                assert_eq!(ratf(v), expected);
            }
            _ => panic!("jump samples expected"),
        }
    }
}

#[test]
fn synthesis_uses_the_largest_end_time() {
    let mut p = SignalProcessor::new(Rat::whole(2), Rat::whole(0));
    p.add_sine(Rat::whole(1), Rat::whole(1), Rat::whole(0), Rat::whole(1), Rat::whole(0))
        .unwrap();
    // second waveform ends later: start offset 1 s, duration 4 s
    p.add_unit_pulse(Rat::whole(0), Rat::whole(4), Rat::whole(1), Rat::whole(1));
    let mut rng = StdRng::seed_from_u64(1);
    let out = p.get_signal(&mut rng).unwrap();
    // grid spans 5 s at 2 Hz
    assert_eq!(out.len(), 10);
}

#[test]
fn synthesis_starts_at_the_starting_time() {
    let mut p = SignalProcessor::new(Rat::whole(2), Rat::whole(3));
    p.add_normal_noise(Rat::whole(1), Rat::whole(0), Rat::whole(1));
    let mut rng = StdRng::seed_from_u64(1);
    let out = p.get_signal(&mut rng).unwrap();
    assert_eq!(out.len(), 2);
    assert!((ratf(&out[0].x) - 3.0).abs() < 1e-12);
    assert!((ratf(&out[1].x) - 3.5).abs() < 1e-12);
}

#[test]
fn adders_reject_invalid_parameters() {
    let mut p = SignalProcessor::new(Rat::whole(10), Rat::whole(0));
    let r = p.add_sine(Rat::whole(0), Rat::whole(1), Rat::whole(0), Rat::whole(1), Rat::whole(0));
    assert_eq!(r.unwrap_err(), SignalError::InvalidParameter);
    let r = p.add_triangular(Rat::whole(1), Rat::whole(1), Rat::whole(0), Rat::whole(1),
        Rat::whole(0));
    assert_eq!(r.unwrap_err(), SignalError::InvalidParameter);
    let r = p.add_unit_noise(Rat::whole(2), Rat::whole(1), Rat::whole(0), Rat::whole(1));
    assert_eq!(r.unwrap_err(), SignalError::InvalidParameter);
    let r = p.add_uniform_noise(Rat::whole(1), Rat::whole(0), Rat::whole(0));
    assert_eq!(r.unwrap_err(), SignalError::InvalidParameter);
    // nothing was registered, so synthesis still reports the empty collection
    let mut rng = StdRng::seed_from_u64(1);
    assert_eq!(p.get_signal(&mut rng).unwrap_err(), SignalError::EmptyCollection);
}
