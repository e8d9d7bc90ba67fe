use rand::SeedableRng;
use rand::rngs::StdRng;
use wavesynth::grid::linspace_by_freq;
use wavesynth::rational::Rat;
use wavesynth::signals::{NormalNoise, UniformNoise, UnitNoise};
use wavesynth::value::{SampleValue, SignalError};

fn ratf(r: &Rat) -> f64 {
    r.num as f64 / r.den as f64
}

fn long_grid() -> Vec<Rat> {
    // 10_000 instants
    linspace_by_freq(&Rat::whole(0), &Rat::whole(10), &Rat::whole(1000)).unwrap()
}

#[test]
fn uniform_noise_one_draw_per_instant_within_bounds() {
    let s = UniformNoise::new(Rat::whole(10), Rat::whole(0), Rat::new(3, 2)).unwrap();
    let grid = long_grid();
    let mut rng = StdRng::seed_from_u64(7);
    let out = s.calculate_signal(&grid, &mut rng);
    assert_eq!(out.len(), grid.len());
    for p in &out {
        match &p.y {
            SampleValue::Exact(v) => {
                let x = ratf(v);
                assert!(-1.5 <= x && x < 1.5);
            }
            _ => panic!("exact value expected"),
        }
    }
}

#[test]
fn uniform_noise_rejects_nonpositive_amplitude() {
    let r = UniformNoise::new(Rat::whole(1), Rat::whole(0), Rat::whole(0));
    assert_eq!(r.unwrap_err(), SignalError::InvalidParameter);
    let r = UniformNoise::new(Rat::whole(1), Rat::whole(0), Rat::new(-1, 1));
    assert_eq!(r.unwrap_err(), SignalError::InvalidParameter);
}

#[test]
fn normal_noise_one_symbolic_draw_per_instant() {
    let s = NormalNoise::new(Rat::whole(1), Rat::whole(0), Rat::new(5, 2));
    let grid = linspace_by_freq(&Rat::whole(0), &Rat::whole(1), &Rat::whole(100)).unwrap();
    let out = s.calculate_signal(&grid);
    assert_eq!(out.len(), 100);
    for p in &out {
        match &p.y {
            SampleValue::Gauss { amplitude } => {
                assert_eq!(ratf(amplitude), 2.5);
            }
            _ => panic!("gauss value expected"),
        }
    }
}

#[test]
fn unit_noise_values_are_amplitude_or_zero() {
    let s = UnitNoise::new(Rat::new(1, 2), Rat::whole(10), Rat::whole(0), Rat::whole(4)).unwrap();
    let grid = long_grid();
    let mut rng = StdRng::seed_from_u64(11);
    let out = s.calculate_signal(&grid, &mut rng);
    assert_eq!(out.len(), grid.len());
    let mut highs = 0usize;
    for p in &out {
        match &p.y {
            SampleValue::Exact(v) => {
                let x = ratf(v);
                assert!(x == 4.0 || x == 0.0);
                if x == 4.0 {
                    highs += 1;
                }
            }
            _ => panic!("exact value expected"),
        }
    }
    // roughly half at probability 1/2 over 10_000 draws
    assert!(3500 < highs && highs < 6500);
}

#[test]
fn unit_noise_extreme_probabilities() {
    let grid = linspace_by_freq(&Rat::whole(0), &Rat::whole(1), &Rat::whole(100)).unwrap();
    let all = UnitNoise::new(Rat::whole(1), Rat::whole(1), Rat::whole(0), Rat::whole(2)).unwrap();
    let none = UnitNoise::new(Rat::whole(0), Rat::whole(1), Rat::whole(0), Rat::whole(2)).unwrap();
    let mut rng = StdRng::seed_from_u64(3);
    for p in all.calculate_signal(&grid, &mut rng) {
        match &p.y {
            SampleValue::Exact(v) => assert_eq!(ratf(v), 2.0),
            _ => panic!("exact value expected"),
        }
    }
    for p in none.calculate_signal(&grid, &mut rng) {
        match &p.y {
            SampleValue::Exact(v) => assert_eq!(ratf(v), 0.0),
            _ => panic!("exact value expected"),
        }
    }
}

#[test]
fn unit_noise_rejects_probability_out_of_range() {
    let r = UnitNoise::new(Rat::new(3, 2), Rat::whole(1), Rat::whole(0), Rat::whole(1));
    assert_eq!(r.unwrap_err(), SignalError::InvalidParameter);
    let r = UnitNoise::new(Rat::new(-1, 2), Rat::whole(1), Rat::whole(0), Rat::whole(1));
    assert_eq!(r.unwrap_err(), SignalError::InvalidParameter);
}
