use wavesynth::grid::linspace_by_freq;
use wavesynth::rational::Rat;
use wavesynth::value::SignalError;

fn ratf(r: &Rat) -> f64 {
    r.num as f64 / r.den as f64
}

#[test]
fn build_unit_interval_ten_hertz() {
    // build(0, 1, 10) yields exactly [0.0, 0.1, ..., 0.9]: ten points,
    // 0.9 included, 1.0 excluded.
    let start = Rat::whole(0);
    let end = Rat::whole(1);
    let freq = Rat::whole(10);
    let grid = linspace_by_freq(&start, &end, &freq).unwrap();
    assert_eq!(grid.len(), 10);
    for (i, t) in grid.iter().enumerate() {
        assert!((ratf(t) - 0.1 * i as f64).abs() < 1e-12);
    }
    assert!(ratf(grid.last().unwrap()) < 1.0);
}

#[test]
fn build_length_is_floor_of_span_times_freq() {
    // length = floor((end - start) * freq), elements = start + i / freq
    let start = Rat::new(1, 2);
    let end = Rat::new(7, 2);
    let freq = Rat::new(3, 1);
    let grid = linspace_by_freq(&start, &end, &freq).unwrap();
    // (7/2 - 1/2) * 3 = 9
    assert_eq!(grid.len(), 9);
    for (i, t) in grid.iter().enumerate() {
        assert!((ratf(t) - (0.5 + i as f64 / 3.0)).abs() < 1e-12);
    }
}

#[test]
fn build_fractional_count_truncates() {
    // (1 - 0) * 7/2 = 3.5 -> 3 points
    let grid = linspace_by_freq(&Rat::whole(0), &Rat::whole(1), &Rat::new(7, 2)).unwrap();
    assert_eq!(grid.len(), 3);
}

#[test]
fn build_empty_when_end_not_after_start() {
    let grid = linspace_by_freq(&Rat::whole(5), &Rat::whole(5), &Rat::whole(10)).unwrap();
    assert_eq!(grid.len(), 0);
    let grid = linspace_by_freq(&Rat::whole(5), &Rat::whole(3), &Rat::whole(10)).unwrap();
    assert_eq!(grid.len(), 0);
}

#[test]
fn build_rejects_nonpositive_frequency() {
    let r = linspace_by_freq(&Rat::whole(0), &Rat::whole(1), &Rat::whole(0));
    assert_eq!(r.unwrap_err(), SignalError::InvalidParameter);
    let r = linspace_by_freq(&Rat::whole(0), &Rat::whole(1), &Rat::new(-3, 1));
    assert_eq!(r.unwrap_err(), SignalError::InvalidParameter);
}

#[test]
fn build_negative_start() {
    let grid = linspace_by_freq(&Rat::new(-1, 1), &Rat::whole(1), &Rat::whole(2)).unwrap();
    assert_eq!(grid.len(), 4);
    assert!((ratf(&grid[0]) + 1.0).abs() < 1e-12);
    assert!((ratf(&grid[3]) - 0.5).abs() < 1e-12);
}
