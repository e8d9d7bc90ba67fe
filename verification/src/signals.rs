use vstd::prelude::*;
use crate::grid::{GRID_DEN_BOUND, GRID_NUM_BOUND, grid_ok, instant_ok};
use crate::rational::{
    PARAM_DEN_BOUND, PARAM_NUM_BOUND, Q, Rat, fits_i128, lemma_mul3_shuffle, lemma_mul4_shuffle,
    lemma_mul_bounds, lemma_mul_cancel, lemma_mul_comm, lemma_pos_mul_bounds, lemma_pos_mul_pos,
    lemma_q_clamp0_congruence, lemma_q_eq_scale, lemma_q_eq_trans, lemma_q_lt_le_trans,
    lemma_q_mul_congruence, lemma_q_pos_num, param_ok, q_abs, q_add,
    q_bounded, q_clamp0, q_div, q_eq, q_le, q_lt, q_mod, q_mul, q_neg, q_one, q_scale, q_sub,
    q_wf, q_zero, rat_add, rat_lt, rat_mul, rat_neg, trunc_div, trunc_div_rem,
};
use crate::rng::{bernoulli_hit, bernoulli_value, next_random, uniform_value};
use crate::value::{CoordPair, SampleValue, SignalError, exact_sample, full_of, half_of,
    known_nonneg};

verus! {

/// Bound on the numerator magnitude of a waveform's end time.
pub const END_TIME_NUM_BOUND: i128 = 2_000_000_000_000_000_000;

/// Bound on the denominator of a waveform's end time.
pub const END_TIME_DEN_BOUND: i128 = 1_000_000_000_000;

/// Every waveform ends at `start_offset + duration`.
pub open spec fn end_time_q(start_offset: Q, duration: Q) -> Q {
    q_add(start_offset, duration)
}

/// `start_offset + duration`, exactly.
fn end_time_of(start_offset: &Rat, duration: &Rat) -> (r: Rat)
    requires
        param_ok(start_offset@),
        param_ok(duration@),
    ensures
        r@ == end_time_q(start_offset@, duration@),
        q_wf(r@),
        q_bounded(r@, END_TIME_NUM_BOUND as int, END_TIME_DEN_BOUND as int),
{
    proof {
        lemma_mul_bounds(start_offset@.n, duration@.d, PARAM_NUM_BOUND as int, PARAM_DEN_BOUND
            as int);
        lemma_mul_bounds(duration@.n, start_offset@.d, PARAM_NUM_BOUND as int, PARAM_DEN_BOUND
            as int);
        lemma_pos_mul_bounds(start_offset@.d, duration@.d, PARAM_DEN_BOUND as int, PARAM_DEN_BOUND
            as int);
    }
    rat_add(start_offset, duration)
}

/// How far into its current period the instant `t` lies, as a fraction of
/// the period: the fractional part of `freq * t`, with the sign of `t`. The
/// offset within the period of the spec formulas is exactly `period` times
/// this fraction, and the flip point is `period` times the duty cycle.
pub open spec fn phase_frac(freq: Q, t: Q) -> Q {
    q_mod(q_mul(freq, t), q_one())
}

/// Numerator and denominator of `phase_frac(freq, t)`, exactly.
fn phase_parts(freq: &Rat, t: &Rat) -> (nm: (i128, i128))
    requires
        q_wf(freq@),
        param_ok(freq@),
        freq@.n > 0,
        instant_ok(t@),
    ensures
        nm.0 as int == phase_frac(freq@, t@).n,
        nm.1 as int == phase_frac(freq@, t@).d,
        nm.1 > 0,
        -nm.1 < nm.0 < nm.1,
        nm.1 as int <= PARAM_DEN_BOUND as int * GRID_DEN_BOUND as int,
{
    proof {
        lemma_mul_bounds(freq@.n, t@.n, PARAM_NUM_BOUND as int, GRID_NUM_BOUND as int);
        lemma_pos_mul_bounds(freq@.d, t@.d, PARAM_DEN_BOUND as int, GRID_DEN_BOUND as int);
    }
    let tau_n: i128 = freq.numerator() * t.numerator();
    let tau_d: i128 = freq.denominator() * t.denominator();
    let (k, rem) = trunc_div_rem(tau_n, tau_d);
    (rem, tau_d)
}

/// Comparing the offset within the period against the flip point is the same
/// as comparing the phase fraction against the duty cycle: the offset is
/// `period * phase_frac` and the flip point is `period * duty`, and the
/// period is positive.
pub proof fn lemma_offset_vs_flip_by_phase(freq: Q, duty: Q, t: Q)
    requires
        q_wf(freq),
        q_wf(duty),
        q_wf(t),
        freq.n > 0,
    ensures
        q_lt(q_mul(q_div(q_one(), freq), duty), q_mod(t, q_div(q_one(), freq))) <==> q_lt(
            duty,
            phase_frac(freq, t),
        ),
        q_wf(q_mod(t, q_div(q_one(), freq))),
        q_wf(phase_frac(freq, t)),
{
    let fn_ = freq.n;
    let fd = freq.d;
    let tn = t.n;
    let td = t.d;
    let qn = duty.n;
    let qd = duty.d;
    let p = q_div(q_one(), freq);
    lemma_pos_mul_pos(td, fd);
    lemma_pos_mul_pos(fd, td);
    lemma_pos_mul_pos(td, fn_);
    // the two reduced quotients share the same truncation
    lemma_mul_comm(tn, fn_);
    lemma_mul_comm(td, fd);
    let k = trunc_div(q_div(t, p).n, q_div(t, p).d);
    assert(q_div(t, p).n == tn * fn_);
    assert(q_div(t, p).d == td * fd);
    assert(q_div(q_mul(freq, t), q_one()).n == fn_ * tn);
    assert(q_div(q_mul(freq, t), q_one()).d == fd * td);
    assert(trunc_div(tn * fn_, td * fd) == trunc_div(fn_ * tn, fd * td));
    let offset = q_mod(t, p);
    let phi = phase_frac(freq, t);
    // offset = (tn*fn - (fd*k)*td, td*fn); phi = (fn*tn - (1*k)*(fd*td), (fd*td)*1)
    lemma_mul3_shuffle(fd, k, td);
    assert(offset.n == tn * fn_ - k * (fd * td));
    assert(offset.d == td * fn_);
    assert(phi.n == fn_ * tn - k * (fd * td));
    assert(phi.d == fd * td);
    assert(offset.n == phi.n);
    let flip = q_mul(p, duty);
    assert(flip.n == fd * qn);
    assert(flip.d == fn_ * qd);
    // q_lt(flip, offset): (fd*qn)*(td*fn) < offset.n*(fn*qd)
    // q_lt(duty, phi):    qn*(fd*td)     < phi.n*qd
    lemma_mul4_shuffle(fd, qn, td, fn_);
    lemma_mul3_shuffle(fd * td, qn, fn_);
    lemma_mul_comm(qn, fd * td);
    assert((fd * qn) * (td * fn_) == (qn * (fd * td)) * fn_);
    lemma_mul3_shuffle(phi.n, qd, fn_);
    lemma_mul_comm(fn_, qd);
    assert(offset.n * (fn_ * qd) == (phi.n * qd) * fn_);
    lemma_mul_cancel(qn * (fd * td), phi.n * qd, fn_);
}

/// Distance from the target instant to a sample instant.
pub open spec fn pulse_dist(flip: Q, t: Q) -> Q {
    q_abs(q_sub(flip, t))
}

/// Index of the sample instant nearest to the target among the first `n`,
/// the earliest winning ties: a later instant replaces the running choice
/// only when its distance is strictly smaller.
pub open spec fn nearest_upto(flip: Q, pts: Seq<Rat>, n: int) -> int
    decreases n,
{
    if n <= 1 {
        0
    } else {
        let p = nearest_upto(flip, pts, n - 1);
        if q_lt(pulse_dist(flip, pts[n - 1]@), pulse_dist(flip, pts[p]@)) {
            n - 1
        } else {
            p
        }
    }
}

/// The nearest index is a minimizer, and the first one: every earlier index
/// is strictly farther from the target.
pub proof fn lemma_nearest_minimal(flip: Q, pts: Seq<Rat>, n: int)
    requires
        q_wf(flip),
        1 <= n <= pts.len(),
        forall|i: int| 0 <= i < pts.len() ==> q_wf(#[trigger] pts[i]@),
    ensures
        0 <= nearest_upto(flip, pts, n) < n,
        forall|i: int|
            0 <= i < n ==> q_le(
                pulse_dist(flip, pts[nearest_upto(flip, pts, n)]@),
                pulse_dist(flip, #[trigger] pts[i]@),
            ),
        forall|i: int|
            0 <= i < nearest_upto(flip, pts, n) ==> q_lt(
                pulse_dist(flip, pts[nearest_upto(flip, pts, n)]@),
                pulse_dist(flip, #[trigger] pts[i]@),
            ),
    decreases n,
{
    assert forall|i: int| 0 <= i < pts.len() implies q_wf(pulse_dist(flip, #[trigger] pts[i]@))
        by {
        lemma_pos_mul_pos(flip.d, pts[i]@.d);
    }
    if n == 1 {
    } else {
        lemma_nearest_minimal(flip, pts, n - 1);
        let p = nearest_upto(flip, pts, n - 1);
        let j = nearest_upto(flip, pts, n);
        if q_lt(pulse_dist(flip, pts[n - 1]@), pulse_dist(flip, pts[p]@)) {
            assert(j == n - 1);
            assert forall|i: int| 0 <= i < n - 1 implies q_lt(
                pulse_dist(flip, pts[j]@),
                pulse_dist(flip, #[trigger] pts[i]@),
            ) by {
                lemma_q_lt_le_trans(
                    pulse_dist(flip, pts[j]@),
                    pulse_dist(flip, pts[p]@),
                    pulse_dist(flip, pts[i]@),
                );
            }
        } else {
            assert(j == p);
        }
    }
}

/// The sine family: frequency in hertz, duration and start offset in
/// seconds, a dimensionless amplitude, and a phase shift in radians.
#[derive(Clone, Copy, Debug, PartialEq, Eq, Structural)]
pub struct SineSignal {
    pub signal_freq: Rat,
    pub duration: Rat,
    pub start_offset: Rat,
    pub amplitude: Rat,
    pub phase_shift: Rat,
}

/// Shared shape of the sine-family parameters: bounded, positive frequency.
pub open spec fn sine_params_ok(w: SineSignal) -> bool {
    &&& param_ok(w.signal_freq@)
    &&& param_ok(w.duration@)
    &&& param_ok(w.start_offset@)
    &&& param_ok(w.amplitude@)
    &&& param_ok(w.phase_shift@)
    &&& q_lt(q_zero(), w.signal_freq@)
}

/// `y` is the sine value of `w` at the instant `t`: the symbolic
/// `amplitude * sin(TAU * turns + shift)` with `turns = freq * t` and
/// `shift` the phase shift.
pub open spec fn sine_sample(w: SineSignal, t: Rat, y: SampleValue) -> bool {
    match y {
        SampleValue::Sine { amplitude, turns, shift } => {
            &&& amplitude == w.amplitude
            &&& shift == w.phase_shift
            &&& turns@ == q_mul(w.signal_freq@, t@)
        },
        _ => false,
    }
}

/// As `sine_sample`, clamped at zero.
pub open spec fn half_sine_sample(w: SineSignal, t: Rat, y: SampleValue) -> bool {
    match y {
        SampleValue::HalfSine { amplitude, turns, shift } => {
            &&& amplitude == w.amplitude
            &&& shift == w.phase_shift
            &&& turns@ == q_mul(w.signal_freq@, t@)
        },
        _ => false,
    }
}

/// As `sine_sample`, in absolute value.
pub open spec fn full_sine_sample(w: SineSignal, t: Rat, y: SampleValue) -> bool {
    match y {
        SampleValue::FullSine { amplitude, turns, shift } => {
            &&& amplitude == w.amplitude
            &&& shift == w.phase_shift
            &&& turns@ == q_mul(w.signal_freq@, t@)
        },
        _ => false,
    }
}

impl SineSignal {
    pub open spec fn wf(self) -> bool {
        sine_params_ok(self)
    }

    /// Rejects a non-positive frequency; every other parameter is taken as
    /// given.
    pub fn new(signal_freq: Rat, duration: Rat, start_offset: Rat, amplitude: Rat,
        phase_shift: Rat) -> (r: Result<Self, SignalError>)
        requires
            param_ok(signal_freq@),
            param_ok(duration@),
            param_ok(start_offset@),
            param_ok(amplitude@),
            param_ok(phase_shift@),
        ensures
            match r {
                Ok(s) => q_lt(q_zero(), signal_freq@) && s == (SineSignal {
                    signal_freq,
                    duration,
                    start_offset,
                    amplitude,
                    phase_shift,
                }) && s.wf(),
                Err(e) => e == SignalError::InvalidParameter && q_le(signal_freq@, q_zero()),
            },
    {
        let zero = Rat::whole(0);
        if rat_lt(&zero, &signal_freq) {
            Ok(SineSignal { signal_freq, duration, start_offset, amplitude, phase_shift })
        } else {
            Err(SignalError::InvalidParameter)
        }
    }

    /// One symbolic sine sample per instant.
    #[verifier::loop_isolation(false)]
    pub fn calculate_signal(&self, sampling_points: &Vec<Rat>) -> (r: Vec<CoordPair>)
        requires
            self.wf(),
            grid_ok(sampling_points@),
        ensures
            r@.len() == sampling_points@.len(),
            forall|i: int|
                0 <= i < r@.len() ==> (#[trigger] r@[i]).x == sampling_points@[i] && sine_sample(
                    *self,
                    sampling_points@[i],
                    r@[i].y,
                ),
    {
        let mut r: Vec<CoordPair> = Vec::new();
        let mut i: usize = 0;
        while i < sampling_points.len()
            invariant
                0 <= i <= sampling_points@.len(),
                r@.len() == i,
                forall|j: int|
                    0 <= j < i ==> (#[trigger] r@[j]).x == sampling_points@[j] && sine_sample(
                        *self,
                        sampling_points@[j],
                        r@[j].y,
                    ),
            decreases sampling_points@.len() - i,
        {
            let pt = sampling_points[i];
            proof {
                lemma_mul_bounds(self.signal_freq@.n, pt@.n, PARAM_NUM_BOUND as int, GRID_NUM_BOUND
                    as int);
                lemma_pos_mul_bounds(self.signal_freq@.d, pt@.d, PARAM_DEN_BOUND as int,
                    GRID_DEN_BOUND as int);
            }
            let turns = rat_mul(&self.signal_freq, &pt);
            r.push(CoordPair {
                x: pt,
                y: SampleValue::Sine { amplitude: self.amplitude, turns, shift: self.phase_shift },
            });
            i = i + 1;
        }
        r
    }

    pub fn get_signal_end(&self) -> (r: Rat)
        requires
            self.wf(),
        ensures
            r@ == end_time_q(self.start_offset@, self.duration@),
            q_wf(r@),
            q_bounded(r@, END_TIME_NUM_BOUND as int, END_TIME_DEN_BOUND as int),
    {
        end_time_of(&self.start_offset, &self.duration)
    }
}

/// Half-wave rectified sine: the sine value clamped to `[0, +infinity)`.
#[derive(Clone, Copy, Debug, PartialEq, Eq, Structural)]
pub struct HalfWaveRectifiedSineSignal {
    pub inner_sine: SineSignal,
}

impl HalfWaveRectifiedSineSignal {
    pub open spec fn wf(self) -> bool {
        self.inner_sine.wf()
    }

    pub fn new(signal_freq: Rat, duration: Rat, start_offset: Rat, amplitude: Rat,
        phase_shift: Rat) -> (r: Result<Self, SignalError>)
        requires
            param_ok(signal_freq@),
            param_ok(duration@),
            param_ok(start_offset@),
            param_ok(amplitude@),
            param_ok(phase_shift@),
        ensures
            match r {
                Ok(s) => q_lt(q_zero(), signal_freq@) && s.inner_sine == (SineSignal {
                    signal_freq,
                    duration,
                    start_offset,
                    amplitude,
                    phase_shift,
                }) && s.wf(),
                Err(e) => e == SignalError::InvalidParameter && q_le(signal_freq@, q_zero()),
            },
    {
        match SineSignal::new(signal_freq, duration, start_offset, amplitude, phase_shift) {
            Ok(inner_sine) => Ok(HalfWaveRectifiedSineSignal { inner_sine }),
            Err(e) => Err(e),
        }
    }

    /// One clamped symbolic sine sample per instant; never negative.
    #[verifier::loop_isolation(false)]
    pub fn calculate_signal(&self, sampling_points: &Vec<Rat>) -> (r: Vec<CoordPair>)
        requires
            self.wf(),
            grid_ok(sampling_points@),
        ensures
            r@.len() == sampling_points@.len(),
            forall|i: int|
                0 <= i < r@.len() ==> (#[trigger] r@[i]).x == sampling_points@[i]
                    && half_sine_sample(self.inner_sine, sampling_points@[i], r@[i].y)
                    && known_nonneg(r@[i].y),
    {
        let mut r: Vec<CoordPair> = Vec::new();
        let mut i: usize = 0;
        while i < sampling_points.len()
            invariant
                0 <= i <= sampling_points@.len(),
                r@.len() == i,
                forall|j: int|
                    0 <= j < i ==> (#[trigger] r@[j]).x == sampling_points@[j] && half_sine_sample(
                        self.inner_sine,
                        sampling_points@[j],
                        r@[j].y,
                    ) && known_nonneg(r@[j].y),
            decreases sampling_points@.len() - i,
        {
            let pt = sampling_points[i];
            proof {
                lemma_mul_bounds(self.inner_sine.signal_freq@.n, pt@.n, PARAM_NUM_BOUND as int,
                    GRID_NUM_BOUND as int);
                lemma_pos_mul_bounds(self.inner_sine.signal_freq@.d, pt@.d, PARAM_DEN_BOUND as int,
                    GRID_DEN_BOUND as int);
            }
            let turns = rat_mul(&self.inner_sine.signal_freq, &pt);
            r.push(CoordPair {
                x: pt,
                y: SampleValue::HalfSine {
                    amplitude: self.inner_sine.amplitude,
                    turns,
                    shift: self.inner_sine.phase_shift,
                },
            });
            i = i + 1;
        }
        r
    }

    pub fn get_signal_end(&self) -> (r: Rat)
        requires
            self.wf(),
        ensures
            r@ == end_time_q(self.inner_sine.start_offset@, self.inner_sine.duration@),
            q_wf(r@),
            q_bounded(r@, END_TIME_NUM_BOUND as int, END_TIME_DEN_BOUND as int),
    {
        end_time_of(&self.inner_sine.start_offset, &self.inner_sine.duration)
    }
}

/// Full-wave rectified sine: the absolute value of the sine value.
#[derive(Clone, Copy, Debug, PartialEq, Eq, Structural)]
pub struct FullWaveRectifiedSineSignal {
    pub inner_sine: SineSignal,
}

impl FullWaveRectifiedSineSignal {
    pub open spec fn wf(self) -> bool {
        self.inner_sine.wf()
    }

    pub fn new(signal_freq: Rat, duration: Rat, start_offset: Rat, amplitude: Rat,
        phase_shift: Rat) -> (r: Result<Self, SignalError>)
        requires
            param_ok(signal_freq@),
            param_ok(duration@),
            param_ok(start_offset@),
            param_ok(amplitude@),
            param_ok(phase_shift@),
        ensures
            match r {
                Ok(s) => q_lt(q_zero(), signal_freq@) && s.inner_sine == (SineSignal {
                    signal_freq,
                    duration,
                    start_offset,
                    amplitude,
                    phase_shift,
                }) && s.wf(),
                Err(e) => e == SignalError::InvalidParameter && q_le(signal_freq@, q_zero()),
            },
    {
        match SineSignal::new(signal_freq, duration, start_offset, amplitude, phase_shift) {
            Ok(inner_sine) => Ok(FullWaveRectifiedSineSignal { inner_sine }),
            Err(e) => Err(e),
        }
    }

    /// One absolute symbolic sine sample per instant; never negative.
    #[verifier::loop_isolation(false)]
    pub fn calculate_signal(&self, sampling_points: &Vec<Rat>) -> (r: Vec<CoordPair>)
        requires
            self.wf(),
            grid_ok(sampling_points@),
        ensures
            r@.len() == sampling_points@.len(),
            forall|i: int|
                0 <= i < r@.len() ==> (#[trigger] r@[i]).x == sampling_points@[i]
                    && full_sine_sample(self.inner_sine, sampling_points@[i], r@[i].y)
                    && known_nonneg(r@[i].y),
    {
        let mut r: Vec<CoordPair> = Vec::new();
        let mut i: usize = 0;
        while i < sampling_points.len()
            invariant
                0 <= i <= sampling_points@.len(),
                r@.len() == i,
                forall|j: int|
                    0 <= j < i ==> (#[trigger] r@[j]).x == sampling_points@[j] && full_sine_sample(
                        self.inner_sine,
                        sampling_points@[j],
                        r@[j].y,
                    ) && known_nonneg(r@[j].y),
            decreases sampling_points@.len() - i,
        {
            let pt = sampling_points[i];
            proof {
                lemma_mul_bounds(self.inner_sine.signal_freq@.n, pt@.n, PARAM_NUM_BOUND as int,
                    GRID_NUM_BOUND as int);
                lemma_pos_mul_bounds(self.inner_sine.signal_freq@.d, pt@.d, PARAM_DEN_BOUND as int,
                    GRID_DEN_BOUND as int);
            }
            let turns = rat_mul(&self.inner_sine.signal_freq, &pt);
            r.push(CoordPair {
                x: pt,
                y: SampleValue::FullSine {
                    amplitude: self.inner_sine.amplitude,
                    turns,
                    shift: self.inner_sine.phase_shift,
                },
            });
            i = i + 1;
        }
        r
    }

    pub fn get_signal_end(&self) -> (r: Rat)
        requires
            self.wf(),
        ensures
            r@ == end_time_q(self.inner_sine.start_offset@, self.inner_sine.duration@),
            q_wf(r@),
            q_bounded(r@, END_TIME_NUM_BOUND as int, END_TIME_DEN_BOUND as int),
    {
        end_time_of(&self.inner_sine.start_offset, &self.inner_sine.duration)
    }
}

/// The half-wave rectified samples are, pointwise, the clamped form of the
/// plain sine samples with the same parameters, and are never negative.
pub proof fn lemma_half_wave_is_clamped_sine(w: SineSignal, t: Rat, ys: SampleValue,
    yh: SampleValue)
    requires
        sine_sample(w, t, ys),
        half_sine_sample(w, t, yh),
    ensures
        yh == half_of(ys),
        known_nonneg(yh),
{
    match (ys, yh) {
        (
            SampleValue::Sine { turns: ts, .. },
            SampleValue::HalfSine { turns: th, .. },
        ) => {
            assert(ts@ == th@);
            assert(ts.num as int == th.num as int && ts.den as int == th.den as int);
            assert(ts == th);
        },
        _ => {
            assert(false);
        },
    }
}

/// The full-wave rectified samples are, pointwise, the absolute value of the
/// plain sine samples with the same parameters, and are never negative.
pub proof fn lemma_full_wave_is_abs_sine(w: SineSignal, t: Rat, ys: SampleValue, yf: SampleValue)
    requires
        sine_sample(w, t, ys),
        full_sine_sample(w, t, yf),
    ensures
        yf == full_of(ys),
        known_nonneg(yf),
{
    match (ys, yf) {
        (
            SampleValue::Sine { turns: ts, .. },
            SampleValue::FullSine { turns: tf, .. },
        ) => {
            assert(ts@ == tf@);
            assert(ts.num as int == tf.num as int && ts.den as int == tf.den as int);
            assert(ts == tf);
        },
        _ => {
            assert(false);
        },
    }
}

/// Value of the symmetric rectangular wave at `t`: with period `1 / freq`,
/// offset `t mod period` and flip point `period * duty`, the value is
/// `+amplitude` when `offset <= flip` and `-amplitude` past the flip point.
pub open spec fn sym_rect_value_q(freq: Q, duty: Q, amp: Q, t: Q) -> Q {
    let p = q_div(q_one(), freq);
    if q_lt(q_mul(p, duty), q_mod(t, p)) {
        q_neg(amp)
    } else {
        amp
    }
}

/// Value of the rectangular wave at `t`: the symmetric rectangular value
/// clamped to `[0, +infinity)`, so effectively `amplitude` or `0`.
pub open spec fn rect_value_q(freq: Q, duty: Q, amp: Q, t: Q) -> Q {
    q_clamp0(sym_rect_value_q(freq, duty, amp, t))
}

/// Value of the triangular wave at `t`, written over the phase fraction
/// `phi = phase_frac(freq, t)`. With offset `= period * phi` and flip point
/// `= period * duty`, this is the spec formula exactly: past the flip point
/// the fraction is `(offset - flip) / (period - flip) = (phi - duty) /
/// (1 - duty)`; before it, `1 - offset / flip = 1 - phi / duty`. The value
/// is the fraction times the amplitude.
pub open spec fn tri_value_q(freq: Q, duty: Q, amp: Q, t: Q) -> Q {
    let phi = phase_frac(freq, t);
    let frac = if q_lt(duty, phi) {
        q_div(q_sub(phi, duty), q_sub(q_one(), duty))
    } else {
        q_sub(q_one(), q_div(phi, duty))
    };
    q_mul(frac, amp)
}

/// Value of the unit jump at `t`: `amplitude` strictly past the global flip
/// instant `start_offset + flip_offset`, and `0` at and before it.
pub open spec fn jump_value_q(start_offset: Q, flip_offset: Q, amp: Q, t: Q) -> Q {
    if q_lt(q_add(start_offset, flip_offset), t) {
        amp
    } else {
        q_zero()
    }
}

/// Symmetric rectangular wave.
#[derive(Clone, Copy, Debug, PartialEq, Eq, Structural)]
pub struct SymmetricRectangularSignal {
    pub signal_freq: Rat,
    pub duration: Rat,
    pub start_offset: Rat,
    pub amplitude: Rat,
    /// Part of each period where the signal is high, between 0 and 1.
    pub duty_cycle: Rat,
}

impl SymmetricRectangularSignal {
    pub open spec fn wf(self) -> bool {
        &&& param_ok(self.signal_freq@)
        &&& param_ok(self.duration@)
        &&& param_ok(self.start_offset@)
        &&& param_ok(self.amplitude@)
        &&& param_ok(self.duty_cycle@)
        &&& q_lt(q_zero(), self.signal_freq@)
        &&& q_le(q_zero(), self.duty_cycle@)
        &&& q_le(self.duty_cycle@, q_one())
    }

    /// Rejects a non-positive frequency and a duty cycle outside `[0, 1]`.
    pub fn new(signal_freq: Rat, duration: Rat, start_offset: Rat, amplitude: Rat,
        duty_cycle: Rat) -> (r: Result<Self, SignalError>)
        requires
            param_ok(signal_freq@),
            param_ok(duration@),
            param_ok(start_offset@),
            param_ok(amplitude@),
            param_ok(duty_cycle@),
        ensures
            match r {
                Ok(s) => q_lt(q_zero(), signal_freq@) && q_le(q_zero(), duty_cycle@) && q_le(
                    duty_cycle@,
                    q_one(),
                ) && s == (SymmetricRectangularSignal {
                    signal_freq,
                    duration,
                    start_offset,
                    amplitude,
                    duty_cycle,
                }) && s.wf(),
                Err(e) => e == SignalError::InvalidParameter && (q_le(signal_freq@, q_zero())
                    || q_lt(duty_cycle@, q_zero()) || q_lt(q_one(), duty_cycle@)),
            },
    {
        let zero = Rat::whole(0);
        let one = Rat::whole(1);
        if rat_lt(&zero, &signal_freq) && !rat_lt(&duty_cycle, &zero) && !rat_lt(&one, &duty_cycle)
        {
            Ok(SymmetricRectangularSignal {
                signal_freq,
                duration,
                start_offset,
                amplitude,
                duty_cycle,
            })
        } else {
            Err(SignalError::InvalidParameter)
        }
    }

    /// One exact sample per instant: plus or minus the amplitude by the duty
    /// cycle rule.
    #[verifier::loop_isolation(false)]
    pub fn calculate_signal(&self, sampling_points: &Vec<Rat>) -> (r: Vec<CoordPair>)
        requires
            self.wf(),
            grid_ok(sampling_points@),
        ensures
            r@.len() == sampling_points@.len(),
            forall|i: int|
                0 <= i < r@.len() ==> (#[trigger] r@[i]).x == sampling_points@[i] && exact_sample(
                    sym_rect_value_q(
                        self.signal_freq@,
                        self.duty_cycle@,
                        self.amplitude@,
                        sampling_points@[i]@,
                    ),
                    r@[i].y,
                ),
    {
        let amp_neg = rat_neg(&self.amplitude);
        let mut r: Vec<CoordPair> = Vec::new();
        let mut i: usize = 0;
        while i < sampling_points.len()
            invariant
                0 <= i <= sampling_points@.len(),
                r@.len() == i,
                forall|j: int|
                    0 <= j < i ==> (#[trigger] r@[j]).x == sampling_points@[j] && exact_sample(
                        sym_rect_value_q(
                            self.signal_freq@,
                            self.duty_cycle@,
                            self.amplitude@,
                            sampling_points@[j]@,
                        ),
                        r@[j].y,
                    ),
            decreases sampling_points@.len() - i,
        {
            let pt = sampling_points[i];
            let exceeds = duty_exceeded(&self.signal_freq, &self.duty_cycle, &pt);
            let v = if exceeds {
                amp_neg
            } else {
                self.amplitude
            };
            r.push(CoordPair { x: pt, y: SampleValue::Exact(v) });
            i = i + 1;
        }
        r
    }

    pub fn get_signal_end(&self) -> (r: Rat)
        requires
            self.wf(),
        ensures
            r@ == end_time_q(self.start_offset@, self.duration@),
            q_wf(r@),
            q_bounded(r@, END_TIME_NUM_BOUND as int, END_TIME_DEN_BOUND as int),
    {
        end_time_of(&self.start_offset, &self.duration)
    }
}

/// Whether the offset of `t` within its period lies strictly past the flip
/// point `period * duty`.
fn duty_exceeded(freq: &Rat, duty: &Rat, t: &Rat) -> (r: bool)
    requires
        param_ok(freq@),
        param_ok(duty@),
        q_lt(q_zero(), freq@),
        q_le(q_zero(), duty@),
        q_le(duty@, q_one()),
        instant_ok(t@),
    ensures
        r == q_lt(q_mul(q_div(q_one(), freq@), duty@), q_mod(t@, q_div(q_one(), freq@))),
        r == q_lt(duty@, phase_frac(freq@, t@)),
{
    proof {
        lemma_q_pos_num(freq@);
    }
    let (phi_n, m) = phase_parts(freq, t);
    let qn: i128 = duty.numerator();
    let qd: i128 = duty.denominator();
    proof {
        assert(0 <= qn as int && qn as int <= qd as int);
        lemma_mul_bounds(qn as int, m as int, PARAM_DEN_BOUND as int, PARAM_DEN_BOUND as int
            * GRID_DEN_BOUND as int);
        lemma_mul_bounds(phi_n as int, qd as int, PARAM_DEN_BOUND as int * GRID_DEN_BOUND as int,
            PARAM_DEN_BOUND as int);
        lemma_offset_vs_flip_by_phase(freq@, duty@, t@);
    }
    qn * m < phi_n * qd
}

/// Rectangular wave: the symmetric rectangular value clamped at zero.
#[derive(Clone, Copy, Debug, PartialEq, Eq, Structural)]
pub struct RectangularSignal {
    pub inner_signal: SymmetricRectangularSignal,
}

impl RectangularSignal {
    pub open spec fn wf(self) -> bool {
        self.inner_signal.wf()
    }

    pub fn new(signal_freq: Rat, duration: Rat, start_offset: Rat, amplitude: Rat,
        duty_cycle: Rat) -> (r: Result<Self, SignalError>)
        requires
            param_ok(signal_freq@),
            param_ok(duration@),
            param_ok(start_offset@),
            param_ok(amplitude@),
            param_ok(duty_cycle@),
        ensures
            match r {
                Ok(s) => q_lt(q_zero(), signal_freq@) && q_le(q_zero(), duty_cycle@) && q_le(
                    duty_cycle@,
                    q_one(),
                ) && s.inner_signal == (SymmetricRectangularSignal {
                    signal_freq,
                    duration,
                    start_offset,
                    amplitude,
                    duty_cycle,
                }) && s.wf(),
                Err(e) => e == SignalError::InvalidParameter && (q_le(signal_freq@, q_zero())
                    || q_lt(duty_cycle@, q_zero()) || q_lt(q_one(), duty_cycle@)),
            },
    {
        match SymmetricRectangularSignal::new(signal_freq, duration, start_offset, amplitude,
            duty_cycle) {
            Ok(inner_signal) => Ok(RectangularSignal { inner_signal }),
            Err(e) => Err(e),
        }
    }

    /// One exact sample per instant: the amplitude or zero.
    #[verifier::loop_isolation(false)]
    pub fn calculate_signal(&self, sampling_points: &Vec<Rat>) -> (r: Vec<CoordPair>)
        requires
            self.wf(),
            grid_ok(sampling_points@),
        ensures
            r@.len() == sampling_points@.len(),
            forall|i: int|
                0 <= i < r@.len() ==> (#[trigger] r@[i]).x == sampling_points@[i] && exact_sample(
                    rect_value_q(
                        self.inner_signal.signal_freq@,
                        self.inner_signal.duty_cycle@,
                        self.inner_signal.amplitude@,
                        sampling_points@[i]@,
                    ),
                    r@[i].y,
                ) && known_nonneg(r@[i].y),
    {
        let w = &self.inner_signal;
        let amp_neg = rat_neg(&w.amplitude);
        let mut r: Vec<CoordPair> = Vec::new();
        let mut i: usize = 0;
        while i < sampling_points.len()
            invariant
                0 <= i <= sampling_points@.len(),
                r@.len() == i,
                forall|j: int|
                    0 <= j < i ==> (#[trigger] r@[j]).x == sampling_points@[j] && exact_sample(
                        rect_value_q(
                            self.inner_signal.signal_freq@,
                            self.inner_signal.duty_cycle@,
                            self.inner_signal.amplitude@,
                            sampling_points@[j]@,
                        ),
                        r@[j].y,
                    ) && known_nonneg(r@[j].y),
            decreases sampling_points@.len() - i,
        {
            let pt = sampling_points[i];
            let exceeds = duty_exceeded(&w.signal_freq, &w.duty_cycle, &pt);
            let v = if exceeds {
                amp_neg
            } else {
                w.amplitude
            };
            let clamped = if v.numerator() <= 0 {
                Rat::whole(0)
            } else {
                v
            };
            r.push(CoordPair { x: pt, y: SampleValue::Exact(clamped) });
            i = i + 1;
        }
        r
    }

    pub fn get_signal_end(&self) -> (r: Rat)
        requires
            self.wf(),
        ensures
            r@ == end_time_q(self.inner_signal.start_offset@, self.inner_signal.duration@),
            q_wf(r@),
            q_bounded(r@, END_TIME_NUM_BOUND as int, END_TIME_DEN_BOUND as int),
    {
        end_time_of(&self.inner_signal.start_offset, &self.inner_signal.duration)
    }
}

/// The rectangular samples are, pointwise, the symmetric rectangular samples
/// with the same parameters clamped at zero.
pub proof fn lemma_rectangular_clamps_symmetric(freq: Q, duty: Q, amp: Q, t: Q, ys: SampleValue,
    yr: SampleValue)
    requires
        q_wf(amp),
        exact_sample(sym_rect_value_q(freq, duty, amp, t), ys),
        exact_sample(rect_value_q(freq, duty, amp, t), yr),
    ensures
        match (ys, yr) {
            (SampleValue::Exact(a), SampleValue::Exact(b)) => q_eq(b@, q_clamp0(a@)),
            _ => false,
        },
{
    let sv = sym_rect_value_q(freq, duty, amp, t);
    assert(q_wf(sv));
    match (ys, yr) {
        (SampleValue::Exact(a), SampleValue::Exact(b)) => {
            lemma_q_clamp0_congruence(a@, sv);
            lemma_q_eq_trans(b@, q_clamp0(sv), q_clamp0(a@));
        },
        _ => {
            assert(false);
        },
    }
}

/// Triangular wave.
#[derive(Clone, Copy, Debug, PartialEq, Eq, Structural)]
pub struct TriangularSignal {
    pub signal_freq: Rat,
    pub duration: Rat,
    pub start_offset: Rat,
    pub amplitude: Rat,
    /// Position of the peak within each period, between 0 (exclusive: the
    /// rising segment would divide by zero) and 1.
    pub duty_cycle: Rat,
}

impl TriangularSignal {
    pub open spec fn wf(self) -> bool {
        &&& param_ok(self.signal_freq@)
        &&& param_ok(self.duration@)
        &&& param_ok(self.start_offset@)
        &&& param_ok(self.amplitude@)
        &&& param_ok(self.duty_cycle@)
        &&& q_lt(q_zero(), self.signal_freq@)
        &&& q_lt(q_zero(), self.duty_cycle@)
        &&& q_le(self.duty_cycle@, q_one())
    }

    /// Rejects a non-positive frequency and a duty cycle outside `(0, 1]`:
    /// a zero duty cycle would divide by zero in the descending segment.
    pub fn new(signal_freq: Rat, duration: Rat, start_offset: Rat, amplitude: Rat,
        duty_cycle: Rat) -> (r: Result<Self, SignalError>)
        requires
            param_ok(signal_freq@),
            param_ok(duration@),
            param_ok(start_offset@),
            param_ok(amplitude@),
            param_ok(duty_cycle@),
        ensures
            match r {
                Ok(s) => q_lt(q_zero(), signal_freq@) && q_lt(q_zero(), duty_cycle@) && q_le(
                    duty_cycle@,
                    q_one(),
                ) && s == (TriangularSignal {
                    signal_freq,
                    duration,
                    start_offset,
                    amplitude,
                    duty_cycle,
                }) && s.wf(),
                Err(e) => e == SignalError::InvalidParameter && (q_le(signal_freq@, q_zero())
                    || q_le(duty_cycle@, q_zero()) || q_lt(q_one(), duty_cycle@)),
            },
    {
        let zero = Rat::whole(0);
        let one = Rat::whole(1);
        if rat_lt(&zero, &signal_freq) && rat_lt(&zero, &duty_cycle) && !rat_lt(&one, &duty_cycle)
        {
            Ok(TriangularSignal { signal_freq, duration, start_offset, amplitude, duty_cycle })
        } else {
            Err(SignalError::InvalidParameter)
        }
    }

    /// One exact sample per instant: the triangular fraction times the
    /// amplitude.
    #[verifier::loop_isolation(false)]
    pub fn calculate_signal(&self, sampling_points: &Vec<Rat>) -> (r: Vec<CoordPair>)
        requires
            self.wf(),
            grid_ok(sampling_points@),
        ensures
            r@.len() == sampling_points@.len(),
            forall|i: int|
                0 <= i < r@.len() ==> (#[trigger] r@[i]).x == sampling_points@[i] && exact_sample(
                    tri_value_q(
                        self.signal_freq@,
                        self.duty_cycle@,
                        self.amplitude@,
                        sampling_points@[i]@,
                    ),
                    r@[i].y,
                ),
    {
        let mut r: Vec<CoordPair> = Vec::new();
        let mut i: usize = 0;
        while i < sampling_points.len()
            invariant
                0 <= i <= sampling_points@.len(),
                r@.len() == i,
                forall|j: int|
                    0 <= j < i ==> (#[trigger] r@[j]).x == sampling_points@[j] && exact_sample(
                        tri_value_q(
                            self.signal_freq@,
                            self.duty_cycle@,
                            self.amplitude@,
                            sampling_points@[j]@,
                        ),
                        r@[j].y,
                    ),
            decreases sampling_points@.len() - i,
        {
            let pt = sampling_points[i];
            let v = self.tri_sample_at(&pt);
            r.push(CoordPair { x: pt, y: SampleValue::Exact(v) });
            i = i + 1;
        }
        r
    }

    /// The triangular value at one instant, exactly.
    fn tri_sample_at(&self, t: &Rat) -> (v: Rat)
        requires
            self.wf(),
            instant_ok(t@),
        ensures
            q_wf(v@),
            q_eq(v@, tri_value_q(self.signal_freq@, self.duty_cycle@, self.amplitude@, t@)),
    {
        let ghost phi = phase_frac(self.signal_freq@, t@);
        let ghost duty = self.duty_cycle@;
        let ghost nb: int = 2 * (PARAM_DEN_BOUND as int * GRID_DEN_BOUND as int) * (
        PARAM_DEN_BOUND as int);
        let ghost db: int = (PARAM_DEN_BOUND as int * GRID_DEN_BOUND as int) * (PARAM_DEN_BOUND
            as int);
        proof {
            lemma_q_pos_num(self.signal_freq@);
        }
        let (phi_n, m) = phase_parts(&self.signal_freq, t);
        let qn: i128 = self.duty_cycle.numerator();
        let qd: i128 = self.duty_cycle.denominator();
        proof {
            assert(0 < qn as int && qn as int <= qd as int);
            lemma_mul_bounds(qn as int, m as int, PARAM_DEN_BOUND as int, PARAM_DEN_BOUND as int
                * GRID_DEN_BOUND as int);
            lemma_mul_bounds(phi_n as int, qd as int, PARAM_DEN_BOUND as int * GRID_DEN_BOUND
                as int, PARAM_DEN_BOUND as int);
        }
        let exceeds = qn * m < phi_n * qd;
        let frac: Rat;
        let ghost spec_frac = if q_lt(duty, phi) {
            q_div(q_sub(phi, duty), q_sub(q_one(), duty))
        } else {
            q_sub(q_one(), q_div(phi, duty))
        };
        if exceeds {
            proof {
                // duty < phi < 1, so the descent span 1 - duty is positive
                assert(q_lt(duty, phi));
                assert(q_le(phi, q_one()));
                lemma_q_lt_le_trans(duty, phi, q_one());
                assert(qn < qd);
                lemma_pos_mul_bounds(m as int, (qd - qn) as int, PARAM_DEN_BOUND as int
                    * GRID_DEN_BOUND as int, PARAM_DEN_BOUND as int);
            }
            let t1: i128 = phi_n * qd - qn * m;
            let den: i128 = m * (qd - qn);
            frac = Rat::from_parts(t1, den);
            proof {
                lemma_q_eq_scale(frac@, qd as int);
                lemma_mul3_shuffle(m as int, (qd - qn) as int, qd as int);
                assert(spec_frac.n == frac@.n * qd as int);
                assert(spec_frac.d == frac@.d * qd as int);
                assert(q_eq(frac@, spec_frac));
                assert(-nb <= frac@.n <= nb);
                assert(0 < frac@.d <= db);
            }
        } else {
            proof {
                lemma_pos_mul_bounds(m as int, qn as int, PARAM_DEN_BOUND as int * GRID_DEN_BOUND
                    as int, PARAM_DEN_BOUND as int);
            }
            frac = Rat::from_parts(m * qn - phi_n * qd, m * qn);
            proof {
                assert(frac@ == spec_frac);
                assert(q_eq(frac@, spec_frac));
                assert(-nb <= frac@.n <= nb);
                assert(0 < frac@.d <= db);
            }
        }
        proof {
            assert(q_wf(spec_frac));
            lemma_q_mul_congruence(frac@, spec_frac, self.amplitude@, self.amplitude@);
            lemma_mul_bounds(frac@.n, self.amplitude@.n, nb, PARAM_NUM_BOUND as int);
            lemma_pos_mul_bounds(frac@.d, self.amplitude@.d, db, PARAM_DEN_BOUND as int);
        }
        rat_mul(&frac, &self.amplitude)
    }

    pub fn get_signal_end(&self) -> (r: Rat)
        requires
            self.wf(),
        ensures
            r@ == end_time_q(self.start_offset@, self.duration@),
            q_wf(r@),
            q_bounded(r@, END_TIME_NUM_BOUND as int, END_TIME_DEN_BOUND as int),
    {
        end_time_of(&self.start_offset, &self.duration)
    }
}

/// Unit jump (step): zero up to and including the global flip instant
/// `start_offset + flip_offset`, the amplitude strictly past it.
#[derive(Clone, Copy, Debug, PartialEq, Eq, Structural)]
pub struct UnitJump {
    pub flip_offset: Rat,
    pub duration: Rat,
    pub start_offset: Rat,
    pub amplitude: Rat,
}

impl UnitJump {
    pub open spec fn wf(self) -> bool {
        &&& param_ok(self.flip_offset@)
        &&& param_ok(self.duration@)
        &&& param_ok(self.start_offset@)
        &&& param_ok(self.amplitude@)
    }

    pub fn new(flip_offset: Rat, duration: Rat, start_offset: Rat, amplitude: Rat) -> (r: Self)
        requires
            param_ok(flip_offset@),
            param_ok(duration@),
            param_ok(start_offset@),
            param_ok(amplitude@),
        ensures
            r == (UnitJump { flip_offset, duration, start_offset, amplitude }),
            r.wf(),
    {
        UnitJump { flip_offset, duration, start_offset, amplitude }
    }

    /// One exact sample per instant: zero before the flip, the amplitude
    /// after it.
    #[verifier::loop_isolation(false)]
    pub fn calculate_signal(&self, sampling_points: &Vec<Rat>) -> (r: Vec<CoordPair>)
        requires
            self.wf(),
            grid_ok(sampling_points@),
        ensures
            r@.len() == sampling_points@.len(),
            forall|i: int|
                0 <= i < r@.len() ==> (#[trigger] r@[i]).x == sampling_points@[i] && exact_sample(
                    jump_value_q(
                        self.start_offset@,
                        self.flip_offset@,
                        self.amplitude@,
                        sampling_points@[i]@,
                    ),
                    r@[i].y,
                ),
    {
        proof {
            lemma_mul_bounds(self.start_offset@.n, self.flip_offset@.d, PARAM_NUM_BOUND as int,
                PARAM_DEN_BOUND as int);
            lemma_mul_bounds(self.flip_offset@.n, self.start_offset@.d, PARAM_NUM_BOUND as int,
                PARAM_DEN_BOUND as int);
            lemma_pos_mul_bounds(self.start_offset@.d, self.flip_offset@.d, PARAM_DEN_BOUND as int,
                PARAM_DEN_BOUND as int);
        }
        let flip = rat_add(&self.start_offset, &self.flip_offset);
        let zero = Rat::whole(0);
        let mut r: Vec<CoordPair> = Vec::new();
        let mut i: usize = 0;
        while i < sampling_points.len()
            invariant
                0 <= i <= sampling_points@.len(),
                r@.len() == i,
                forall|j: int|
                    0 <= j < i ==> (#[trigger] r@[j]).x == sampling_points@[j] && exact_sample(
                        jump_value_q(
                            self.start_offset@,
                            self.flip_offset@,
                            self.amplitude@,
                            sampling_points@[j]@,
                        ),
                        r@[j].y,
                    ),
            decreases sampling_points@.len() - i,
        {
            let pt = sampling_points[i];
            proof {
                lemma_mul_bounds(flip@.n, pt@.d, 2 * (PARAM_NUM_BOUND as int * PARAM_DEN_BOUND
                    as int), GRID_DEN_BOUND as int);
                lemma_mul_bounds(pt@.n, flip@.d, GRID_NUM_BOUND as int, PARAM_DEN_BOUND as int
                    * PARAM_DEN_BOUND as int);
            }
            let past = rat_lt(&flip, &pt);
            let v = if past {
                self.amplitude
            } else {
                zero
            };
            r.push(CoordPair { x: pt, y: SampleValue::Exact(v) });
            i = i + 1;
        }
        r
    }

    pub fn get_signal_end(&self) -> (r: Rat)
        requires
            self.wf(),
        ensures
            r@ == end_time_q(self.start_offset@, self.duration@),
            q_wf(r@),
            q_bounded(r@, END_TIME_NUM_BOUND as int, END_TIME_DEN_BOUND as int),
    {
        end_time_of(&self.start_offset, &self.duration)
    }
}

/// Unit pulse: the single sample instant nearest to the target instant
/// `start_offset + time_offset` carries the amplitude; every other sample is
/// zero.
#[derive(Clone, Copy, Debug, PartialEq, Eq, Structural)]
pub struct UnitPulse {
    pub time_offset: Rat,
    pub duration: Rat,
    pub start_offset: Rat,
    pub amplitude: Rat,
}

/// The target instant the pulse snaps to.
pub open spec fn pulse_target(w: UnitPulse) -> Q {
    q_add(w.start_offset@, w.time_offset@)
}

/// The pulse output over a non-empty grid: the amplitude exactly at the
/// nearest instant to the target (earliest on ties), zero everywhere else.
pub open spec fn pulse_output(w: UnitPulse, pts: Seq<Rat>, out: Seq<CoordPair>) -> bool {
    let j = nearest_upto(pulse_target(w), pts, pts.len() as int);
    forall|i: int|
        0 <= i < out.len() ==> (#[trigger] out[i]).y == (if i == j {
            SampleValue::Exact(w.amplitude)
        } else {
            SampleValue::Exact(Rat { num: 0, den: 1 })
        })
}

/// `out` carries the amplitude at index `j` and zero at every other index.
pub open spec fn single_mark_at(w: UnitPulse, out: Seq<CoordPair>, j: int) -> bool {
    &&& 0 <= j < out.len()
    &&& out[j].y == (SampleValue::Exact(w.amplitude))
    &&& forall|i: int|
        0 <= i < out.len() && i != j ==> (#[trigger] out[i]).y == (SampleValue::Exact(Rat {
            num: 0,
            den: 1,
        }))
}

/// Over a non-empty grid the pulse marks exactly one sample — the instant
/// nearest to the target — and every other sample is zero.
pub proof fn lemma_pulse_single_mark(w: UnitPulse, pts: Seq<Rat>, out: Seq<CoordPair>)
    requires
        w.wf(),
        pts.len() > 0,
        out.len() == pts.len(),
        pulse_output(w, pts, out),
        forall|i: int| 0 <= i < pts.len() ==> q_wf(#[trigger] pts[i]@),
    ensures
        exists|j: int| single_mark_at(w, out, j),
{
    lemma_pos_mul_pos(w.start_offset@.d, w.time_offset@.d);
    lemma_nearest_minimal(pulse_target(w), pts, pts.len() as int);
    let jj = nearest_upto(pulse_target(w), pts, pts.len() as int);
    assert(single_mark_at(w, out, jj));
}

impl UnitPulse {
    pub open spec fn wf(self) -> bool {
        &&& param_ok(self.time_offset@)
        &&& param_ok(self.duration@)
        &&& param_ok(self.start_offset@)
        &&& param_ok(self.amplitude@)
    }

    pub fn new(time_offset: Rat, duration: Rat, start_offset: Rat, amplitude: Rat) -> (r: Self)
        requires
            param_ok(time_offset@),
            param_ok(duration@),
            param_ok(start_offset@),
            param_ok(amplitude@),
        ensures
            r == (UnitPulse { time_offset, duration, start_offset, amplitude }),
            r.wf(),
    {
        UnitPulse { time_offset, duration, start_offset, amplitude }
    }

    /// Scan the whole grid for the instant nearest to the target (the first
    /// found wins ties, since a distance must be strictly smaller to
    /// replace), then emit the amplitude there and zero elsewhere.
    #[verifier::loop_isolation(false)]
    pub fn calculate_signal(&self, sampling_points: &Vec<Rat>) -> (r: Vec<CoordPair>)
        requires
            self.wf(),
            grid_ok(sampling_points@),
        ensures
            r@.len() == sampling_points@.len(),
            forall|i: int| 0 <= i < r@.len() ==> (#[trigger] r@[i]).x == sampling_points@[i],
            sampling_points@.len() > 0 ==> pulse_output(*self, sampling_points@, r@),
    {
        let n = sampling_points.len();
        let mut r: Vec<CoordPair> = Vec::new();
        if n == 0 {
            return r;
        }
        proof {
            lemma_mul_bounds(self.start_offset@.n, self.time_offset@.d, PARAM_NUM_BOUND as int,
                PARAM_DEN_BOUND as int);
            lemma_mul_bounds(self.time_offset@.n, self.start_offset@.d, PARAM_NUM_BOUND as int,
                PARAM_DEN_BOUND as int);
            lemma_pos_mul_bounds(self.start_offset@.d, self.time_offset@.d, PARAM_DEN_BOUND as int,
                PARAM_DEN_BOUND as int);
        }
        let flip = rat_add(&self.start_offset, &self.time_offset);
        let ghost fq = flip@;
        let mut best: usize = 0;
        let mut best_num: i128 = pulse_dist_num(&flip, &sampling_points[0]);
        let mut i: usize = 1;
        while i < n
            invariant
                1 <= i <= n,
                0 <= best < i,
                best as int == nearest_upto(fq, sampling_points@, i as int),
                best_num as int == pulse_dist(fq, sampling_points@[best as int]@).n,
                best_num >= 0,
            decreases n - i,
        {
            let a = pulse_dist_num(&flip, &sampling_points[i]);
            proof {
                let di = pulse_dist(fq, sampling_points@[i as int]@);
                let db = pulse_dist(fq, sampling_points@[best as int]@);
                assert(di.d == db.d);
                lemma_pos_mul_pos(fq.d, sampling_points@[i as int]@.d);
                lemma_mul_cancel(a as int, best_num as int, di.d);
                assert((a < best_num) == q_lt(di, db));
            }
            if a < best_num {
                best = i;
                best_num = a;
            }
            i = i + 1;
        }
        let zero = Rat::whole(0);
        let mut j: usize = 0;
        while j < n
            invariant
                0 <= j <= n,
                r@.len() == j,
                forall|k: int|
                    0 <= k < j ==> (#[trigger] r@[k]).x == sampling_points@[k] && r@[k].y == (
                    if k == best as int {
                        SampleValue::Exact(self.amplitude)
                    } else {
                        SampleValue::Exact(Rat { num: 0, den: 1 })
                    }),
            decreases n - j,
        {
            let pt = sampling_points[j];
            let v = if j == best {
                self.amplitude
            } else {
                zero
            };
            r.push(CoordPair { x: pt, y: SampleValue::Exact(v) });
            j = j + 1;
        }
        r
    }

    pub fn get_signal_end(&self) -> (r: Rat)
        requires
            self.wf(),
        ensures
            r@ == end_time_q(self.start_offset@, self.duration@),
            q_wf(r@),
            q_bounded(r@, END_TIME_NUM_BOUND as int, END_TIME_DEN_BOUND as int),
    {
        end_time_of(&self.start_offset, &self.duration)
    }
}

/// Numerator of the distance from the target to the instant, over the
/// common denominator `target.d * t.d`.
fn pulse_dist_num(flip: &Rat, t: &Rat) -> (a: i128)
    requires
        q_wf(flip@),
        q_bounded(flip@, 2 * (PARAM_NUM_BOUND as int * PARAM_DEN_BOUND as int), PARAM_DEN_BOUND
            as int * PARAM_DEN_BOUND as int),
        instant_ok(t@),
    ensures
        a as int == pulse_dist(flip@, t@).n,
        a >= 0,
{
    proof {
        lemma_mul_bounds(flip@.n, t@.d, 2 * (PARAM_NUM_BOUND as int * PARAM_DEN_BOUND as int),
            GRID_DEN_BOUND as int);
        lemma_mul_bounds(t@.n, flip@.d, GRID_NUM_BOUND as int, PARAM_DEN_BOUND as int
            * PARAM_DEN_BOUND as int);
    }
    let diff: i128 = flip.numerator() * t.denominator() - t.numerator() * flip.denominator();
    if diff < 0 {
        -diff
    } else {
        diff
    }
}

/// Uniform noise: per sample, an independent draw uniform on
/// `[-amplitude, amplitude)`.
#[derive(Clone, Copy, Debug, PartialEq, Eq, Structural)]
pub struct UniformNoise {
    pub duration: Rat,
    pub start_offset: Rat,
    pub amplitude: Rat,
}

/// `y` is an exact value within the uniform noise span.
pub open spec fn uniform_sample(amp: Rat, y: SampleValue) -> bool {
    match y {
        SampleValue::Exact(v) => q_wf(v@) && q_le(q_neg(amp@), v@) && q_lt(v@, amp@),
        _ => false,
    }
}

impl UniformNoise {
    pub open spec fn wf(self) -> bool {
        &&& param_ok(self.duration@)
        &&& param_ok(self.start_offset@)
        &&& param_ok(self.amplitude@)
        &&& q_lt(q_zero(), self.amplitude@)
    }

    /// Rejects a non-positive amplitude: the span `[-amplitude, amplitude)`
    /// would be empty or reversed.
    pub fn new(duration: Rat, start_offset: Rat, amplitude: Rat) -> (r: Result<
        Self,
        SignalError,
    >)
        requires
            param_ok(duration@),
            param_ok(start_offset@),
            param_ok(amplitude@),
        ensures
            match r {
                Ok(s) => q_lt(q_zero(), amplitude@) && s == (UniformNoise {
                    duration,
                    start_offset,
                    amplitude,
                }) && s.wf(),
                Err(e) => e == SignalError::InvalidParameter && q_le(amplitude@, q_zero()),
            },
    {
        let zero = Rat::whole(0);
        if rat_lt(&zero, &amplitude) {
            Ok(UniformNoise { duration, start_offset, amplitude })
        } else {
            Err(SignalError::InvalidParameter)
        }
    }

    /// One independent draw per grid instant, in grid order, each within
    /// `[-amplitude, amplitude)`.
    #[verifier::loop_isolation(false)]
    pub fn calculate_signal(&self, sampling_points: &Vec<Rat>, rng: &mut rand::rngs::StdRng) -> (r:
        Vec<CoordPair>)
        requires
            self.wf(),
            grid_ok(sampling_points@),
        ensures
            r@.len() == sampling_points@.len(),
            forall|i: int|
                0 <= i < r@.len() ==> (#[trigger] r@[i]).x == sampling_points@[i]
                    && uniform_sample(self.amplitude, r@[i].y),
    {
        let mut r: Vec<CoordPair> = Vec::new();
        let mut i: usize = 0;
        while i < sampling_points.len()
            invariant
                0 <= i <= sampling_points@.len(),
                r@.len() == i,
                forall|j: int|
                    0 <= j < i ==> (#[trigger] r@[j]).x == sampling_points@[j] && uniform_sample(
                        self.amplitude,
                        r@[j].y,
                    ),
            decreases sampling_points@.len() - i,
        {
            let pt = sampling_points[i];
            let k = next_random(rng);
            let v = uniform_value(&self.amplitude, k);
            r.push(CoordPair { x: pt, y: SampleValue::Exact(v) });
            i = i + 1;
        }
        r
    }

    pub fn get_signal_end(&self) -> (r: Rat)
        requires
            self.wf(),
        ensures
            r@ == end_time_q(self.start_offset@, self.duration@),
            q_wf(r@),
            q_bounded(r@, END_TIME_NUM_BOUND as int, END_TIME_DEN_BOUND as int),
    {
        end_time_of(&self.start_offset, &self.duration)
    }
}

/// Normal noise: per sample, an independent standard-normal draw scaled by
/// the amplitude. The draw itself is transcendental, so the sample value is
/// the symbolic `Gauss` form, which the host realizes with one fresh draw
/// per sample.
#[derive(Clone, Copy, Debug, PartialEq, Eq, Structural)]
pub struct NormalNoise {
    pub duration: Rat,
    pub start_offset: Rat,
    pub amplitude: Rat,
}

impl NormalNoise {
    pub open spec fn wf(self) -> bool {
        &&& param_ok(self.duration@)
        &&& param_ok(self.start_offset@)
        &&& param_ok(self.amplitude@)
    }

    pub fn new(duration: Rat, start_offset: Rat, amplitude: Rat) -> (r: Self)
        requires
            param_ok(duration@),
            param_ok(start_offset@),
            param_ok(amplitude@),
        ensures
            r == (NormalNoise { duration, start_offset, amplitude }),
            r.wf(),
    {
        NormalNoise { duration, start_offset, amplitude }
    }

    /// One symbolic draw per grid instant.
    #[verifier::loop_isolation(false)]
    pub fn calculate_signal(&self, sampling_points: &Vec<Rat>) -> (r: Vec<CoordPair>)
        requires
            self.wf(),
            grid_ok(sampling_points@),
        ensures
            r@.len() == sampling_points@.len(),
            forall|i: int|
                0 <= i < r@.len() ==> (#[trigger] r@[i]).x == sampling_points@[i] && r@[i].y == (
                SampleValue::Gauss { amplitude: self.amplitude }),
    {
        let mut r: Vec<CoordPair> = Vec::new();
        let mut i: usize = 0;
        while i < sampling_points.len()
            invariant
                0 <= i <= sampling_points@.len(),
                r@.len() == i,
                forall|j: int|
                    0 <= j < i ==> (#[trigger] r@[j]).x == sampling_points@[j] && r@[j].y == (
                    SampleValue::Gauss { amplitude: self.amplitude }),
            decreases sampling_points@.len() - i,
        {
            let pt = sampling_points[i];
            r.push(CoordPair { x: pt, y: SampleValue::Gauss { amplitude: self.amplitude } });
            i = i + 1;
        }
        r
    }

    pub fn get_signal_end(&self) -> (r: Rat)
        requires
            self.wf(),
        ensures
            r@ == end_time_q(self.start_offset@, self.duration@),
            q_wf(r@),
            q_bounded(r@, END_TIME_NUM_BOUND as int, END_TIME_DEN_BOUND as int),
    {
        end_time_of(&self.start_offset, &self.duration)
    }
}

/// Bernoulli noise: per sample, the amplitude with the given probability,
/// zero otherwise.
#[derive(Clone, Copy, Debug, PartialEq, Eq, Structural)]
pub struct UnitNoise {
    /// Probability for a sample to read the amplitude, between 0 and 1.
    pub probability: Rat,
    pub duration: Rat,
    pub start_offset: Rat,
    pub amplitude: Rat,
}

/// `y` is an exact value that is either the amplitude or zero.
pub open spec fn unit_noise_sample(amp: Rat, y: SampleValue) -> bool {
    match y {
        SampleValue::Exact(v) => q_wf(v@) && (v == amp || v@ == q_zero()),
        _ => false,
    }
}

impl UnitNoise {
    pub open spec fn wf(self) -> bool {
        &&& param_ok(self.probability@)
        &&& param_ok(self.duration@)
        &&& param_ok(self.start_offset@)
        &&& param_ok(self.amplitude@)
        &&& q_le(q_zero(), self.probability@)
        &&& q_le(self.probability@, q_one())
    }

    /// Rejects a probability outside `[0, 1]`: the underlying Bernoulli
    /// distribution is undefined there.
    pub fn new(probability: Rat, duration: Rat, start_offset: Rat, amplitude: Rat) -> (r: Result<
        Self,
        SignalError,
    >)
        requires
            param_ok(probability@),
            param_ok(duration@),
            param_ok(start_offset@),
            param_ok(amplitude@),
        ensures
            match r {
                Ok(s) => q_le(q_zero(), probability@) && q_le(probability@, q_one()) && s == (
                UnitNoise { probability, duration, start_offset, amplitude }) && s.wf(),
                Err(e) => e == SignalError::InvalidParameter && (q_lt(probability@, q_zero())
                    || q_lt(q_one(), probability@)),
            },
    {
        let zero = Rat::whole(0);
        let one = Rat::whole(1);
        if !rat_lt(&probability, &zero) && !rat_lt(&one, &probability) {
            Ok(UnitNoise { probability, duration, start_offset, amplitude })
        } else {
            Err(SignalError::InvalidParameter)
        }
    }

    /// One independent draw per grid instant, in grid order: the amplitude
    /// or zero.
    #[verifier::loop_isolation(false)]
    pub fn calculate_signal(&self, sampling_points: &Vec<Rat>, rng: &mut rand::rngs::StdRng) -> (r:
        Vec<CoordPair>)
        requires
            self.wf(),
            grid_ok(sampling_points@),
        ensures
            r@.len() == sampling_points@.len(),
            forall|i: int|
                0 <= i < r@.len() ==> (#[trigger] r@[i]).x == sampling_points@[i]
                    && unit_noise_sample(self.amplitude, r@[i].y),
    {
        let mut r: Vec<CoordPair> = Vec::new();
        let mut i: usize = 0;
        while i < sampling_points.len()
            invariant
                0 <= i <= sampling_points@.len(),
                r@.len() == i,
                forall|j: int|
                    0 <= j < i ==> (#[trigger] r@[j]).x == sampling_points@[j]
                        && unit_noise_sample(self.amplitude, r@[j].y),
            decreases sampling_points@.len() - i,
        {
            let pt = sampling_points[i];
            let k = next_random(rng);
            let v = bernoulli_value(&self.amplitude, &self.probability, k);
            r.push(CoordPair { x: pt, y: SampleValue::Exact(v) });
            i = i + 1;
        }
        r
    }

    pub fn get_signal_end(&self) -> (r: Rat)
        requires
            self.wf(),
        ensures
            r@ == end_time_q(self.start_offset@, self.duration@),
            q_wf(r@),
            q_bounded(r@, END_TIME_NUM_BOUND as int, END_TIME_DEN_BOUND as int),
    {
        end_time_of(&self.start_offset, &self.duration)
    }
}

/// The closed set of waveform kinds, with one dispatch function for
/// sampling and one for the end time.
#[derive(Clone, Copy, Debug, PartialEq, Eq, Structural)]
pub enum Waveform {
    Sine(SineSignal),
    HalfWaveRectifiedSine(HalfWaveRectifiedSineSignal),
    FullWaveRectifiedSine(FullWaveRectifiedSineSignal),
    UniformNoise(UniformNoise),
    NormalNoise(NormalNoise),
    Rectangular(RectangularSignal),
    SymmetricRectangular(SymmetricRectangularSignal),
    Triangular(TriangularSignal),
    UnitJump(UnitJump),
    UnitPulse(UnitPulse),
    UnitNoise(UnitNoise),
}

impl Waveform {
    pub open spec fn wf(self) -> bool {
        match self {
            Waveform::Sine(w) => w.wf(),
            Waveform::HalfWaveRectifiedSine(w) => w.wf(),
            Waveform::FullWaveRectifiedSine(w) => w.wf(),
            Waveform::UniformNoise(w) => w.wf(),
            Waveform::NormalNoise(w) => w.wf(),
            Waveform::Rectangular(w) => w.wf(),
            Waveform::SymmetricRectangular(w) => w.wf(),
            Waveform::Triangular(w) => w.wf(),
            Waveform::UnitJump(w) => w.wf(),
            Waveform::UnitPulse(w) => w.wf(),
            Waveform::UnitNoise(w) => w.wf(),
        }
    }

    /// Every variant ends at `start_offset + duration`.
    pub open spec fn end_q(self) -> Q {
        match self {
            Waveform::Sine(w) => end_time_q(w.start_offset@, w.duration@),
            Waveform::HalfWaveRectifiedSine(w) => end_time_q(
                w.inner_sine.start_offset@,
                w.inner_sine.duration@,
            ),
            Waveform::FullWaveRectifiedSine(w) => end_time_q(
                w.inner_sine.start_offset@,
                w.inner_sine.duration@,
            ),
            Waveform::UniformNoise(w) => end_time_q(w.start_offset@, w.duration@),
            Waveform::NormalNoise(w) => end_time_q(w.start_offset@, w.duration@),
            Waveform::Rectangular(w) => end_time_q(
                w.inner_signal.start_offset@,
                w.inner_signal.duration@,
            ),
            Waveform::SymmetricRectangular(w) => end_time_q(w.start_offset@, w.duration@),
            Waveform::Triangular(w) => end_time_q(w.start_offset@, w.duration@),
            Waveform::UnitJump(w) => end_time_q(w.start_offset@, w.duration@),
            Waveform::UnitPulse(w) => end_time_q(w.start_offset@, w.duration@),
            Waveform::UnitNoise(w) => end_time_q(w.start_offset@, w.duration@),
        }
    }

    /// What one sample value must be at the instant `t`, for every variant
    /// whose samples are pointwise; the pulse is constrained over the whole
    /// grid in `output_ok` instead.
    pub open spec fn sample_ok(self, t: Rat, y: SampleValue) -> bool {
        match self {
            Waveform::Sine(w) => sine_sample(w, t, y),
            Waveform::HalfWaveRectifiedSine(w) => half_sine_sample(w.inner_sine, t, y),
            Waveform::FullWaveRectifiedSine(w) => full_sine_sample(w.inner_sine, t, y),
            Waveform::UniformNoise(w) => uniform_sample(w.amplitude, y),
            Waveform::NormalNoise(w) => y == (SampleValue::Gauss { amplitude: w.amplitude }),
            Waveform::Rectangular(w) => exact_sample(
                rect_value_q(
                    w.inner_signal.signal_freq@,
                    w.inner_signal.duty_cycle@,
                    w.inner_signal.amplitude@,
                    t@,
                ),
                y,
            ),
            Waveform::SymmetricRectangular(w) => exact_sample(
                sym_rect_value_q(w.signal_freq@, w.duty_cycle@, w.amplitude@, t@),
                y,
            ),
            Waveform::Triangular(w) => exact_sample(
                tri_value_q(w.signal_freq@, w.duty_cycle@, w.amplitude@, t@),
                y,
            ),
            Waveform::UnitJump(w) => exact_sample(
                jump_value_q(w.start_offset@, w.flip_offset@, w.amplitude@, t@),
                y,
            ),
            Waveform::UnitPulse(_) => true,
            Waveform::UnitNoise(w) => unit_noise_sample(w.amplitude, y),
        }
    }

    /// The whole output against the whole grid: one sample per instant, at
    /// that instant, with the variant's value.
    pub open spec fn output_ok(self, pts: Seq<Rat>, out: Seq<CoordPair>) -> bool {
        &&& out.len() == pts.len()
        &&& forall|i: int| 0 <= i < out.len() ==> (#[trigger] out[i]).x == pts[i]
        &&& forall|i: int| 0 <= i < out.len() ==> self.sample_ok(pts[i], (#[trigger] out[i]).y)
        &&& match self {
            Waveform::UnitPulse(w) => pts.len() > 0 ==> pulse_output(w, pts, out),
            _ => true,
        }
    }

    /// Sample this waveform at every grid instant. The noise variants draw
    /// once per instant, in grid order, from the given generator.
    pub fn calculate_signal(&self, sampling_points: &Vec<Rat>, rng: &mut rand::rngs::StdRng) -> (r:
        Vec<CoordPair>)
        requires
            self.wf(),
            grid_ok(sampling_points@),
        ensures
            self.output_ok(sampling_points@, r@),
    {
        match self {
            Waveform::Sine(w) => w.calculate_signal(sampling_points),
            Waveform::HalfWaveRectifiedSine(w) => w.calculate_signal(sampling_points),
            Waveform::FullWaveRectifiedSine(w) => w.calculate_signal(sampling_points),
            Waveform::UniformNoise(w) => w.calculate_signal(sampling_points, rng),
            Waveform::NormalNoise(w) => w.calculate_signal(sampling_points),
            Waveform::Rectangular(w) => w.calculate_signal(sampling_points),
            Waveform::SymmetricRectangular(w) => w.calculate_signal(sampling_points),
            Waveform::Triangular(w) => w.calculate_signal(sampling_points),
            Waveform::UnitJump(w) => w.calculate_signal(sampling_points),
            Waveform::UnitPulse(w) => w.calculate_signal(sampling_points),
            Waveform::UnitNoise(w) => w.calculate_signal(sampling_points, rng),
        }
    }

    /// The end time `start_offset + duration`, used solely to bound the
    /// shared sampling grid.
    pub fn get_signal_end(&self) -> (r: Rat)
        requires
            self.wf(),
        ensures
            r@ == self.end_q(),
            q_wf(r@),
            q_bounded(r@, END_TIME_NUM_BOUND as int, END_TIME_DEN_BOUND as int),
    {
        match self {
            Waveform::Sine(w) => w.get_signal_end(),
            Waveform::HalfWaveRectifiedSine(w) => w.get_signal_end(),
            Waveform::FullWaveRectifiedSine(w) => w.get_signal_end(),
            Waveform::UniformNoise(w) => w.get_signal_end(),
            Waveform::NormalNoise(w) => w.get_signal_end(),
            Waveform::Rectangular(w) => w.get_signal_end(),
            Waveform::SymmetricRectangular(w) => w.get_signal_end(),
            Waveform::Triangular(w) => w.get_signal_end(),
            Waveform::UnitJump(w) => w.get_signal_end(),
            Waveform::UnitPulse(w) => w.get_signal_end(),
            Waveform::UnitNoise(w) => w.get_signal_end(),
        }
    }
}

} // verus!
