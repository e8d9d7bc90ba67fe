use vstd::prelude::*;
use crate::grid::{END_DEN_BOUND, END_NUM_BOUND, MAX_GRID_LEN, grid_count, grid_instant,
    linspace_by_freq};
use crate::rational::{
    PARAM_DEN_BOUND, PARAM_NUM_BOUND, Q, Rat, lemma_mul_bounds, lemma_pos_mul_bounds, param_ok,
    q_add, q_bounded, q_le, q_lt, q_one, q_wf, q_zero, rat_add, rat_lt, samp_ok,
};
use crate::signals::{
    END_TIME_DEN_BOUND, END_TIME_NUM_BOUND, FullWaveRectifiedSineSignal,
    HalfWaveRectifiedSineSignal, NormalNoise, RectangularSignal, SineSignal,
    SymmetricRectangularSignal, TriangularSignal, UniformNoise, UnitJump, UnitNoise, UnitPulse,
    Waveform,
};
use crate::value::{CoordPair, SignalError};

verus! {

/// Largest end time over the registered waveforms, scanned in order: a later
/// waveform replaces the running maximum only when strictly larger.
pub open spec fn max_end(ws: Seq<Waveform>) -> Q
    decreases ws.len(),
{
    if ws.len() <= 1 {
        ws[0].end_q()
    } else {
        let m = max_end(ws.drop_last());
        if q_lt(m, ws.last().end_q()) {
            ws.last().end_q()
        } else {
            m
        }
    }
}

/// The grid every synthesis run samples: from the starting time up to the
/// starting time plus the largest end time, at the sampling frequency.
pub open spec fn synth_count(p: SignalProcessor) -> int {
    grid_count(p.starting_time@, q_add(p.starting_time@, max_end(p.signals@)),
        p.sampling_frequency@)
}

/// The driver: it owns the registered waveforms, sizes the shared grid from
/// their end times, and samples against it.
pub struct SignalProcessor {
    /// Sampling frequency in Hz.
    pub sampling_frequency: Rat,
    /// Starting time offset in s.
    pub starting_time: Rat,
    pub signals: Vec<Waveform>,
}

/// `new_p` is `old_p` with the waveform `w` registered at the end and
/// nothing else changed.
pub open spec fn pushed(old_p: SignalProcessor, new_p: SignalProcessor, w: Waveform) -> bool {
    &&& new_p.sampling_frequency == old_p.sampling_frequency
    &&& new_p.starting_time == old_p.starting_time
    &&& new_p.signals@ == old_p.signals@.push(w)
}

impl SignalProcessor {
    pub open spec fn wf(self) -> bool {
        &&& samp_ok(self.sampling_frequency@)
        &&& param_ok(self.starting_time@)
        &&& forall|i: int| 0 <= i < self.signals@.len() ==> (#[trigger] self.signals@[i]).wf()
    }

    pub fn new(sampling_frequency: Rat, starting_time: Rat) -> (r: Self)
        requires
            samp_ok(sampling_frequency@),
            param_ok(starting_time@),
        ensures
            r.sampling_frequency == sampling_frequency,
            r.starting_time == starting_time,
            r.signals@.len() == 0,
            r.wf(),
    {
        SignalProcessor { sampling_frequency, starting_time, signals: Vec::new() }
    }

    pub fn add_sine(&mut self, signal_freq: Rat, duration: Rat, start_offset: Rat, amplitude: Rat,
        phase_shift: Rat) -> (r: Result<(), SignalError>)
        requires
            old(self).wf(),
            param_ok(signal_freq@),
            param_ok(duration@),
            param_ok(start_offset@),
            param_ok(amplitude@),
            param_ok(phase_shift@),
        ensures
            match r {
                Ok(u) => q_lt(q_zero(), signal_freq@) && pushed(*old(self), *final(self),
                    Waveform::Sine(SineSignal {
                        signal_freq,
                        duration,
                        start_offset,
                        amplitude,
                        phase_shift,
                    })) && final(self).wf(),
                Err(e) => e == SignalError::InvalidParameter && q_le(signal_freq@, q_zero()) && *
                final(self) == *old(self),
            },
    {
        match SineSignal::new(signal_freq, duration, start_offset, amplitude, phase_shift) {
            Ok(s) => {
                self.signals.push(Waveform::Sine(s));
                Ok(())
            },
            Err(e) => Err(e),
        }
    }

    pub fn add_half_wave_rectified_sine(&mut self, signal_freq: Rat, duration: Rat,
        start_offset: Rat, amplitude: Rat, phase_shift: Rat) -> (r: Result<(), SignalError>)
        requires
            old(self).wf(),
            param_ok(signal_freq@),
            param_ok(duration@),
            param_ok(start_offset@),
            param_ok(amplitude@),
            param_ok(phase_shift@),
        ensures
            match r {
                Ok(u) => q_lt(q_zero(), signal_freq@) && pushed(*old(self), *final(self),
                    Waveform::HalfWaveRectifiedSine(HalfWaveRectifiedSineSignal {
                        inner_sine: SineSignal {
                            signal_freq,
                            duration,
                            start_offset,
                            amplitude,
                            phase_shift,
                        },
                    })) && final(self).wf(),
                Err(e) => e == SignalError::InvalidParameter && q_le(signal_freq@, q_zero()) && *
                final(self) == *old(self),
            },
    {
        match HalfWaveRectifiedSineSignal::new(signal_freq, duration, start_offset, amplitude,
            phase_shift) {
            Ok(s) => {
                self.signals.push(Waveform::HalfWaveRectifiedSine(s));
                Ok(())
            },
            Err(e) => Err(e),
        }
    }

    pub fn add_full_wave_rectified_sine(&mut self, signal_freq: Rat, duration: Rat,
        start_offset: Rat, amplitude: Rat, phase_shift: Rat) -> (r: Result<(), SignalError>)
        requires
            old(self).wf(),
            param_ok(signal_freq@),
            param_ok(duration@),
            param_ok(start_offset@),
            param_ok(amplitude@),
            param_ok(phase_shift@),
        ensures
            match r {
                Ok(u) => q_lt(q_zero(), signal_freq@) && pushed(*old(self), *final(self),
                    Waveform::FullWaveRectifiedSine(FullWaveRectifiedSineSignal {
                        inner_sine: SineSignal {
                            signal_freq,
                            duration,
                            start_offset,
                            amplitude,
                            phase_shift,
                        },
                    })) && final(self).wf(),
                Err(e) => e == SignalError::InvalidParameter && q_le(signal_freq@, q_zero()) && *
                final(self) == *old(self),
            },
    {
        match FullWaveRectifiedSineSignal::new(signal_freq, duration, start_offset, amplitude,
            phase_shift) {
            Ok(s) => {
                self.signals.push(Waveform::FullWaveRectifiedSine(s));
                Ok(())
            },
            Err(e) => Err(e),
        }
    }

    pub fn add_uniform_noise(&mut self, duration: Rat, start_offset: Rat, amplitude: Rat) -> (r:
        Result<(), SignalError>)
        requires
            old(self).wf(),
            param_ok(duration@),
            param_ok(start_offset@),
            param_ok(amplitude@),
        ensures
            match r {
                Ok(u) => q_lt(q_zero(), amplitude@) && pushed(*old(self), *final(self),
                    Waveform::UniformNoise(UniformNoise { duration, start_offset, amplitude }))
                    && final(self).wf(),
                Err(e) => e == SignalError::InvalidParameter && q_le(amplitude@, q_zero()) && *
                final(self) == *old(self),
            },
    {
        match UniformNoise::new(duration, start_offset, amplitude) {
            Ok(s) => {
                self.signals.push(Waveform::UniformNoise(s));
                Ok(())
            },
            Err(e) => Err(e),
        }
    }

    pub fn add_normal_noise(&mut self, duration: Rat, start_offset: Rat, amplitude: Rat)
        requires
            old(self).wf(),
            param_ok(duration@),
            param_ok(start_offset@),
            param_ok(amplitude@),
        ensures
            pushed(*old(self), *final(self), Waveform::NormalNoise(NormalNoise {
                duration,
                start_offset,
                amplitude,
            })),
            final(self).wf(),
    {
        let s = NormalNoise::new(duration, start_offset, amplitude);
        self.signals.push(Waveform::NormalNoise(s));
    }

    pub fn add_rectangular(&mut self, signal_freq: Rat, duration: Rat, start_offset: Rat,
        amplitude: Rat, duty_cycle: Rat) -> (r: Result<(), SignalError>)
        requires
            old(self).wf(),
            param_ok(signal_freq@),
            param_ok(duration@),
            param_ok(start_offset@),
            param_ok(amplitude@),
            param_ok(duty_cycle@),
        ensures
            match r {
                Ok(u) => q_lt(q_zero(), signal_freq@) && q_le(q_zero(), duty_cycle@) && q_le(
                    duty_cycle@,
                    q_one(),
                ) && pushed(*old(self), *final(self), Waveform::Rectangular(RectangularSignal {
                    inner_signal: SymmetricRectangularSignal {
                        signal_freq,
                        duration,
                        start_offset,
                        amplitude,
                        duty_cycle,
                    },
                })) && final(self).wf(),
                Err(e) => e == SignalError::InvalidParameter && *final(self) == *old(self),
            },
    {
        match RectangularSignal::new(signal_freq, duration, start_offset, amplitude, duty_cycle) {
            Ok(s) => {
                self.signals.push(Waveform::Rectangular(s));
                Ok(())
            },
            Err(e) => Err(e),
        }
    }

    pub fn add_symmetric_rectangular(&mut self, signal_freq: Rat, duration: Rat, start_offset: Rat,
        amplitude: Rat, duty_cycle: Rat) -> (r: Result<(), SignalError>)
        requires
            old(self).wf(),
            param_ok(signal_freq@),
            param_ok(duration@),
            param_ok(start_offset@),
            param_ok(amplitude@),
            param_ok(duty_cycle@),
        ensures
            match r {
                Ok(u) => q_lt(q_zero(), signal_freq@) && q_le(q_zero(), duty_cycle@) && q_le(
                    duty_cycle@,
                    q_one(),
                ) && pushed(*old(self), *final(self), Waveform::SymmetricRectangular(
                    SymmetricRectangularSignal {
                        signal_freq,
                        duration,
                        start_offset,
                        amplitude,
                        duty_cycle,
                    },
                )) && final(self).wf(),
                Err(e) => e == SignalError::InvalidParameter && *final(self) == *old(self),
            },
    {
        match SymmetricRectangularSignal::new(signal_freq, duration, start_offset, amplitude,
            duty_cycle) {
            Ok(s) => {
                self.signals.push(Waveform::SymmetricRectangular(s));
                Ok(())
            },
            Err(e) => Err(e),
        }
    }

    pub fn add_triangular(&mut self, signal_freq: Rat, duration: Rat, start_offset: Rat,
        amplitude: Rat, duty_cycle: Rat) -> (r: Result<(), SignalError>)
        requires
            old(self).wf(),
            param_ok(signal_freq@),
            param_ok(duration@),
            param_ok(start_offset@),
            param_ok(amplitude@),
            param_ok(duty_cycle@),
        ensures
            match r {
                Ok(u) => q_lt(q_zero(), signal_freq@) && q_lt(q_zero(), duty_cycle@) && q_le(
                    duty_cycle@,
                    q_one(),
                ) && pushed(*old(self), *final(self), Waveform::Triangular(TriangularSignal {
                    signal_freq,
                    duration,
                    start_offset,
                    amplitude,
                    duty_cycle,
                })) && final(self).wf(),
                Err(e) => e == SignalError::InvalidParameter && *final(self) == *old(self),
            },
    {
        match TriangularSignal::new(signal_freq, duration, start_offset, amplitude, duty_cycle) {
            Ok(s) => {
                self.signals.push(Waveform::Triangular(s));
                Ok(())
            },
            Err(e) => Err(e),
        }
    }

    pub fn add_unit_jump(&mut self, flip_offset: Rat, duration: Rat, start_offset: Rat,
        amplitude: Rat)
        requires
            old(self).wf(),
            param_ok(flip_offset@),
            param_ok(duration@),
            param_ok(start_offset@),
            param_ok(amplitude@),
        ensures
            pushed(*old(self), *final(self), Waveform::UnitJump(UnitJump {
                flip_offset,
                duration,
                start_offset,
                amplitude,
            })),
            final(self).wf(),
    {
        let s = UnitJump::new(flip_offset, duration, start_offset, amplitude);
        self.signals.push(Waveform::UnitJump(s));
    }

    pub fn add_unit_pulse(&mut self, time_offset: Rat, duration: Rat, start_offset: Rat,
        amplitude: Rat)
        requires
            old(self).wf(),
            param_ok(time_offset@),
            param_ok(duration@),
            param_ok(start_offset@),
            param_ok(amplitude@),
        ensures
            pushed(*old(self), *final(self), Waveform::UnitPulse(UnitPulse {
                time_offset,
                duration,
                start_offset,
                amplitude,
            })),
            final(self).wf(),
    {
        let s = UnitPulse::new(time_offset, duration, start_offset, amplitude);
        self.signals.push(Waveform::UnitPulse(s));
    }

    pub fn add_unit_noise(&mut self, probability: Rat, duration: Rat, start_offset: Rat,
        amplitude: Rat) -> (r: Result<(), SignalError>)
        requires
            old(self).wf(),
            param_ok(probability@),
            param_ok(duration@),
            param_ok(start_offset@),
            param_ok(amplitude@),
        ensures
            match r {
                Ok(u) => q_le(q_zero(), probability@) && q_le(probability@,
                    q_one()) && pushed(*old(self), *final(self),
                    Waveform::UnitNoise(UnitNoise {
                        probability,
                        duration,
                        start_offset,
                        amplitude,
                    })) && final(self).wf(),
                Err(e) => e == SignalError::InvalidParameter && *final(self) == *old(self),
            },
    {
        match UnitNoise::new(probability, duration, start_offset, amplitude) {
            Ok(s) => {
                self.signals.push(Waveform::UnitNoise(s));
                Ok(())
            },
            Err(e) => Err(e),
        }
    }

    /// Synthesize: fail on an empty collection, else size the grid by the
    /// largest end time over all registered waveforms, build it from the
    /// starting time at the sampling frequency, and sample the first
    /// registered waveform against the full grid.
    #[verifier::loop_isolation(false)]
    pub fn get_signal(&self, rng: &mut rand::rngs::StdRng) -> (r: Result<
        Vec<CoordPair>,
        SignalError,
    >)
        requires
            self.wf(),
            self.signals@.len() > 0 ==> synth_count(*self) <= MAX_GRID_LEN as int,
        ensures
            match r {
                Ok(out) => {
                    &&& self.signals@.len() > 0
                    &&& q_lt(q_zero(), self.sampling_frequency@)
                    &&& out@.len() == synth_count(*self)
                    &&& forall|i: int|
                        0 <= i < out@.len() ==> (#[trigger] out@[i]).x@ == grid_instant(
                            self.starting_time@,
                            self.sampling_frequency@,
                            i,
                        )
                    &&& self.signals@[0].output_ok(
                        out@.map_values(|p: CoordPair| p.x),
                        out@,
                    )
                },
                Err(e) => {
                    ||| (e == SignalError::EmptyCollection && self.signals@.len() == 0)
                    ||| (e == SignalError::InvalidParameter && self.signals@.len() > 0 && q_le(
                        self.sampling_frequency@,
                        q_zero(),
                    ))
                },
            },
    {
        let n = self.signals.len();
        if n == 0 {
            return Err(SignalError::EmptyCollection);
        }
        let mut dur = self.signals[0].get_signal_end();
        proof {
            assert(self.signals@.take(1int) =~= seq![self.signals@[0]]);
            assert(dur@ == max_end(self.signals@.take(1int)));
        }
        let mut i: usize = 1;
        while i < n
            invariant
                1 <= i <= n,
                dur@ == max_end(self.signals@.take(i as int)),
                q_wf(dur@),
                q_bounded(dur@, END_TIME_NUM_BOUND as int, END_TIME_DEN_BOUND as int),
            decreases n - i,
        {
            let e = self.signals[i].get_signal_end();
            proof {
                lemma_mul_bounds(dur@.n, e@.d, END_TIME_NUM_BOUND as int, END_TIME_DEN_BOUND
                    as int);
                lemma_mul_bounds(e@.n, dur@.d, END_TIME_NUM_BOUND as int, END_TIME_DEN_BOUND
                    as int);
                assert(self.signals@.take(i as int + 1).drop_last() =~= self.signals@.take(
                    i as int));
                assert(self.signals@.take(i as int + 1).last() == self.signals@[i as int]);
            }
            if rat_lt(&dur, &e) {
                dur = e;
            }
            i = i + 1;
        }
        proof {
            assert(self.signals@.take(n as int) =~= self.signals@);
            lemma_mul_bounds(self.starting_time@.n, dur@.d, PARAM_NUM_BOUND as int,
                END_TIME_DEN_BOUND as int);
            lemma_mul_bounds(dur@.n, self.starting_time@.d, END_TIME_NUM_BOUND as int,
                PARAM_DEN_BOUND as int);
            lemma_pos_mul_bounds(self.starting_time@.d, dur@.d, PARAM_DEN_BOUND as int,
                END_TIME_DEN_BOUND as int);
        }
        let ending = rat_add(&self.starting_time, &dur);
        match linspace_by_freq(&self.starting_time, &ending, &self.sampling_frequency) {
            Err(e) => Err(e),
            Ok(pts) => {
                let out = self.signals[0].calculate_signal(&pts, rng);
                proof {
                    assert(out@.map_values(|p: CoordPair| p.x) =~= pts@);
                }
                Ok(out)
            },
        }
    }
}

} // verus!
