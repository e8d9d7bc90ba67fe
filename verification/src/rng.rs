use vstd::prelude::*;
use crate::rational::{
    PARAM_DEN_BOUND, PARAM_NUM_BOUND, Q, Rat, lemma_mul_bounds, lemma_pos_mul_bounds, param_ok,
    q_le, q_lt, q_mul, q_neg, q_one, q_wf, q_zero,
};

verus! {

#[verifier::external_type_specification]
#[verifier::external_body]
pub struct ExStdRng(rand::rngs::StdRng);

/// Relies on rand's `RngCore::next_u64` for `StdRng`: one draw from the
/// generator. Nothing is promised of the value.
#[verifier::external_body]
pub(crate) fn next_random(rng: &mut rand::rngs::StdRng) -> (r: u64) {
    rand::RngCore::next_u64(rng)
}

/// Two to the 64th: the number of distinct raw draws.
pub const DRAW_SPAN: i128 = 18446744073709551616;

/// The raw draw `k` mapped affinely onto `[-1, 1)` and scaled by the
/// amplitude: `amplitude * (2k - 2^64) / 2^64`. For a positive amplitude the
/// result lies in `[-amplitude, amplitude)`.
pub fn uniform_value(amplitude: &Rat, k: u64) -> (r: Rat)
    requires
        param_ok(amplitude@),
        q_lt(q_zero(), amplitude@),
    ensures
        q_wf(r@),
        r@ == q_mul(amplitude@, (Q { n: 2 * (k as int) - DRAW_SPAN as int, d: DRAW_SPAN as int })),
        q_le(q_neg(amplitude@), r@),
        q_lt(r@, amplitude@),
{
    let t: i128 = 2 * (k as i128) - DRAW_SPAN;
    proof {
        lemma_mul_bounds(amplitude@.n, t as int, PARAM_NUM_BOUND as int, DRAW_SPAN as int);
        lemma_pos_mul_bounds(amplitude@.d, DRAW_SPAN as int, PARAM_DEN_BOUND as int, DRAW_SPAN
            as int);
        lemma_unit_scale(amplitude@.n, amplitude@.d, t as int, DRAW_SPAN as int);
    }
    Rat::from_parts(amplitude.numerator() * t, amplitude.denominator() * DRAW_SPAN)
}

/// Scaling a fraction in `[-1, 1)` by a positive amplitude keeps the result
/// within `[-amplitude, amplitude)`.
proof fn lemma_unit_scale(an: int, ad: int, t: int, s: int)
    by (nonlinear_arith)
    requires
        an > 0,
        ad > 0,
        s > 0,
        -s <= t < s,
    ensures
        (-an) * (ad * s) <= (an * t) * ad,
        (an * t) * ad < an * (ad * s),
{
}

/// The draw `k` falls under the probability threshold: `k / 2^64 < p`.
pub open spec fn bernoulli_hit(p: Q, k: int) -> bool {
    k * p.d < p.n * (DRAW_SPAN as int)
}

/// The raw draw `k` turned into a Bernoulli value: the full `amplitude` when
/// `k / 2^64` falls under the probability `p`, and zero otherwise. Over the
/// uniform draw this yields `amplitude` with probability `p`, to within one
/// part in `2^64`.
pub fn bernoulli_value(amplitude: &Rat, p: &Rat, k: u64) -> (r: Rat)
    requires
        q_wf(amplitude@),
        param_ok(p@),
        q_le(q_zero(), p@),
        q_le(p@, q_one()),
    ensures
        q_wf(r@),
        bernoulli_hit(p@, k as int) ==> r == *amplitude,
        !bernoulli_hit(p@, k as int) ==> r@ == q_zero(),
{
    proof {
        lemma_mul_bounds(k as int, p@.d, DRAW_SPAN as int, PARAM_DEN_BOUND as int);
        lemma_mul_bounds(p@.n, DRAW_SPAN as int, PARAM_NUM_BOUND as int, DRAW_SPAN as int);
    }
    let span: u128 = DRAW_SPAN as u128;
    let hit: bool = (k as u128) * (p.denominator() as u128) < (p.numerator() as u128) * span;
    if hit {
        *amplitude
    } else {
        Rat::whole(0)
    }
}

} // verus!
