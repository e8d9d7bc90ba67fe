use vstd::prelude::*;
use crate::rational::{
    PARAM_DEN_BOUND, PARAM_NUM_BOUND, Q, Rat, lemma_mul3_shuffle, lemma_mul_bounds,
    lemma_mul_cancel, lemma_mul_comm, lemma_pos_mul_bounds, lemma_pos_mul_pos, param_ok, q_add,
    q_bounded, q_le, q_lt, q_mul, q_sub, q_wf, q_zero, rat_lt, samp_ok,
};
use crate::value::SignalError;

verus! {

/// Largest number of instants a grid may carry.
pub const MAX_GRID_LEN: usize = 0x4000_0000;

/// Bound on the numerator magnitude of a grid instant (two to the 71st).
pub const GRID_NUM_BOUND: i128 = 2361183241434822606848;

/// Bound on the denominator of a grid instant (two to the 40th).
pub const GRID_DEN_BOUND: i128 = 1099511627776;

/// Bound on the numerator magnitude of an end point handed to the builder
/// (two to the 83rd).
pub const END_NUM_BOUND: i128 = 9671406556917033397649408;

/// Bound on the denominator of an end point handed to the builder (two to
/// the 60th).
pub const END_DEN_BOUND: i128 = 1152921504606846976;

/// A rational that may stand as a grid instant.
pub open spec fn instant_ok(q: Q) -> bool {
    q_bounded(q, GRID_NUM_BOUND as int, GRID_DEN_BOUND as int)
}

/// The `i`-th instant of the grid: `start + i / freq`.
pub open spec fn grid_instant(start: Q, freq: Q, i: int) -> Q {
    q_add(start, Q { n: i * freq.d, d: freq.n })
}

/// How many instants the grid holds: `floor((end - start) * freq)`, clamped
/// at zero, so `end <= start` gives an empty grid. The end instant itself is
/// never included.
pub open spec fn grid_count(start: Q, end: Q, freq: Q) -> int {
    let x = q_mul(q_sub(end, start), freq);
    if x.n <= 0 {
        0
    } else {
        x.n / x.d
    }
}

/// All instants of the sequence share one denominator and stay within the
/// grid bounds.
pub open spec fn grid_ok(pts: Seq<Rat>) -> bool {
    forall|i: int|
        0 <= i < pts.len() ==> instant_ok(#[trigger] pts[i]@) && pts[i]@.d == pts[0]@.d
}

/// Grid instants strictly increase with their index.
pub proof fn lemma_grid_strictly_increasing(start: Q, freq: Q, i: int, j: int)
    requires
        q_wf(start),
        q_wf(freq),
        freq.n > 0,
        freq.d > 0,
        i < j,
    ensures
        q_lt(grid_instant(start, freq, i), grid_instant(start, freq, j)),
{
    let gi = grid_instant(start, freq, i);
    let gj = grid_instant(start, freq, j);
    assert(gi.d == gj.d);
    lemma_pos_mul_pos(freq.d, start.d);
    lemma_mul_cancel(i, j, freq.d * start.d);
    lemma_mul3_shuffle(i, freq.d, start.d);
    lemma_mul3_shuffle(j, freq.d, start.d);
    assert(gi.n < gj.n);
    lemma_pos_mul_pos(start.d, freq.n);
    lemma_mul_cancel(gi.n, gj.n, gi.d);
}

/// Build the uniform sampling grid over `[starting_point, end_point)` at
/// `freq` hertz: `floor((end - start) * freq)` instants, the `i`-th being
/// `start + i / freq`. A non-positive frequency is rejected.
#[verifier::loop_isolation(false)]
pub fn linspace_by_freq(starting_point: &Rat, end_point: &Rat, freq: &Rat) -> (r: Result<
    Vec<Rat>,
    SignalError,
>)
    requires
        param_ok(starting_point@),
        samp_ok(freq@),
        q_bounded(end_point@, END_NUM_BOUND as int, END_DEN_BOUND as int),
        grid_count(starting_point@, end_point@, freq@) <= MAX_GRID_LEN as int,
    ensures
        match r {
            Ok(v) => {
                &&& q_lt(q_zero(), freq@)
                &&& v@.len() == grid_count(starting_point@, end_point@, freq@)
                &&& forall|i: int|
                    0 <= i < v@.len() ==> #[trigger] v@[i]@ == grid_instant(
                        starting_point@,
                        freq@,
                        i,
                    )
                &&& grid_ok(v@)
            },
            Err(e) => e == SignalError::InvalidParameter && q_le(freq@, q_zero()),
        },
{
    let zero = Rat::whole(0);
    if !rat_lt(&zero, freq) {
        return Err(SignalError::InvalidParameter);
    }
    let a: i128 = starting_point.num;
    let b: i128 = starting_point.den;
    let e: i128 = end_point.num;
    let f: i128 = end_point.den;
    let c: i128 = freq.num;
    let d: i128 = freq.den;
    proof {
        lemma_mul_bounds(e as int, b as int, END_NUM_BOUND as int, PARAM_DEN_BOUND as int);
        lemma_mul_bounds(a as int, f as int, PARAM_NUM_BOUND as int, END_DEN_BOUND as int);
        lemma_mul_bounds(
            e as int * b as int - a as int * f as int,
            c as int,
            (END_NUM_BOUND as int) * (PARAM_DEN_BOUND as int) + (PARAM_NUM_BOUND as int) * (
            END_DEN_BOUND as int),
            PARAM_DEN_BOUND as int,
        );
        lemma_pos_mul_bounds(b as int, f as int, PARAM_DEN_BOUND as int, END_DEN_BOUND as int);
        lemma_pos_mul_bounds(
            b as int * f as int,
            d as int,
            (PARAM_DEN_BOUND as int) * (END_DEN_BOUND as int),
            PARAM_DEN_BOUND as int,
        );
    }
    let x: i128 = (e * b - a * f) * c;
    let m: i128 = (b * f) * d;
    proof {
        lemma_mul_comm(f as int, b as int);
        assert(q_mul(q_sub(end_point@, starting_point@), freq@).n == x as int);
        assert(q_mul(q_sub(end_point@, starting_point@), freq@).d == m as int);
    }
    if x <= 0 {
        return Ok(Vec::new());
    }
    let count_wide: u128 = (x as u128) / (m as u128);
    proof {
        assert(count_wide as int == grid_count(starting_point@, end_point@, freq@));
        assert(count_wide <= MAX_GRID_LEN as u128);
    }
    let count: usize = count_wide as usize;
    proof {
        lemma_pos_mul_bounds(b as int, c as int, PARAM_DEN_BOUND as int, PARAM_DEN_BOUND as int);
    }
    let gden: i128 = b * c;
    let mut v: Vec<Rat> = Vec::new();
    let mut i: usize = 0;
    while i < count
        invariant
            0 <= i <= count,
            v@.len() == i,
            forall|j: int|
                0 <= j < i ==> #[trigger] v@[j]@ == grid_instant(starting_point@, freq@, j),
        decreases count - i,
    {
        proof {
            lemma_mul_bounds(a as int, c as int, PARAM_NUM_BOUND as int, PARAM_DEN_BOUND as int);
            lemma_mul_bounds(i as int, d as int, MAX_GRID_LEN as int, PARAM_DEN_BOUND as int);
            lemma_mul_bounds(
                i as int * d as int,
                b as int,
                (MAX_GRID_LEN as int) * (PARAM_DEN_BOUND as int),
                PARAM_DEN_BOUND as int,
            );
        }
        let num: i128 = a * c + ((i as i128) * d) * b;
        v.push(Rat::from_parts(num, gden));
        i = i + 1;
    }
    proof {
        assert forall|j: int| 0 <= j < v@.len() implies instant_ok(#[trigger] v@[j]@) && v@[j]@.d
            == v@[0]@.d by {
            lemma_mul_bounds(a as int, c as int, PARAM_NUM_BOUND as int, PARAM_DEN_BOUND as int);
            lemma_mul_bounds(j, d as int, MAX_GRID_LEN as int, PARAM_DEN_BOUND as int);
            lemma_mul_bounds(
                j * (d as int),
                b as int,
                (MAX_GRID_LEN as int) * (PARAM_DEN_BOUND as int),
                PARAM_DEN_BOUND as int,
            );
            lemma_pos_mul_bounds(
                b as int,
                c as int,
                PARAM_DEN_BOUND as int,
                PARAM_DEN_BOUND as int,
            );
        }
    }
    Ok(v)
}

} // verus!
