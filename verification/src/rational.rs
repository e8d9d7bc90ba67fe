use vstd::prelude::*;

verus! {

/// A mathematical rational number: a pair of unbounded integers with a
/// positive denominator. All contracts of this crate speak about values of
/// this type; `Rat` is its executable counterpart.
pub ghost struct Q {
    pub n: int,
    pub d: int,
}

/// Well-formed rational: positive denominator.
pub open spec fn q_wf(q: Q) -> bool {
    q.d > 0
}

/// Equality of the represented rationals (cross multiplication).
pub open spec fn q_eq(a: Q, b: Q) -> bool {
    a.n * b.d == b.n * a.d
}

/// `a <= b` on the represented rationals, for well-formed operands.
pub open spec fn q_le(a: Q, b: Q) -> bool {
    a.n * b.d <= b.n * a.d
}

/// `a < b` on the represented rationals, for well-formed operands.
pub open spec fn q_lt(a: Q, b: Q) -> bool {
    a.n * b.d < b.n * a.d
}

pub open spec fn q_int(n: int) -> Q {
    Q { n: n, d: 1 }
}

pub open spec fn q_zero() -> Q {
    q_int(0)
}

pub open spec fn q_one() -> Q {
    q_int(1)
}

pub open spec fn q_add(a: Q, b: Q) -> Q {
    Q { n: a.n * b.d + b.n * a.d, d: a.d * b.d }
}

pub open spec fn q_sub(a: Q, b: Q) -> Q {
    Q { n: a.n * b.d - b.n * a.d, d: a.d * b.d }
}

pub open spec fn q_mul(a: Q, b: Q) -> Q {
    Q { n: a.n * b.n, d: a.d * b.d }
}

pub open spec fn q_neg(a: Q) -> Q {
    Q { n: -a.n, d: a.d }
}

pub open spec fn q_abs(a: Q) -> Q {
    Q { n: if a.n < 0 { -a.n } else { a.n }, d: a.d }
}

/// `a / b`, arranged so that the result is well-formed whenever `b.n != 0`.
pub open spec fn q_div(a: Q, b: Q) -> Q {
    if b.n >= 0 {
        Q { n: a.n * b.d, d: a.d * b.n }
    } else {
        Q { n: -(a.n * b.d), d: -(a.d * b.n) }
    }
}

/// `a` scaled by the integer `k`.
pub open spec fn q_scale(a: Q, k: int) -> Q {
    Q { n: a.n * k, d: a.d }
}

/// Integer division truncated toward zero, for a positive divisor.
pub open spec fn trunc_div(n: int, d: int) -> int {
    if n >= 0 {
        n / d
    } else {
        -((-n) / d)
    }
}

/// `t` reduced modulo the positive period `p`, keeping the sign of `t`:
/// `t - p * trunc(t / p)`. This is the remainder machine arithmetic
/// computes, so negative instants give an offset in `(-p, 0]`.
pub open spec fn q_mod(t: Q, p: Q) -> Q {
    q_sub(t, q_scale(p, trunc_div(q_div(t, p).n, q_div(t, p).d)))
}

/// `max(0, a)`, as a value: the clamp that rectification applies.
pub open spec fn q_clamp0(a: Q) -> Q {
    if a.n <= 0 {
        q_zero()
    } else {
        a
    }
}

/// Numerator within `[-nb, nb]`, denominator within `(0, db]`.
pub open spec fn q_bounded(a: Q, nb: int, db: int) -> bool {
    &&& -nb <= a.n <= nb
    &&& 0 < a.d <= db
}

pub open spec fn fits_i128(x: int) -> bool {
    i128::MIN as int <= x <= i128::MAX as int
}

/// Largest numerator magnitude accepted for a waveform parameter.
pub const PARAM_NUM_BOUND: i128 = 1_000_000_000_000;

/// Largest denominator accepted for a waveform parameter.
pub const PARAM_DEN_BOUND: i128 = 1_000_000;

/// A waveform parameter: magnitude at most a million, resolution one
/// millionth. Exact 128-bit arithmetic on every derived quantity is possible
/// within these limits.
pub open spec fn param_ok(q: Q) -> bool {
    q_bounded(q, PARAM_NUM_BOUND as int, PARAM_DEN_BOUND as int)
}

/// The sampling frequency is additionally kept to a million hertz with the
/// same resolution, so that grid instants stay within exact range.
pub open spec fn samp_ok(q: Q) -> bool {
    q_bounded(q, PARAM_DEN_BOUND as int, PARAM_DEN_BOUND as int)
}

/// An exact rational number, the executable form of `Q`.
#[derive(Clone, Copy, Debug, PartialEq, Eq, Structural)]
pub struct Rat {
    pub num: i128,
    pub den: i128,
}

impl View for Rat {
    type V = Q;

    open spec fn view(&self) -> Q {
        Q { n: self.num as int, d: self.den as int }
    }
}

impl Rat {
    /// Build the rational `num / den`.
    pub fn new(num: i64, den: i64) -> (r: Rat)
        requires
            den > 0,
        ensures
            r@ == (Q { n: num as int, d: den as int }),
            q_wf(r@),
    {
        Rat { num: num as i128, den: den as i128 }
    }

    /// The integer `n` as a rational.
    pub fn whole(n: i64) -> (r: Rat)
        ensures
            r@ == q_int(n as int),
            q_wf(r@),
    {
        Rat { num: n as i128, den: 1 }
    }

    pub fn numerator(&self) -> (r: i128)
        ensures
            r as int == self@.n,
    {
        self.num
    }

    pub fn denominator(&self) -> (r: i128)
        ensures
            r as int == self@.d,
    {
        self.den
    }

    /// Construction from raw 128-bit parts, for derived quantities.
    pub fn from_parts(num: i128, den: i128) -> (r: Rat)
        requires
            den > 0,
        ensures
            r@ == (Q { n: num as int, d: den as int }),
            q_wf(r@),
    {
        Rat { num, den }
    }
}

/// Exact sum. The caller shows that the (unreduced) result fits in 128 bits.
pub fn rat_add(a: &Rat, b: &Rat) -> (r: Rat)
    requires
        q_wf(a@),
        q_wf(b@),
        fits_i128(a@.n * b@.d),
        fits_i128(b@.n * a@.d),
        fits_i128(a@.n * b@.d + b@.n * a@.d),
        fits_i128(a@.d * b@.d),
    ensures
        r@ == q_add(a@, b@),
        q_wf(r@),
{
    proof {
        lemma_pos_mul_pos(a@.d, b@.d);
    }
    Rat { num: a.num * b.den + b.num * a.den, den: a.den * b.den }
}

/// Exact difference, under the same fit conditions as `rat_add`.
pub fn rat_sub(a: &Rat, b: &Rat) -> (r: Rat)
    requires
        q_wf(a@),
        q_wf(b@),
        fits_i128(a@.n * b@.d),
        fits_i128(b@.n * a@.d),
        fits_i128(a@.n * b@.d - b@.n * a@.d),
        fits_i128(a@.d * b@.d),
    ensures
        r@ == q_sub(a@, b@),
        q_wf(r@),
{
    proof {
        lemma_pos_mul_pos(a@.d, b@.d);
    }
    Rat { num: a.num * b.den - b.num * a.den, den: a.den * b.den }
}

/// Exact product.
pub fn rat_mul(a: &Rat, b: &Rat) -> (r: Rat)
    requires
        q_wf(a@),
        q_wf(b@),
        fits_i128(a@.n * b@.n),
        fits_i128(a@.d * b@.d),
    ensures
        r@ == q_mul(a@, b@),
        q_wf(r@),
{
    proof {
        lemma_pos_mul_pos(a@.d, b@.d);
    }
    Rat { num: a.num * b.num, den: a.den * b.den }
}

/// Exact negation.
pub fn rat_neg(a: &Rat) -> (r: Rat)
    requires
        q_wf(a@),
        (i128::MIN as int) < a@.n,
    ensures
        r@ == q_neg(a@),
        q_wf(r@),
{
    Rat { num: -a.num, den: a.den }
}

/// `a <= b` on the represented values.
pub fn rat_le(a: &Rat, b: &Rat) -> (r: bool)
    requires
        q_wf(a@),
        q_wf(b@),
        fits_i128(a@.n * b@.d),
        fits_i128(b@.n * a@.d),
    ensures
        r == q_le(a@, b@),
{
    a.num * b.den <= b.num * a.den
}

/// `a < b` on the represented values.
pub fn rat_lt(a: &Rat, b: &Rat) -> (r: bool)
    requires
        q_wf(a@),
        q_wf(b@),
        fits_i128(a@.n * b@.d),
        fits_i128(b@.n * a@.d),
    ensures
        r == q_lt(a@, b@),
{
    a.num * b.den < b.num * a.den
}

/// Value equality on the represented rationals.
pub fn rat_eq(a: &Rat, b: &Rat) -> (r: bool)
    requires
        q_wf(a@),
        q_wf(b@),
        fits_i128(a@.n * b@.d),
        fits_i128(b@.n * a@.d),
    ensures
        r == q_eq(a@, b@),
{
    a.num * b.den == b.num * a.den
}

/// Quotient and remainder of truncated division by a positive divisor:
/// `n == q * m + r`, with the remainder keeping the sign of `n`.
pub fn trunc_div_rem(n: i128, m: i128) -> (qr: (i128, i128))
    requires
        m > 0,
        (i128::MIN as int) < n as int,
    ensures
        qr.0 as int == trunc_div(n as int, m as int),
        n as int == qr.0 as int * m as int + qr.1 as int,
        n >= 0 ==> 0 <= qr.1 as int && (qr.1 as int) < m as int,
        n < 0 ==> -(m as int) < qr.1 as int && qr.1 <= 0,
{
    let nn: u128 = if n >= 0 {
        n as u128
    } else {
        (-n) as u128
    };
    let mm: u128 = m as u128;
    let q: u128 = nn / mm;
    let r: u128 = nn % mm;
    proof {
        assert(nn as int == q as int * mm as int + r as int && 0 <= r as int && (r as int) < mm as int)
            by (nonlinear_arith)
            requires
                mm > 0,
                q == nn as int / mm as int,
                r == nn as int % mm as int,
        ;
        assert(q as int <= nn as int) by (nonlinear_arith)
            requires
                mm as int >= 1,
                q as int >= 0,
                r as int >= 0,
                nn as int == q as int * mm as int + r as int,
        ;
    }
    let qi: i128 = q as i128;
    let ri: i128 = r as i128;
    if n >= 0 {
        (qi, ri)
    } else {
        proof {
            assert((-(qi as int)) * (m as int) == -(qi as int * m as int)) by (nonlinear_arith);
        }
        (-qi, -ri)
    }
}

/// Bound on a product from bounds on its factors.
pub proof fn lemma_mul_bounds(x: int, y: int, bx: int, by: int)
    by (nonlinear_arith)
    requires
        -bx <= x <= bx,
        -by <= y <= by,
        0 <= bx,
        0 <= by,
    ensures
        -(bx * by) <= x * y <= bx * by,
{
}

/// The product of positives is positive and respects the factor bounds.
pub proof fn lemma_pos_mul_bounds(x: int, y: int, bx: int, by: int)
    by (nonlinear_arith)
    requires
        0 < x <= bx,
        0 < y <= by,
    ensures
        0 < x * y <= bx * by,
{
}

pub proof fn lemma_pos_mul_pos(x: int, y: int)
    by (nonlinear_arith)
    requires
        0 < x,
        0 < y,
    ensures
        0 < x * y,
{
}

/// A rational above zero has a positive numerator.
pub proof fn lemma_q_pos_num(a: Q)
    requires
        q_lt(q_zero(), a),
    ensures
        a.n > 0,
{
    assert(q_zero().n * a.d == 0);
    assert(a.n * q_zero().d == a.n * 1int);
}

/// Multiplying both sides by a positive factor preserves order and equality.
pub proof fn lemma_mul_cancel(a: int, b: int, c: int)
    by (nonlinear_arith)
    requires
        c > 0,
    ensures
        (a * c < b * c) <==> (a < b),
        (a * c <= b * c) <==> (a <= b),
        (a * c == b * c) <==> (a == b),
{
}

pub proof fn lemma_mul_comm(x: int, y: int)
    by (nonlinear_arith)
    ensures
        x * y == y * x,
{
}

/// Regrouping a product of three factors.
pub proof fn lemma_mul3_shuffle(p: int, q: int, r: int)
    by (nonlinear_arith)
    ensures
        (p * q) * r == (p * r) * q,
        (p * q) * r == p * (q * r),
        (p * q) * r == q * (p * r),
        (p * q) * r == (q * r) * p,
{
}

/// Regrouping a product of four factors.
pub proof fn lemma_mul4_shuffle(p: int, q: int, r: int, s: int)
    by (nonlinear_arith)
    ensures
        (p * q) * (r * s) == (p * r) * (q * s),
        (p * q) * (r * s) == (p * s) * (q * r),
{
}

/// Scaling numerator and denominator by the same positive factor keeps the
/// value.
pub proof fn lemma_q_eq_scale(a: Q, c: int)
    by (nonlinear_arith)
    requires
        q_wf(a),
        c > 0,
    ensures
        q_eq(Q { n: a.n * c, d: a.d * c }, a),
        q_wf(Q { n: a.n * c, d: a.d * c }),
{
}

/// `q_eq` is an equivalence relation on well-formed rationals.
pub proof fn lemma_q_eq_trans(a: Q, b: Q, c: Q)
    by (nonlinear_arith)
    requires
        q_wf(a),
        q_wf(b),
        q_wf(c),
        q_eq(a, b),
        q_eq(b, c),
    ensures
        q_eq(a, c),
{
}

/// Strict and non-strict order chain together on well-formed rationals.
pub proof fn lemma_q_lt_le_trans(a: Q, b: Q, c: Q)
    by (nonlinear_arith)
    requires
        q_wf(a),
        q_wf(b),
        q_wf(c),
        q_lt(a, b),
        q_le(b, c),
    ensures
        q_lt(a, c),
{
}

/// Equal values have equally signed numerators, so the zero clamp respects
/// value equality.
pub proof fn lemma_q_clamp0_congruence(a: Q, b: Q)
    by (nonlinear_arith)
    requires
        q_wf(a),
        q_wf(b),
        q_eq(a, b),
    ensures
        q_eq(q_clamp0(a), q_clamp0(b)),
        q_wf(q_clamp0(a)),
{
}

/// Multiplication respects value equality of its operands.
pub proof fn lemma_q_mul_congruence(a: Q, a2: Q, b: Q, b2: Q)
    requires
        q_wf(a),
        q_wf(a2),
        q_wf(b),
        q_wf(b2),
        q_eq(a, a2),
        q_eq(b, b2),
    ensures
        q_eq(q_mul(a, b), q_mul(a2, b2)),
        q_wf(q_mul(a, b)),
        q_wf(q_mul(a2, b2)),
{
    lemma_pos_mul_pos(a.d, b.d);
    lemma_pos_mul_pos(a2.d, b2.d);
    assert((a.n * a2.d) * (b.n * b2.d) == (a2.n * a.d) * (b.n * b2.d));
    assert((a2.n * a.d) * (b.n * b2.d) == (a2.n * a.d) * (b2.n * b.d));
    lemma_mul4_shuffle(a.n, b.n, a2.d, b2.d);
    lemma_mul4_shuffle(a2.n, b2.n, a.d, b.d);
}

} // verus!
