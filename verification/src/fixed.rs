//! Signed fixed-point scalars.
//!
//! A scalar is stored as `raw / SCALE` with `raw` a signed 64-bit integer
//! kept inside `[-BOUND, BOUND]` by a type invariant.  Every operation
//! saturates at that bound ("clips"), and its contract states the computed
//! value exactly over the mathematical integers.

use vstd::prelude::*;

verus! {

/// Number of raw units per whole unit (2^20).
pub const SCALE: i64 = 1048576;

/// Largest raw magnitude a scalar may hold (2^40).
pub const BOUND: i64 = 1099511627776;

/// Raw values at or below this threshold count as the ray-parameter cutoff
/// that suppresses self-intersection ("shadow acne"); about 1e-4 in whole
/// units.
pub const MIN_RAY_T: i64 = 100;

/// Half turn in raw units (pi scaled by `SCALE`).
pub const PI_FX: i64 = 3294199;

/// Quarter turn in raw units.
pub const HALF_PI_FX: i64 = 1647099;

/// Full turn in raw units.
pub const TWO_PI_FX: i64 = 6588398;

/// Saturation to the representable range.
pub open spec fn clip(x: int) -> int {
    if x > BOUND as int {
        BOUND as int
    } else if x < -(BOUND as int) {
        -(BOUND as int)
    } else {
        x
    }
}

pub open spec fn abs_i(x: int) -> int {
    if x >= 0 {
        x
    } else {
        -x
    }
}

/// Division rounding toward zero, as the executable code performs it.
pub open spec fn tdiv(n: int, d: int) -> int {
    let q = abs_i(n) / abs_i(d);
    if (n >= 0) == (d >= 0) {
        q
    } else {
        -q
    }
}

/// Fixed-point addition.
pub open spec fn fadd(a: int, b: int) -> int {
    clip(a + b)
}

/// Fixed-point subtraction.
pub open spec fn fsub(a: int, b: int) -> int {
    clip(a - b)
}

/// Fixed-point multiplication.
pub open spec fn fmul(a: int, b: int) -> int {
    clip(tdiv(a * b, SCALE as int))
}

/// Fixed-point division.
pub open spec fn fdiv(a: int, b: int) -> int {
    clip(tdiv(a * (SCALE as int), b))
}

/// Wraps an angle into `[-pi, pi)` (Euclidean remainder).
pub open spec fn wrap_pi(a: int) -> int {
    (a + PI_FX) % (TWO_PI_FX as int) - PI_FX
}

/// Polynomial approximation of the cosine on `[0, pi/2]`:
/// `1 - x^2/2 + x^4/24 - x^6/720 + x^8/40320` in fixed point.
pub open spec fn cos_core(x: int) -> int {
    let x2 = fmul(x, x);
    let x4 = fmul(x2, x2);
    let x6 = fmul(x4, x2);
    let x8 = fmul(x4, x4);
    fadd(
        fsub(fadd(fsub(SCALE as int, clip(tdiv(x2, 2))), clip(tdiv(x4, 24))), clip(tdiv(x6, 720))),
        clip(tdiv(x8, 40320)),
    )
}

/// Cosine of an angle in fixed-point radians.
pub open spec fn cos_s(a: int) -> int {
    let r = abs_i(wrap_pi(a));
    if r > HALF_PI_FX {
        -cos_core(PI_FX - r)
    } else {
        cos_core(r)
    }
}

/// Sine of an angle, as the cosine shifted by a quarter turn.
pub open spec fn sin_s(a: int) -> int {
    cos_s(fsub(a, HALF_PI_FX as int))
}

/// `r` is the integer square root of `n`.
pub open spec fn is_isqrt(n: int, r: int) -> bool {
    &&& 0 <= r
    &&& r * r <= n
    &&& n < (r + 1) * (r + 1)
}

pub open spec fn isqrt_s(n: int) -> int {
    choose|r: int| is_isqrt(n, r)
}

/// Fixed-point square root: the square root of `a / SCALE` is
/// `isqrt(a * SCALE) / SCALE`.
pub open spec fn fsqrt(a: int) -> int {
    isqrt_s(a * (SCALE as int))
}

pub proof fn lemma_isqrt_unique(n: int, r1: int, r2: int)
    requires
        is_isqrt(n, r1),
        is_isqrt(n, r2),
    ensures
        r1 == r2,
{
    if r1 < r2 {
        assert(r2 * r2 <= n);
        assert((r1 + 1) * (r1 + 1) <= r2 * r2) by (nonlinear_arith)
            requires
                0 <= r1,
                r1 + 1 <= r2,
        ;
    }
    if r2 < r1 {
        assert((r2 + 1) * (r2 + 1) <= r1 * r1) by (nonlinear_arith)
            requires
                0 <= r2,
                r2 + 1 <= r1,
        ;
    }
}

/// Truncating division of a non-negative value by a positive one is
/// non-negative.
pub proof fn lemma_tdiv_nonneg(n: int, d: int)
    requires
        n >= 0,
        d > 0,
    ensures
        0 <= tdiv(n, d),
{
    assert(n / d >= 0) by (nonlinear_arith)
        requires
            n >= 0,
            d > 0,
    ;
}

/// Bound on the magnitude of a product from bounds on its factors.
pub proof fn lemma_abs_mul_le(a: int, b: int, ca: int, cb: int)
    requires
        abs_i(a) <= ca,
        abs_i(b) <= cb,
    ensures
        abs_i(a * b) <= ca * cb,
{
    assert(abs_i(a * b) <= ca * cb) by (nonlinear_arith)
        requires
            abs_i(a) <= ca,
            abs_i(b) <= cb,
    ;
}

/// A fixed-point scalar.
#[derive(Clone, Copy, Debug, PartialEq, Eq, Structural)]
pub struct Fx {
    raw: i64,
}

impl View for Fx {
    type V = int;

    closed spec fn view(&self) -> int {
        self.raw as int
    }
}

impl Fx {
    /// Every constructed scalar lies within the saturation bound.
    #[verifier::type_invariant]
    pub open spec fn inv(self) -> bool {
        -(BOUND as int) <= self@ <= BOUND as int
    }

    /// Builds a scalar from a raw (already scaled) value, saturating.
    pub fn from_raw(raw: i64) -> (r: Fx)
        ensures
            r@ == clip(raw as int),
    {
        if raw > BOUND {
            Fx { raw: BOUND }
        } else if raw < -BOUND {
            Fx { raw: -BOUND }
        } else {
            Fx { raw }
        }
    }

    /// Builds a scalar holding the given whole number.
    pub fn from_int(v: i64) -> (r: Fx)
        ensures
            r@ == clip(v * SCALE as int),
    {
        proof {
            lemma_abs_mul_le(v as int, SCALE as int, 0x8000000000000000, SCALE as int);
        }
        let wide: i128 = (v as i128) * (SCALE as i128);
        clip_i128(wide)
    }

    pub fn zero() -> (r: Fx)
        ensures
            r@ == 0,
    {
        Fx { raw: 0 }
    }

    pub fn one() -> (r: Fx)
        ensures
            r@ == SCALE as int,
    {
        Fx { raw: SCALE }
    }

    /// The underlying scaled representation.
    pub fn raw(self) -> (r: i64)
        ensures
            r as int == self@,
    {
        self.raw
    }

    pub fn add(self, o: Fx) -> (r: Fx)
        ensures
            r@ == fadd(self@, o@),
    {
        proof {
            use_type_invariant(self);
            use_type_invariant(o);
        }
        Fx::from_raw(self.raw + o.raw)
    }

    pub fn sub(self, o: Fx) -> (r: Fx)
        ensures
            r@ == fsub(self@, o@),
    {
        proof {
            use_type_invariant(self);
            use_type_invariant(o);
        }
        Fx::from_raw(self.raw - o.raw)
    }

    pub fn neg(self) -> (r: Fx)
        ensures
            r@ == -self@,
    {
        proof {
            use_type_invariant(self);
        }
        Fx { raw: -self.raw }
    }

    pub fn abs(self) -> (r: Fx)
        ensures
            r@ == abs_i(self@),
    {
        proof {
            use_type_invariant(self);
        }
        if self.raw < 0 {
            Fx { raw: -self.raw }
        } else {
            self
        }
    }

    pub fn min(self, o: Fx) -> (r: Fx)
        ensures
            r@ == if self@ <= o@ { self@ } else { o@ },
    {
        if self.raw <= o.raw {
            self
        } else {
            o
        }
    }

    pub fn max(self, o: Fx) -> (r: Fx)
        ensures
            r@ == if self@ >= o@ { self@ } else { o@ },
    {
        if self.raw >= o.raw {
            self
        } else {
            o
        }
    }

    pub fn lt(self, o: Fx) -> (r: bool)
        ensures
            r == (self@ < o@),
    {
        self.raw < o.raw
    }

    pub fn le(self, o: Fx) -> (r: bool)
        ensures
            r == (self@ <= o@),
    {
        self.raw <= o.raw
    }

    pub fn is_zero(self) -> (r: bool)
        ensures
            r == (self@ == 0),
    {
        self.raw == 0
    }

    pub fn mul(self, o: Fx) -> (r: Fx)
        ensures
            r@ == fmul(self@, o@),
    {
        proof {
            use_type_invariant(self);
            use_type_invariant(o);
            lemma_abs_mul_le(self.raw as int, o.raw as int, BOUND as int, BOUND as int);
        }
        let wide: i128 = (self.raw as i128) * (o.raw as i128);
        let q: i128 = tdiv_i128(wide, SCALE as i128);
        clip_i128(q)
    }

    pub fn div(self, o: Fx) -> (r: Fx)
        requires
            o@ != 0,
        ensures
            r@ == fdiv(self@, o@),
    {
        proof {
            use_type_invariant(self);
            use_type_invariant(o);
            lemma_abs_mul_le(self.raw as int, SCALE as int, BOUND as int, SCALE as int);
        }
        let wide: i128 = (self.raw as i128) * (SCALE as i128);
        let q: i128 = tdiv_i128(wide, o.raw as i128);
        clip_i128(q)
    }

    pub fn sqrt(self) -> (r: Fx)
        requires
            self@ >= 0,
        ensures
            r@ == fsqrt(self@),
            r@ >= 0,
    {
        proof {
            use_type_invariant(self);
        }
        let wide: u128 = ((self.raw as i128) * (SCALE as i128)) as u128;
        let root: u128 = isqrt_u128(wide);
        proof {
            let n = self.raw as int * SCALE as int;
            assert(root * root <= n);
            assert(root as int <= 2147483648) by (nonlinear_arith)
                requires
                    root * root <= n,
                    n <= 1152921504606846976,
                    root >= 0,
            ;
            assert(is_isqrt(n, isqrt_s(n))) by {
                assert(is_isqrt(n, root as int));
            }
            lemma_isqrt_unique(n, root as int, isqrt_s(n));
        }
        Fx { raw: root as i64 }
    }

    /// Division by a positive machine integer.
    pub fn div_int(self, d: i64) -> (r: Fx)
        requires
            d > 0,
        ensures
            r@ == clip(tdiv(self@, d as int)),
    {
        proof {
            use_type_invariant(self);
        }
        let q: i128 = tdiv_i128(self.raw as i128, d as i128);
        clip_i128(q)
    }

    /// Cosine of an angle given in fixed-point radians.
    pub fn cos(self) -> (r: Fx)
        ensures
            r@ == cos_s(self@),
    {
        proof {
            use_type_invariant(self);
        }
        let w: i64 = wrap_pi_i64(self.raw);
        let m: i64 = if w < 0 {
            -w
        } else {
            w
        };
        if m > HALF_PI_FX {
            cos_core_fx(Fx { raw: PI_FX - m }).neg()
        } else {
            cos_core_fx(Fx { raw: m })
        }
    }

    /// Sine of an angle given in fixed-point radians.
    pub fn sin(self) -> (r: Fx)
        ensures
            r@ == sin_s(self@),
    {
        self.sub(Fx { raw: HALF_PI_FX }).cos()
    }

}

/// Saturates a wide intermediate back into a scalar.
fn clip_i128(x: i128) -> (r: Fx)
    ensures
        r@ == clip(x as int),
{
    if x > BOUND as i128 {
        Fx { raw: BOUND }
    } else if x < -(BOUND as i128) {
        Fx { raw: -BOUND }
    } else {
        Fx { raw: x as i64 }
    }
}

/// Division of wide intermediates, rounding toward zero.
fn tdiv_i128(n: i128, d: i128) -> (r: i128)
    requires
        d != 0,
        abs_i(n as int) < 0x40000000000000000000000000000000,
        abs_i(d as int) < 0x40000000000000000000000000000000,
    ensures
        r as int == tdiv(n as int, d as int),
{
    let na: u128 = if n < 0 {
        (-n) as u128
    } else {
        n as u128
    };
    let da: u128 = if d < 0 {
        (-d) as u128
    } else {
        d as u128
    };
    let q: u128 = na / da;
    proof {
        assert(na as int == abs_i(n as int));
        assert(da as int == abs_i(d as int));
        assert(q as int == abs_i(n as int) / abs_i(d as int));
        assert(q as int <= na as int) by (nonlinear_arith)
            requires
                da >= 1,
                q as int == na as int / da as int,
                na >= 0,
        ;
    }
    if (n < 0) == (d < 0) {
        q as i128
    } else {
        -(q as i128)
    }
}

/// Evaluates the cosine polynomial on an already-reduced angle.
fn cos_core_fx(x: Fx) -> (r: Fx)
    ensures
        r@ == cos_core(x@),
{
    let x2 = x.mul(x);
    let x4 = x2.mul(x2);
    let x6 = x4.mul(x2);
    let x8 = x4.mul(x4);
    Fx::one().sub(x2.div_int(2)).add(x4.div_int(24)).sub(x6.div_int(720)).add(x8.div_int(40320))
}

/// Number of full turns that shifts any representable angle into the
/// non-negative range.
const WRAP_TURNS: i64 = 166887;

/// Reduces an angle to `[-pi, pi)`.
fn wrap_pi_i64(a: i64) -> (r: i64)
    requires
        -(BOUND as int) <= a as int <= BOUND as int,
    ensures
        r as int == wrap_pi(a as int),
{
    let shifted: i64 = a + PI_FX + TWO_PI_FX * WRAP_TURNS;
    proof {
        assert(TWO_PI_FX * WRAP_TURNS == 1099517977026) by (nonlinear_arith);
        assert(shifted >= 0);
        vstd::arithmetic::div_mod::lemma_mod_multiples_vanish(
            WRAP_TURNS as int,
            a + PI_FX,
            TWO_PI_FX as int,
        );
    }
    let m: u64 = (shifted as u64) % (TWO_PI_FX as u64);
    m as i64 - PI_FX
}

/// Integer square root by bisection.
fn isqrt_u128(n: u128) -> (r: u128)
    requires
        n < 0x40000000000000000000000000000000,
    ensures
        is_isqrt(n as int, r as int),
{
    let mut lo: u128 = 0;
    let mut hi: u128 = 0x8000000000000000;
    proof {
        assert((hi as int) * (hi as int) > n as int) by (nonlinear_arith)
            requires
                hi as int == 0x8000000000000000,
                n < 0x40000000000000000000000000000000,
        ;
    }
    while hi - lo > 1
        invariant
            0 <= lo < hi <= 0x8000000000000000,
            lo * lo <= n,
            (hi as int) * (hi as int) > n as int,
        decreases hi - lo,
    {
        let mid: u128 = lo + (hi - lo) / 2;
        proof {
            assert((mid as int) * (mid as int) <= 0x40000000000000000000000000000000int)
                by (nonlinear_arith)
                requires
                    0 <= mid as int <= 0x8000000000000000,
            ;
        }
        if mid * mid <= n {
            lo = mid;
        } else {
            hi = mid;
        }
    }
    lo
}

} // verus!
