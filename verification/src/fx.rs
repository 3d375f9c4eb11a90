//! Saturating fixed-point scalars.
//!
//! An [`Fx`] value stores a signed 64-bit mantissa `v` and denotes the real
//! number `v / SCALE`.  All arithmetic is total: results are rounded toward
//! zero and clamped (saturated) into the mantissa range, so no operation
//! overflows or panics.

use vstd::prelude::*;

verus! {

/// Scale factor of the fixed-point representation: 2^32.
pub const SCALE: i64 = 4294967296;

/// Absolute value of a mathematical integer.
pub open spec fn abs_int(a: int) -> int {
    if a < 0 {
        -a
    } else {
        a
    }
}

/// Quotient of `a` by `b` rounded toward zero, the rounding Rust's integer
/// division uses.
pub open spec fn tdiv(a: int, b: int) -> int {
    let q = abs_int(a) / abs_int(b);
    if (a < 0) == (b < 0) {
        q
    } else {
        -q
    }
}

/// Clamp a mathematical integer into the `i64` mantissa range.
pub open spec fn sat(x: int) -> int {
    if x > i64::MAX {
        i64::MAX as int
    } else if x < i64::MIN {
        i64::MIN as int
    } else {
        x
    }
}

/// `r` is the integer square root of `n`: the largest `r` with `r * r <= n`.
pub open spec fn is_sqrt_of(n: int, r: int) -> bool {
    0 <= r && r * r <= n && n < (r + 1) * (r + 1)
}

/// The integer square root of `n` (meaningful for `n >= 0`).
pub open spec fn spec_isqrt(n: int) -> int {
    choose|r: int| is_sqrt_of(n, r)
}

/// Saturating sum of two mantissas.
pub open spec fn fx_sum(a: int, b: int) -> int {
    sat(a + b)
}

/// Saturating difference of two mantissas.
pub open spec fn fx_diff(a: int, b: int) -> int {
    sat(a - b)
}

/// Saturating fixed-point product of two mantissas.
pub open spec fn fx_product(a: int, b: int) -> int {
    sat(tdiv(a * b, SCALE as int))
}

/// Saturating fixed-point quotient of two mantissas (meaningful for `b != 0`).
pub open spec fn fx_quot(a: int, b: int) -> int {
    sat(tdiv(a * (SCALE as int), b))
}

/// Saturating quotient that is zero on a zero divisor (total form).
pub open spec fn fx_quot_total(a: int, b: int) -> int {
    if b == 0 {
        0
    } else {
        fx_quot(a, b)
    }
}

/// Saturating negation of a mantissa.
pub open spec fn fx_negate(a: int) -> int {
    sat(-a)
}

/// Saturating absolute value of a mantissa.
pub open spec fn fx_magnitude(a: int) -> int {
    sat(abs_int(a))
}

/// Fixed-point square root of a mantissa, rounded down (meaningful for
/// `a >= 0`).
pub open spec fn fx_root(a: int) -> int {
    spec_isqrt(a * (SCALE as int))
}

/// Saturating dot product of the first `n` entries of two mantissa
/// sequences, accumulated left to right.
pub open spec fn fx_dot_prefix(a: Seq<int>, b: Seq<int>, n: nat) -> int
    decreases n,
{
    if n == 0 {
        0
    } else {
        fx_sum(fx_dot_prefix(a, b, (n - 1) as nat), fx_product(a[n - 1], b[n - 1]))
    }
}

/// Saturating dot product of columns `c1` and `c2` over the first `n` rows.
pub open spec fn fx_col_dot(rows: Seq<Seq<int>>, c1: int, c2: int, n: nat) -> int
    decreases n,
{
    if n == 0 {
        0
    } else {
        fx_sum(fx_col_dot(rows, c1, c2, (n - 1) as nat), fx_product(rows[n - 1][c1], rows[n - 1][c2]))
    }
}

/// Euclidean norm of a mantissa sequence: the fixed-point square root of the
/// saturating sum of the squared entries.
pub open spec fn fx_norm(s: Seq<int>) -> int {
    fx_root(fx_dot_prefix(s, s, s.len()))
}

/// A saturating dot product of a sequence with itself is nonnegative.
pub proof fn lemma_dot_self_nonneg(s: Seq<int>, n: nat)
    ensures
        fx_dot_prefix(s, s, n) >= 0,
    decreases n,
{
    if n > 0 {
        lemma_dot_self_nonneg(s, (n - 1) as nat);
        let x = s[n - 1];
        assert(x * x >= 0) by (nonlinear_arith);
    }
}

/// Two integer square roots of the same number are equal.
pub proof fn lemma_isqrt_unique(n: int, r1: int, r2: int)
    requires
        is_sqrt_of(n, r1),
        is_sqrt_of(n, r2),
    ensures
        r1 == r2,
{
    assert(r1 == r2) by (nonlinear_arith)
        requires
            0 <= r1,
            r1 * r1 <= n,
            n < (r1 + 1) * (r1 + 1),
            0 <= r2,
            r2 * r2 <= n,
            n < (r2 + 1) * (r2 + 1),
    ;
}

/// The magnitude of a product is the product of the magnitudes.
proof fn lemma_abs_mul(a: int, b: int)
    ensures
        abs_int(a * b) == abs_int(a) * abs_int(b),
        a * b < 0 <==> (a < 0) != (b < 0) && a * b != 0,
        a * b == 0 <==> a == 0 || b == 0,
{
    assert(abs_int(a * b) == abs_int(a) * abs_int(b) && (a * b < 0 <==> (a < 0) != (b < 0)
        && a * b != 0) && (a * b == 0 <==> a == 0 || b == 0)) by (nonlinear_arith);
}

/// Fixed-point scalar denoting the real number `raw() / SCALE`.
#[derive(Clone, Copy, Debug, PartialEq, Eq, Structural)]
pub struct Fx {
    v: i64,
}

/// Magnitude of an `i64`, widened so that `i64::MIN` needs no special case.
fn abs64(a: i64) -> (r: u128)
    ensures
        r as int == abs_int(a as int),
{
    if a >= 0 {
        a as u128
    } else {
        (-(a as i128)) as u128
    }
}

/// `sat(tdiv(a * b, d))`, computed on sign-magnitude form.
fn sat_muldiv(a: i64, b: i64, d: i64) -> (r: i64)
    requires
        d != 0,
    ensures
        r as int == sat(tdiv(a as int * b as int, d as int)),
{
    let am = abs64(a);
    let bm = abs64(b);
    let dm = abs64(d);
    assert(am * bm <= 170141183460469231731687303715884105728u128) by (nonlinear_arith)
        requires
            am <= 9223372036854775808u128,
            bm <= 9223372036854775808u128,
    ;
    let p: u128 = am * bm;
    let q: u128 = p / dm;
    let neg = ((a < 0) != (b < 0)) != (d < 0);
    proof {
        lemma_abs_mul(a as int, b as int);
    }
    if neg {
        if q >= 9223372036854775808u128 {
            i64::MIN
        } else {
            (-(q as i128)) as i64
        }
    } else {
        if q >= 9223372036854775807u128 {
            i64::MAX
        } else {
            q as i64
        }
    }
}

impl Fx {
    /// The mantissa as a mathematical integer; the value denoted is
    /// `raw() / SCALE`.
    pub closed spec fn raw(self) -> int {
        self.v as int
    }

    /// The fixed-point zero.
    pub fn zero() -> (r: Fx)
        ensures
            r.raw() == 0,
    {
        Fx { v: 0 }
    }

    /// The integer `n` as a fixed-point value.
    pub fn from_int(n: i32) -> (r: Fx)
        ensures
            r.raw() == n * SCALE,
    {
        Fx { v: (n as i64) * SCALE }
    }

    /// The value `n / 1_000_000` as a fixed-point value, rounded toward zero
    /// and saturated.
    pub fn from_millionths(n: i64) -> (r: Fx)
        ensures
            r.raw() == sat(tdiv(n * SCALE, 1000000)),
    {
        Fx { v: sat_muldiv(n, SCALE, 1000000) }
    }

    /// The value in millionths, rounded toward zero and saturated; the exact
    /// inspection used by callers outside the crate.
    pub fn to_millionths(self) -> (r: i64)
        ensures
            r as int == sat(tdiv(self.raw() * 1000000, SCALE as int)),
    {
        sat_muldiv(self.v, 1000000, SCALE)
    }

    /// Saturating sum.
    pub fn plus(self, o: Fx) -> (r: Fx)
        ensures
            r.raw() == fx_sum(self.raw(), o.raw()),
    {
        let s: i128 = self.v as i128 + o.v as i128;
        if s > i64::MAX as i128 {
            Fx { v: i64::MAX }
        } else if s < i64::MIN as i128 {
            Fx { v: i64::MIN }
        } else {
            Fx { v: s as i64 }
        }
    }

    /// Saturating difference `self - o`.
    pub fn minus(self, o: Fx) -> (r: Fx)
        ensures
            r.raw() == fx_diff(self.raw(), o.raw()),
    {
        let s: i128 = self.v as i128 - o.v as i128;
        if s > i64::MAX as i128 {
            Fx { v: i64::MAX }
        } else if s < i64::MIN as i128 {
            Fx { v: i64::MIN }
        } else {
            Fx { v: s as i64 }
        }
    }

    /// Saturating negation.
    pub fn neg(self) -> (r: Fx)
        ensures
            r.raw() == fx_negate(self.raw()),
    {
        if self.v == i64::MIN {
            Fx { v: i64::MAX }
        } else {
            Fx { v: -self.v }
        }
    }

    /// Saturating absolute value.
    pub fn abs_val(self) -> (r: Fx)
        ensures
            r.raw() == fx_magnitude(self.raw()),
    {
        if self.v < 0 {
            self.neg()
        } else {
            self
        }
    }

    /// Saturating fixed-point product `self * o`.
    pub fn times(self, o: Fx) -> (r: Fx)
        ensures
            r.raw() == fx_product(self.raw(), o.raw()),
    {
        Fx { v: sat_muldiv(self.v, o.v, SCALE) }
    }

    /// Saturating fixed-point quotient `self / o`.
    pub fn over(self, o: Fx) -> (r: Fx)
        requires
            o.raw() != 0,
        ensures
            r.raw() == fx_quot(self.raw(), o.raw()),
    {
        Fx { v: sat_muldiv(self.v, SCALE, o.v) }
    }

    /// Saturating fixed-point quotient that returns zero on a zero divisor.
    pub fn over_total(self, o: Fx) -> (r: Fx)
        ensures
            r.raw() == fx_quot_total(self.raw(), o.raw()),
    {
        if o.is_zero() {
            Fx::zero()
        } else {
            self.over(o)
        }
    }

    /// Strict comparison of the denoted values.
    pub fn lt(self, o: Fx) -> (r: bool)
        ensures
            r == (self.raw() < o.raw()),
    {
        self.v < o.v
    }

    /// Whether the value is exactly zero.
    pub fn is_zero(self) -> (r: bool)
        ensures
            r == (self.raw() == 0),
    {
        self.v == 0
    }

    /// Fixed-point square root, rounded down.
    pub fn sqrt_val(self) -> (r: Fx)
        requires
            self.raw() >= 0,
        ensures
            r.raw() == fx_root(self.raw()),
            is_sqrt_of(self.raw() * (SCALE as int), r.raw()),
    {
        let n: u128 = (self.v as u128) * (SCALE as u128);
        let r = isqrt_u128(n);
        proof {
            lemma_isqrt_unique(n as int, r as int, spec_isqrt(n as int));
        }
        Fx { v: r as i64 }
    }
}

/// Integer square root by bisection.
fn isqrt_u128(n: u128) -> (r: u64)
    requires
        n < 79228162514264337593543950336u128,
    ensures
        is_sqrt_of(n as int, r as int),
        r < 281474976710656u64,
{
    let mut lo: u128 = 0;
    let mut hi: u128 = 281474976710656u128;
    while hi - lo > 1
        invariant
            0 <= lo < hi <= 281474976710656u128,
            lo * lo <= n,
            n < hi * hi,
        decreases hi - lo,
    {
        let mid = lo + (hi - lo) / 2;
        assert(mid * mid < 79228162514264337593543950336u128) by (nonlinear_arith)
            requires
                mid < 281474976710656u128,
        ;
        if mid * mid <= n {
            lo = mid;
        } else {
            hi = mid;
        }
    }
    lo as u64
}

} // verus!
