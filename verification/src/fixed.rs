//! Saturating fixed-point scalars with 16 fractional bits.
//!
//! A value is stored as a raw `i64`; the number it denotes is `raw / 65536`.
//! Every operation is total: results outside the `i64` range saturate, and
//! division by zero saturates by the sign of the dividend.  Each operation's
//! contract states the exact raw value produced.

use vstd::prelude::*;

verus! {

/// Raw representation of 1.0: the fixed-point scale.
pub const FX_ONE: i64 = 65536;

/// A fixed-point scalar; denotes `raw / 65536`.
#[derive(Clone, Copy, PartialEq, Eq, Structural, Debug)]
pub struct Fx {
    pub raw: i64,
}

/// Absolute value over `int`.
pub open spec fn iabs(x: int) -> int {
    if x >= 0 {
        x
    } else {
        -x
    }
}

/// Saturation of an unbounded integer into the `i64` range.
pub open spec fn sat64(x: int) -> int {
    if x > i64::MAX as int {
        i64::MAX as int
    } else if x < i64::MIN as int {
        i64::MIN as int
    } else {
        x
    }
}

/// Integer division truncating toward zero (0 when the divisor is 0).
pub open spec fn tdiv(a: int, b: int) -> int {
    if b == 0 {
        0
    } else if (a >= 0) == (b >= 0) {
        iabs(a) / iabs(b)
    } else {
        -(iabs(a) / iabs(b))
    }
}

/// Raw result of fixed-point addition.
pub open spec fn fx_add_raw(a: int, b: int) -> int {
    sat64(a + b)
}

/// Raw result of fixed-point subtraction.
pub open spec fn fx_sub_raw(a: int, b: int) -> int {
    sat64(a - b)
}

/// Raw result of fixed-point negation.
pub open spec fn fx_neg_raw(a: int) -> int {
    sat64(-a)
}

/// Raw result of fixed-point multiplication: the exact raw product is
/// rescaled by 65536 truncating toward zero, then saturated.
pub open spec fn fx_mul_raw(a: int, b: int) -> int {
    sat64(tdiv(a * b, 65536))
}

/// Raw result of fixed-point division: scaling by 65536 keeps the quotient
/// in fixed-point; a zero divisor saturates by the sign of the dividend.
pub open spec fn fx_div_raw(a: int, b: int) -> int {
    if b == 0 {
        if a > 0 {
            i64::MAX as int
        } else if a < 0 {
            i64::MIN as int
        } else {
            0
        }
    } else {
        sat64(tdiv(a * 65536, b))
    }
}

/// Fixed-point addition, at the level of `Fx` values.
pub open spec fn sadd(a: Fx, b: Fx) -> Fx {
    Fx { raw: fx_add_raw(a.raw as int, b.raw as int) as i64 }
}

/// Fixed-point subtraction, at the level of `Fx` values.
pub open spec fn ssub(a: Fx, b: Fx) -> Fx {
    Fx { raw: fx_sub_raw(a.raw as int, b.raw as int) as i64 }
}

/// Fixed-point multiplication, at the level of `Fx` values.
pub open spec fn smul(a: Fx, b: Fx) -> Fx {
    Fx { raw: fx_mul_raw(a.raw as int, b.raw as int) as i64 }
}

/// Fixed-point division, at the level of `Fx` values.
pub open spec fn sdivi(a: Fx, b: Fx) -> Fx {
    Fx { raw: fx_div_raw(a.raw as int, b.raw as int) as i64 }
}

/// Fixed-point negation, at the level of `Fx` values.
pub open spec fn sneg(a: Fx) -> Fx {
    Fx { raw: fx_neg_raw(a.raw as int) as i64 }
}

/// `r` is the integer square root of `n`: the greatest `r` with `r * r <= n`.
pub open spec fn is_isqrt(n: int, r: int) -> bool {
    0 <= r && r * r <= n && n < (r + 1) * (r + 1)
}

/// The integer square root, as a mathematical function of `n >= 0`.
pub open spec fn sqrt_floor(n: int) -> int {
    choose|r: int| is_isqrt(n, r)
}

proof fn lemma_isqrt_exists(n: int) -> (r: int)
    requires
        n >= 0,
    ensures
        is_isqrt(n, r),
    decreases n,
{
    if n == 0 {
        assert(is_isqrt(0, 0)) by (nonlinear_arith);
        0
    } else {
        let p = lemma_isqrt_exists(n - 1);
        if (p + 1) * (p + 1) <= n {
            assert(n < (p + 2) * (p + 2)) by (nonlinear_arith)
                requires
                    n - 1 < (p + 1) * (p + 1),
                    0 <= p,
            ;
            assert(is_isqrt(n, p + 1));
            p + 1
        } else {
            assert(is_isqrt(n, p));
            p
        }
    }
}

proof fn lemma_isqrt_unique(n: int, r1: int, r2: int)
    requires
        is_isqrt(n, r1),
        is_isqrt(n, r2),
    ensures
        r1 == r2,
{
    assert(r1 == r2) by (nonlinear_arith)
        requires
            0 <= r1 && r1 * r1 <= n && n < (r1 + 1) * (r1 + 1),
            0 <= r2 && r2 * r2 <= n && n < (r2 + 1) * (r2 + 1),
    ;
}

/// `sqrt_floor` deserves its name: for `n >= 0` it satisfies `is_isqrt`.
pub proof fn lemma_sqrt_floor(n: int)
    requires
        n >= 0,
    ensures
        is_isqrt(n, sqrt_floor(n)),
{
    let r = lemma_isqrt_exists(n);
    assert(is_isqrt(n, sqrt_floor(n))) by {
        assert(exists|q: int| is_isqrt(n, q)) by {
            assert(is_isqrt(n, r));
        }
    }
}

/// Magnitude of an `i64` as a `u64` (total, including `i64::MIN`).
pub(crate) fn mag64(x: i64) -> (m: u64)
    ensures
        m as int == iabs(x as int),
{
    if x >= 0 {
        x as u64
    } else {
        (-(x as i128)) as u64
    }
}

/// Saturate an unbounded-magnitude quotient back into an `i64` raw value.
pub(crate) fn sat_signed(neg: bool, q: u128) -> (r: i64)
    ensures
        r as int == sat64(
            if neg {
                -(q as int)
            } else {
                q as int
            },
        ),
{
    if neg {
        if q >= 9223372036854775808u128 {
            i64::MIN
        } else {
            (-(q as i128)) as i64
        }
    } else {
        if q > i64::MAX as u128 {
            i64::MAX
        } else {
            q as i64
        }
    }
}

fn sat_from_i128(x: i128) -> (r: i64)
    ensures
        r as int == sat64(x as int),
{
    if x > i64::MAX as i128 {
        i64::MAX
    } else if x < i64::MIN as i128 {
        i64::MIN
    } else {
        x as i64
    }
}

/// Decomposes a truncating division of a product into sign and magnitude.
proof fn lemma_tdiv_product(a: int, b: int, d: int)
    requires
        d > 0,
    ensures
        tdiv(a * b, d) == if (a >= 0) == (b >= 0) {
            (iabs(a) * iabs(b)) / d
        } else {
            -((iabs(a) * iabs(b)) / d)
        },
{
    assert(iabs(a * b) == iabs(a) * iabs(b)) by (nonlinear_arith);
    if (a >= 0) == (b >= 0) {
        assert(a * b >= 0) by (nonlinear_arith)
            requires
                (a >= 0) == (b >= 0),
        ;
    } else {
        assert(a * b <= 0) by (nonlinear_arith)
            requires
                (a >= 0) != (b >= 0),
        ;
        if a * b == 0 {
            assert(iabs(a) * iabs(b) == 0);
            assert((iabs(a) * iabs(b)) / d == 0);
        }
    }
}

impl Fx {
    /// Fixed-point zero.
    pub fn zero() -> (r: Fx)
        ensures
            r.raw == 0,
    {
        Fx { raw: 0 }
    }

    /// Fixed-point one.
    pub fn one() -> (r: Fx)
        ensures
            r.raw == FX_ONE,
    {
        Fx { raw: FX_ONE }
    }

    /// Builds the fixed-point value denoting the integer `v`.
    pub fn from_int(v: i64) -> (r: Fx)
        ensures
            r.raw as int == sat64(v * 65536),
    {
        Fx { raw: sat_from_i128((v as i128) * 65536) }
    }

    /// Saturating addition.
    pub fn plus(self, o: Fx) -> (r: Fx)
        ensures
            r.raw as int == fx_add_raw(self.raw as int, o.raw as int),
            r == sadd(self, o),
    {
        Fx { raw: sat_from_i128(self.raw as i128 + o.raw as i128) }
    }

    /// Saturating subtraction.
    pub fn minus(self, o: Fx) -> (r: Fx)
        ensures
            r.raw as int == fx_sub_raw(self.raw as int, o.raw as int),
            r == ssub(self, o),
    {
        Fx { raw: sat_from_i128(self.raw as i128 - o.raw as i128) }
    }

    /// Saturating negation.
    pub fn neg(self) -> (r: Fx)
        ensures
            r.raw as int == fx_neg_raw(self.raw as int),
            r == sneg(self),
    {
        Fx { raw: sat_from_i128(-(self.raw as i128)) }
    }

    /// Saturating fixed-point multiplication, truncating toward zero.
    pub fn times(self, o: Fx) -> (r: Fx)
        ensures
            r.raw as int == fx_mul_raw(self.raw as int, o.raw as int),
            r == smul(self, o),
    {
        let neg: bool = (self.raw < 0) != (o.raw < 0);
        let ma: u64 = mag64(self.raw);
        let mb: u64 = mag64(o.raw);
        proof {
            assert((ma as int) * (mb as int) <= 0x8000_0000_0000_0000 * 0x8000_0000_0000_0000)
                by (nonlinear_arith)
                requires
                    0 <= ma as int <= 0x8000_0000_0000_0000,
                    0 <= mb as int <= 0x8000_0000_0000_0000,
            ;
        }
        let m: u128 = (ma as u128) * (mb as u128);
        let q: u128 = m / 65536u128;
        proof {
            lemma_tdiv_product(self.raw as int, o.raw as int, 65536);
        }
        Fx { raw: sat_signed(neg, q) }
    }

    /// Saturating fixed-point division, truncating toward zero; a zero
    /// divisor saturates by the sign of the dividend.
    pub fn divide(self, o: Fx) -> (r: Fx)
        ensures
            r.raw as int == fx_div_raw(self.raw as int, o.raw as int),
            r == sdivi(self, o),
    {
        if o.raw == 0 {
            if self.raw > 0 {
                Fx { raw: i64::MAX }
            } else if self.raw < 0 {
                Fx { raw: i64::MIN }
            } else {
                Fx { raw: 0 }
            }
        } else {
            let neg: bool = (self.raw < 0) != (o.raw < 0);
            let n: u128 = (mag64(self.raw) as u128) * 65536u128;
            let q: u128 = n / (mag64(o.raw) as u128);
            proof {
                lemma_tdiv_div(self.raw as int, o.raw as int);
            }
            Fx { raw: sat_signed(neg, q) }
        }
    }

    /// Truncation toward zero to an integer (the `as i64` of the value).
    pub fn trunc(self) -> (r: i64)
        ensures
            r as int == tdiv(self.raw as int, 65536),
    {
        let q: u64 = mag64(self.raw) / 65536u64;
        if self.raw < 0 {
            (-(q as i128)) as i64
        } else {
            q as i64
        }
    }

    /// Saturating absolute value.
    pub fn abs(self) -> (r: Fx)
        ensures
            r.raw as int == sat64(iabs(self.raw as int)),
    {
        if self.raw < 0 {
            self.neg()
        } else {
            self
        }
    }
}

/// Decomposes the fixed-point division `tdiv(a * 65536, b)` into sign and
/// magnitude, matching the executable computation over magnitudes.
pub(crate) proof fn lemma_tdiv_div(a: int, b: int)
    requires
        b != 0,
    ensures
        tdiv(a * 65536, b) == if (a >= 0) == (b >= 0) {
            (iabs(a) * 65536) / iabs(b)
        } else {
            -((iabs(a) * 65536) / iabs(b))
        },
{
    assert(iabs(a * 65536) == iabs(a) * 65536);
    assert(iabs(b) > 0);
    if a == 0 {
        assert(tdiv(0, b) == 0);
        assert((iabs(0) * 65536) / iabs(b) == 0);
    } else if (a >= 0) == (b >= 0) {
        assert((a * 65536 >= 0) == (b >= 0));
    } else {
        assert((a * 65536 >= 0) != (b >= 0));
    }
}

/// The integer square root of a `u128`, by binary search.
pub fn isqrt_u128(n: u128) -> (r: u64)
    ensures
        r as int == sqrt_floor(n as int),
        is_isqrt(n as int, r as int),
{
    let mut lo: u128 = 0;
    let mut hi: u128 = 0x1_0000_0000_0000_0000u128;
    proof {
        assert(n < hi * hi) by (nonlinear_arith)
            requires
                n <= u128::MAX,
                hi == 0x1_0000_0000_0000_0000u128,
        ;
    }
    while lo + 1 < hi
        invariant
            0 <= lo < hi <= 0x1_0000_0000_0000_0000u128,
            lo * lo <= n,
            n < hi * hi,
        decreases hi - lo,
    {
        let mid: u128 = lo + (hi - lo) / 2;
        assert(lo < mid < hi);
        let sq: u128 = {
            proof {
                assert(mid * mid < 0x1_0000_0000_0000_0000u128 * 0x1_0000_0000_0000_0000u128)
                    by (nonlinear_arith)
                    requires
                        0 <= mid < 0x1_0000_0000_0000_0000u128,
                ;
            }
            mid * mid
        };
        if sq <= n {
            lo = mid;
        } else {
            hi = mid;
        }
    }
    proof {
        assert(is_isqrt(n as int, lo as int));
        let s = sqrt_floor(n as int);
        lemma_sqrt_floor(n as int);
        lemma_isqrt_unique(n as int, lo as int, s);
        assert(lo * lo <= n) by (nonlinear_arith)
            requires
                is_isqrt(n as int, lo as int),
        ;
        assert(lo < 0x1_0000_0000_0000_0000u128);
    }
    lo as u64
}

} // verus!
