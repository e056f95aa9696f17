//! Saturating signed fixed-point scalars.
//!
//! A scalar is an `i64` holding `value * SCALE` (20 fractional bits).
//! Every operation truncates toward zero and saturates into
//! `[-CAP, CAP]`, so all operations are total: no overflow, no panic.

use vstd::prelude::*;

verus! {

/// One whole unit: 2^20 raw steps.
pub const SCALE: i64 = 1048576;

/// Largest representable raw magnitude (2^56): results saturate here.
pub const CAP: i64 = 72057594037927936;

/// Raw magnitude below which a decaying accumulator snaps to zero
/// (about 1e-4 in whole units).
pub const EPS: i64 = 105;

/// Ten whole units: the dolly gain.
pub const TEN: i64 = 10485760;

/// A tenth of a unit: the pan gain.
pub const TENTH: i64 = 104858;

/// Sixty whole units: frames per second the decay is calibrated to.
pub const SIXTY: i64 = 62914560;

/// The natural logarithm of 0.8 (negative), in raw steps: the per-frame
/// decay at the calibration frame rate.
pub const LN_POINT8: i64 = -233983;

/// One whole unit, as a spec-level alias.
pub open spec fn one() -> int {
    SCALE as int
}

/// Saturation of a mathematical integer into the representable range.
pub open spec fn clip(x: int) -> int {
    if x > CAP as int {
        CAP as int
    } else if x < -(CAP as int) {
        -(CAP as int)
    } else {
        x
    }
}

/// A raw value is in the representable range.
pub open spec fn fx_ok(x: int) -> bool {
    -(CAP as int) <= x <= CAP as int
}

/// Absolute value of a mathematical integer.
pub open spec fn iabs(x: int) -> int {
    if x >= 0 {
        x
    } else {
        -x
    }
}

/// Division truncating toward zero (the hardware convention), for b != 0.
pub open spec fn tdiv(a: int, b: int) -> int
    recommends
        b != 0,
{
    if (a >= 0) == (b >= 0) {
        iabs(a) / iabs(b)
    } else {
        -(iabs(a) / iabs(b))
    }
}

/// What fixed-point multiplication returns: truncate, then saturate.
pub open spec fn fx_mul_s(a: int, b: int) -> int {
    clip(tdiv(a * b, SCALE as int))
}

/// What fixed-point division returns: truncate, then saturate.
pub open spec fn fx_div_s(a: int, b: int) -> int {
    clip(tdiv(a * (SCALE as int), b))
}

/// Saturate an arbitrary raw value into range.
pub fn fx_clamp(x: i64) -> (r: i64)
    ensures
        r == clip(x as int),
        fx_ok(r as int),
{
    if x > CAP {
        CAP
    } else if x < -CAP {
        -CAP
    } else {
        x
    }
}

/// Saturating addition.
pub fn fx_add(a: i64, b: i64) -> (r: i64)
    ensures
        r == clip(a + b),
        fx_ok(r as int),
{
    let s: i128 = a as i128 + b as i128;
    if s > CAP as i128 {
        CAP
    } else if s < -(CAP as i128) {
        -CAP
    } else {
        s as i64
    }
}

/// Saturating subtraction.
pub fn fx_sub(a: i64, b: i64) -> (r: i64)
    ensures
        r == clip(a - b),
        fx_ok(r as int),
{
    let s: i128 = a as i128 - b as i128;
    if s > CAP as i128 {
        CAP
    } else if s < -(CAP as i128) {
        -CAP
    } else {
        s as i64
    }
}

/// How signs and magnitudes pass through a product.
proof fn lemma_mul_abs_sign(a: int, b: int)
    by (nonlinear_arith)
    ensures
        iabs(a * b) == iabs(a) * iabs(b),
        ((a >= 0) == (b >= 0)) ==> a * b >= 0,
        ((a >= 0) != (b >= 0)) ==> a * b <= 0,
{
}

/// Saturating fixed-point multiplication, truncating toward zero.
pub fn fx_mul(a: i64, b: i64) -> (r: i64)
    requires
        fx_ok(a as int),
        fx_ok(b as int),
    ensures
        r == fx_mul_s(a as int, b as int),
        fx_ok(r as int),
{
    let neg: bool = (a < 0) != (b < 0);
    let aa: u128 = if a >= 0 {
        a as u128
    } else {
        (-a) as u128
    };
    let bb: u128 = if b >= 0 {
        b as u128
    } else {
        (-b) as u128
    };
    proof {
        lemma_mul_abs_sign(a as int, b as int);
        assert(aa == iabs(a as int));
        assert(bb == iabs(b as int));
        assert(aa as int * bb as int <= CAP as int * CAP as int) by (nonlinear_arith)
            requires
                0 <= aa as int <= CAP as int,
                0 <= bb as int <= CAP as int,
        ;
    }
    let p: u128 = aa * bb;
    let q: u128 = p / 1048576u128;
    if neg {
        if q > CAP as u128 {
            -CAP
        } else {
            -(q as i64)
        }
    } else {
        if q > CAP as u128 {
            CAP
        } else {
            q as i64
        }
    }
}

/// Saturating fixed-point division, truncating toward zero.
pub fn fx_div(a: i64, b: i64) -> (r: i64)
    requires
        fx_ok(a as int),
        fx_ok(b as int),
        b != 0,
    ensures
        r == fx_div_s(a as int, b as int),
        fx_ok(r as int),
{
    let neg: bool = (a < 0) != (b < 0);
    let aa: u128 = if a >= 0 {
        a as u128
    } else {
        (-a) as u128
    };
    let bb: u128 = if b >= 0 {
        b as u128
    } else {
        (-b) as u128
    };
    proof {
        lemma_mul_abs_sign(a as int, 1048576);
        assert(aa == iabs(a as int));
        assert(bb == iabs(b as int));
        assert(iabs(a as int * 1048576) == iabs(a as int) * 1048576);
    }
    let p: u128 = aa * 1048576u128;
    let q: u128 = p / bb;
    if neg {
        if q > CAP as u128 {
            -CAP
        } else {
            -(q as i64)
        }
    } else {
        if q > CAP as u128 {
            CAP
        } else {
            q as i64
        }
    }
}

/// Truncating division of a raw value by a small positive integer
/// (the scale is unchanged, so no saturation can occur).
pub fn fx_divi(a: i64, n: i64) -> (r: i64)
    requires
        fx_ok(a as int),
        n > 0,
    ensures
        r == tdiv(a as int, n as int),
        iabs(r as int) == iabs(a as int) / (n as int),
        fx_ok(r as int),
{
    let aa: u64 = if a >= 0 {
        a as u64
    } else {
        (-a) as u64
    };
    let q: u64 = aa / (n as u64);
    assert(q <= aa);
    if a >= 0 {
        q as i64
    } else {
        -(q as i64)
    }
}

/// `r` is the integer square root of `n`.
pub open spec fn is_isqrt(n: int, r: int) -> bool {
    0 <= r && r * r <= n && n < (r + 1) * (r + 1)
}

/// The fixed-point square root of a nonnegative raw value `a`
/// (the integer square root of `a * SCALE`, which keeps the scale).
pub open spec fn sqrt_s(a: int) -> int
    recommends
        a >= 0,
{
    choose|r: int| #[trigger] is_isqrt(a * (SCALE as int), r)
}

/// Integer square roots are unique.
proof fn lemma_isqrt_unique(n: int, r1: int, r2: int)
    by (nonlinear_arith)
    requires
        is_isqrt(n, r1),
        is_isqrt(n, r2),
    ensures
        r1 == r2,
{
}

/// Fixed-point square root by bisection.
pub fn fx_sqrt(a: i64) -> (r: i64)
    requires
        0 <= a,
        fx_ok(a as int),
    ensures
        r == sqrt_s(a as int),
        is_isqrt(a as int * (SCALE as int), r as int),
        0 <= r,
        fx_ok(r as int),
{
    let n: u128 = (a as u128) * 1048576u128;
    let mut lo: u128 = 0;
    let mut hi: u128 = 274877906945u128;
    proof {
        assert(n < hi * hi) by (nonlinear_arith)
            requires
                n <= 72057594037927936 * 1048576,
                hi == 274877906945,
        ;
    }
    while lo + 1 < hi
        invariant
            lo * lo <= n,
            n < hi * hi,
            lo < hi,
            hi <= 274877906945u128,
        decreases hi - lo,
    {
        let mid: u128 = lo + (hi - lo) / 2;
        proof {
            assert(mid * mid < 274877906946 * 274877906946) by (nonlinear_arith)
                requires
                    mid < 274877906946u128,
            ;
        }
        let mm: u128 = mid * mid;
        if mm <= n {
            lo = mid;
        } else {
            hi = mid;
        }
    }
    proof {
        assert(hi == lo + 1);
        assert(is_isqrt(n as int, lo as int));
        assert(lo * lo <= n ==> lo <= 274877906945u128) by (nonlinear_arith)
            requires
                n < 274877906945u128 * 274877906945u128,
                lo * lo <= n,
        ;
        let w = sqrt_s(a as int);
        assert(a as int * (SCALE as int) == n as int);
        assert(is_isqrt(a as int * (SCALE as int), w));
        lemma_isqrt_unique(n as int, w, lo as int);
    }
    lo as i64
}

/// The seed of the exponential approximation, at 40 fractional bits:
/// `1 + x / 2^16`, floored at zero so squaring cannot change sign.
pub open spec fn exp_seed(x: int) -> int {
    if 1099511627776 + 16 * x >= 0 {
        1099511627776 + 16 * x
    } else {
        0
    }
}

/// One squaring step at 40 fractional bits, capped at `2^63`.
pub open spec fn sq40(y: int) -> int {
    let z = (y * y) / 1099511627776;
    if z > 9223372036854775808int {
        9223372036854775808int
    } else {
        z
    }
}

/// `k` squaring steps applied to `y`.
pub open spec fn exp_iter40(y: int, k: nat) -> int
    decreases k,
{
    if k == 0 {
        y
    } else {
        exp_iter40(sq40(y), (k - 1) as nat)
    }
}

/// What [`fx_exp`] returns: the limit form `(1 + x/2^16)^(2^16)` of the
/// exponential, squared out at 40 fractional bits and rounded back down
/// to the scalar scale.
pub open spec fn exp_s(x: int) -> int {
    let f = exp_iter40(exp_seed(x), 16) / 1048576;
    if f > CAP as int {
        CAP as int
    } else {
        f
    }
}

/// Fixed-point exponential: squares the seed `1 + x / 2^16` sixteen
/// times at 40 fractional bits, where the seed is exact.
pub fn fx_exp(x: i64) -> (r: i64)
    requires
        fx_ok(x as int),
    ensures
        r == exp_s(x as int),
        0 <= r,
        fx_ok(r as int),
{
    let mut y: u128 = if x >= 0 {
        1099511627776u128 + 16u128 * (x as u128)
    } else {
        let t: u128 = 16u128 * ((-x) as u128);
        if t >= 1099511627776u128 {
            0
        } else {
            1099511627776u128 - t
        }
    };
    assert(y == exp_seed(x as int));
    assert(y <= 9223372036854775808u128);
    let mut i: u64 = 0;
    while i < 16
        invariant
            y <= 9223372036854775808u128,
            i <= 16,
            exp_iter40(y as int, (16 - i) as nat) == exp_iter40(exp_seed(x as int), 16),
        decreases 16 - i,
    {
        proof {
            assert(y as int * y as int <= 9223372036854775808int * 9223372036854775808int)
                by (nonlinear_arith)
                requires
                    0 <= y as int <= 9223372036854775808int,
            ;
            assert(exp_iter40(y as int, (16 - i) as nat) == exp_iter40(
                sq40(y as int),
                (16 - (i + 1)) as nat,
            ));
        }
        let mut z: u128 = (y * y) / 1099511627776u128;
        if z > 9223372036854775808u128 {
            z = 9223372036854775808u128;
        }
        assert(z == sq40(y as int));
        y = z;
        i = i + 1;
    }
    let f: u128 = y / 1048576u128;
    if f > CAP as u128 {
        CAP
    } else {
        f as i64
    }
}

/// Pins down [`sqrt_s`] from any witness of [`is_isqrt`].
pub proof fn lemma_sqrt_val(a: int, r: int)
    requires
        is_isqrt(a * (SCALE as int), r),
    ensures
        sqrt_s(a) == r,
{
    let w = sqrt_s(a);
    assert(is_isqrt(a * (SCALE as int), w));
    lemma_isqrt_unique(a * (SCALE as int), w, r);
}

/// Multiplication by zero and by plus or minus one whole unit is exact,
/// as is division by one whole unit.
pub proof fn lemma_fx_mul_unit(x: int)
    requires
        fx_ok(x),
    ensures
        fx_mul_s(x, one()) == x,
        fx_mul_s(one(), x) == x,
        fx_mul_s(x, -one()) == -x,
        fx_mul_s(-one(), x) == -x,
        fx_mul_s(x, 0) == 0,
        fx_mul_s(0, x) == 0,
        fx_div_s(x, one()) == x,
{
    assert((iabs(x) * 1048576) / 1048576 == iabs(x)) by (nonlinear_arith);
    assert(iabs(x * 1048576) == iabs(x) * 1048576) by (nonlinear_arith);
    assert(iabs(1048576 * x) == 1048576 * iabs(x)) by (nonlinear_arith);
    assert(iabs(x * -1048576) == iabs(x) * 1048576) by (nonlinear_arith);
    assert(iabs(-1048576 * x) == 1048576 * iabs(x)) by (nonlinear_arith);
    assert(x * 0 == 0) by (nonlinear_arith);
    assert(0 * x == 0) by (nonlinear_arith);
    assert(1048576 * iabs(x) == iabs(x) * 1048576) by (nonlinear_arith);
}

/// Squaring a seed of exactly one leaves it unchanged.
proof fn lemma_exp_iter40_one(k: nat)
    ensures
        exp_iter40(1099511627776, k) == 1099511627776,
    decreases k,
{
    if k > 0 {
        assert(1099511627776int * 1099511627776int == 1208925819614629174706176int)
            by (nonlinear_arith);
        assert(1208925819614629174706176int / 1099511627776int == 1099511627776int)
            by (nonlinear_arith);
        assert(sq40(1099511627776) == 1099511627776);
        lemma_exp_iter40_one((k - 1) as nat);
    }
}

/// The exponential of zero is exactly one.
pub proof fn lemma_exp_zero()
    ensures
        exp_s(0) == one(),
{
    assert(exp_seed(0) == 1099511627776);
    lemma_exp_iter40_one(16);
}

/// Squaring keeps a seed within `[0, 1]`, strictly below one if it
/// started there.
proof fn lemma_exp_iter40_le_one(y: int, k: nat)
    requires
        0 <= y <= 1099511627776,
    ensures
        0 <= exp_iter40(y, k) <= y,
    decreases k,
{
    if k > 0 {
        let z = sq40(y);
        assert(0 <= y * y <= y * 1099511627776) by (nonlinear_arith)
            requires
                0 <= y <= 1099511627776,
        ;
        assert((y * y) / 1099511627776 <= (y * 1099511627776) / 1099511627776)
            by (nonlinear_arith)
            requires
                0 <= y * y <= y * 1099511627776,
        ;
        assert((y * 1099511627776) / 1099511627776 == y) by (nonlinear_arith);
        assert(0 <= z <= y);
        lemma_exp_iter40_le_one(z, (k - 1) as nat);
    }
}

/// For nonpositive arguments the exponential stays within `[0, 1]`,
/// strictly below one for any negative argument.
pub proof fn lemma_exp_le_one(x: int)
    requires
        fx_ok(x),
        x <= 0,
    ensures
        0 <= exp_s(x) <= one(),
        x < 0 ==> exp_s(x) < one(),
{
    let b = exp_seed(x);
    assert(b <= 1099511627776);
    lemma_exp_iter40_le_one(b, 16);
    let e = exp_iter40(b, 16);
    assert(0 <= e <= 1099511627776);
    assert(e / 1048576 <= 1099511627776int / 1048576int) by (nonlinear_arith)
        requires
            0 <= e <= 1099511627776,
    ;
    if x < 0 {
        assert(b <= 1099511627776 - 16);
        assert(e / 1048576 <= (1099511627776int - 16) / 1048576int) by (nonlinear_arith)
            requires
                0 <= e <= 1099511627776 - 16,
        ;
    }
}

/// Multiplying by a factor strictly below one strictly shrinks a
/// nonzero raw magnitude (by at least one raw step).
pub proof fn lemma_fx_mul_shrinks(x: int, d: int)
    requires
        fx_ok(x),
        0 <= d < one(),
        x != 0,
    ensures
        iabs(fx_mul_s(x, d)) < iabs(x),
{
    lemma_mul_abs_sign(x, d);
    assert(iabs(x) * d < iabs(x) * 1048576) by (nonlinear_arith)
        requires
            0 <= d < 1048576,
            iabs(x) > 0,
    ;
    assert((iabs(x) * d) / 1048576 < iabs(x)) by (nonlinear_arith)
        requires
            0 <= iabs(x) * d,
            iabs(x) * d < iabs(x) * 1048576,
            0 < iabs(x),
    ;
    assert(iabs(tdiv(x * d, 1048576)) == iabs(x * d) / 1048576);
}

} // verus!
