//! Signed fixed-point numbers with 32 fractional bits.

use vstd::prelude::*;

verus! {

/// The raw value of the scalar one: two to the power of 32.
pub const ONE_RAW: i64 = 0x1_0000_0000;

/// A fixed-point number: the rational `raw / 2^32`.
///
/// Every `i64` is a valid raw value. Arithmetic rounds toward zero and
/// saturates at `i64::MIN` and `i64::MAX` instead of wrapping.
#[derive(Clone, Copy, Debug, PartialEq, Eq, Structural)]
pub struct Scalar {
    /// The number, in units of `2^-32`.
    pub raw: i64,
}

impl View for Scalar {
    type V = int;

    /// The raw value as a mathematical integer.
    open spec fn view(&self) -> int {
        self.raw as int
    }
}

/// `x` brought into the range of an `i64`.
pub open spec fn saturate(x: int) -> int {
    if x < i64::MIN {
        i64::MIN as int
    } else if x > i64::MAX {
        i64::MAX as int
    } else {
        x
    }
}

/// The quotient `n / d` rounded toward zero, and zero where `d` is zero.
pub open spec fn trunc_div(n: int, d: int) -> int {
    if d == 0 {
        0
    } else if n >= 0 && d > 0 {
        n / d
    } else if n >= 0 {
        -(n / (-d))
    } else if d > 0 {
        -((-n) / d)
    } else {
        (-n) / (-d)
    }
}

/// The raw value of a saturating fixed-point product.
pub open spec fn fx_mul(a: int, b: int) -> int {
    saturate(trunc_div(a * b, ONE_RAW as int))
}

/// The raw value of a saturating fixed-point quotient. Dividing by zero gives
/// the end of the range on the side of the dividend's sign, and zero for `0 / 0`.
pub open spec fn fx_div(a: int, b: int) -> int {
    if b != 0 {
        saturate(trunc_div(a * ONE_RAW, b))
    } else if a > 0 {
        i64::MAX as int
    } else if a < 0 {
        i64::MIN as int
    } else {
        0
    }
}

/// `r` is the integer square root of `n`: the largest integer whose square
/// does not exceed `n`.
pub open spec fn is_int_sqrt(n: int, r: int) -> bool {
    0 <= r && r * r <= n < (r + 1) * (r + 1)
}

/// The integer square root of `n`, and zero for negative `n`.
pub open spec fn int_sqrt(n: int) -> int {
    if n < 0 {
        0
    } else {
        choose|r: int| is_int_sqrt(n, r)
    }
}

/// The integer square root is unique.
pub proof fn lemma_int_sqrt_unique(n: int, r: int, s: int)
    requires
        is_int_sqrt(n, r),
        is_int_sqrt(n, s),
    ensures
        r == s,
{
    if r < s {
        assert((r + 1) * (r + 1) <= s * s) by (nonlinear_arith)
            requires
                0 <= r,
                r + 1 <= s,
        ;
    } else if s < r {
        assert((s + 1) * (s + 1) <= r * r) by (nonlinear_arith)
            requires
                0 <= s,
                s + 1 <= r,
        ;
    }
}

/// Whatever satisfies `is_int_sqrt` is `int_sqrt`.
pub proof fn lemma_int_sqrt_is(n: int, r: int)
    requires
        is_int_sqrt(n, r),
    ensures
        int_sqrt(n) == r,
{
    assert(0 <= r * r) by (nonlinear_arith);
    let c = choose|c: int| is_int_sqrt(n, c);
    lemma_int_sqrt_unique(n, r, c);
}

/// Every number that is not negative has an integer square root.
pub proof fn lemma_int_sqrt_exists(n: int)
    requires
        n >= 0,
    ensures
        is_int_sqrt(n, int_sqrt(n)),
{
    assert((n + 1) * (n + 1) > n) by (nonlinear_arith)
        requires
            n >= 0,
    ;
    lemma_int_sqrt_below(n, n + 1);
}

/// A number whose square exceeds `n` bounds an integer square root of `n`
/// from above.
proof fn lemma_int_sqrt_below(n: int, bound: int)
    requires
        n >= 0,
        bound >= 0,
        bound * bound > n,
    ensures
        is_int_sqrt(n, int_sqrt(n)),
    decreases bound,
{
    assert(bound >= 1) by (nonlinear_arith)
        requires
            bound >= 0,
            bound * bound > n,
            n >= 0,
    ;
    let below = bound - 1;
    if below * below <= n {
        assert(is_int_sqrt(n, below));
    } else {
        lemma_int_sqrt_below(n, below);
    }
}

/// A product with a zero factor is zero.
pub proof fn lemma_mul_zero(a: Scalar, b: Scalar)
    ensures
        a@ == 0 || b@ == 0 ==> a.mul_spec(b)@ == 0,
{
    if a@ == 0 || b@ == 0 {
        assert(a@ * b@ == 0) by (nonlinear_arith)
            requires
                a@ == 0 || b@ == 0,
        ;
    }
}

/// The least length, in raw units, from which on a vector divided by its
/// length is a unit vector within the tolerance.
pub const LEAST_NORMALIZED_LENGTH_RAW: i64 = 16384;

/// A quotient of numbers that are not negative lies, times the divisor,
/// within one divisor below the dividend.
proof fn lemma_quotient_bounds(n: int, d: int)
    requires
        n >= 0,
        d > 0,
    ensures
        0 <= n / d,
        (n / d) * d <= n < (n / d) * d + d,
{
    assert(0 <= n / d && (n / d) * d <= n < (n / d) * d + d) by (nonlinear_arith)
        requires
            n >= 0,
            d > 0,
    ;
}

/// What one component of magnitude `a` gives when a vector of the length
/// `len` is divided by its length: the quotient `m`, with its square bounded
/// from both sides.
proof fn lemma_unit_component(a: int, len: int)
    requires
        0 <= a <= len,
        len > 0,
    ensures
        ({
            let m = (a * ONE_RAW) / len;
            &&& 0 <= m <= ONE_RAW
            &&& a == 0 ==> m == 0
            &&& (m * m) * (len * len) <= (a * a) * (ONE_RAW * ONE_RAW)
            &&& ((m + 1) * (m + 1)) * (len * len) >= (a * a) * (ONE_RAW * ONE_RAW)
            &&& 0 <= (m * m) / (ONE_RAW as int)
            &&& ((m * m) / (ONE_RAW as int)) * ONE_RAW <= m * m < ((m * m) / (ONE_RAW as int)) * ONE_RAW
                + ONE_RAW
        }),
{
    let one: int = ONE_RAW as int;
    let n = a * one;
    let m = n / len;
    lemma_quotient_bounds(n, len);
    assert(m <= one) by (nonlinear_arith)
        requires
            m * len <= a * one,
            a <= len,
            len > 0,
            one > 0,
            m >= 0,
    ;
    assert(a == 0 ==> m == 0) by (nonlinear_arith)
        requires
            m * len <= a * one,
            len > 0,
            m >= 0,
    ;
    assert((m * m) * (len * len) <= (a * a) * (one * one)) by (nonlinear_arith)
        requires
            0 <= m * len <= a * one,
    {
        assert((m * len) * (m * len) <= (a * one) * (a * one));
    }
    assert((m + 1) * len == m * len + len) by (nonlinear_arith);
    assert(((m + 1) * (m + 1)) * (len * len) >= (a * a) * (one * one)) by (nonlinear_arith)
        requires
            (m + 1) * len >= a * one,
            a * one >= 0,
    {
        assert(((m + 1) * len) * ((m + 1) * len) >= (a * one) * (a * one));
    }
    assert(m * m >= 0) by (nonlinear_arith);
    lemma_quotient_bounds(m * m, one);
}

/// A vector whose length, rounded down, is `len` and at least the least
/// normalized length, divided by `len`, has a squared length within the
/// tolerance of one: at most 16 raw units less, at most 524304 more.
///
/// `a`, `b` and `c` are the magnitudes of the components.
pub proof fn lemma_unit_quotients(a: int, b: int, c: int, len: int)
    requires
        a >= 0,
        b >= 0,
        c >= 0,
        len >= LEAST_NORMALIZED_LENGTH_RAW,
        len * len <= a * a + b * b + c * c < (len + 1) * (len + 1),
    ensures
        ({
            let ma = (a * ONE_RAW) / len;
            let mb = (b * ONE_RAW) / len;
            let mc = (c * ONE_RAW) / len;
            let squared = (ma * ma) / (ONE_RAW as int) + (mb * mb) / (ONE_RAW as int) + (mc * mc) / (
            ONE_RAW as int);
            &&& 0 <= ma <= ONE_RAW
            &&& 0 <= mb <= ONE_RAW
            &&& 0 <= mc <= ONE_RAW
            &&& c == 0 ==> mc == 0
            &&& 0 <= (ma * ma) / (ONE_RAW as int) <= ONE_RAW
            &&& 0 <= (mb * mb) / (ONE_RAW as int) <= ONE_RAW
            &&& 0 <= (mc * mc) / (ONE_RAW as int) <= ONE_RAW
            &&& ONE_RAW - 16 <= squared <= ONE_RAW + 524304
        }),
{
    let one: int = ONE_RAW as int;
    let n = a * a + b * b + c * c;
    assert(a * a >= 0 && b * b >= 0 && c * c >= 0) by (nonlinear_arith);
    assert(a <= len) by (nonlinear_arith)
        requires
            a * a < (len + 1) * (len + 1),
            a >= 0,
            len >= 0,
    ;
    assert(b <= len) by (nonlinear_arith)
        requires
            b * b < (len + 1) * (len + 1),
            b >= 0,
            len >= 0,
    ;
    assert(c <= len) by (nonlinear_arith)
        requires
            c * c < (len + 1) * (len + 1),
            c >= 0,
            len >= 0,
    ;
    lemma_unit_component(a, len);
    lemma_unit_component(b, len);
    lemma_unit_component(c, len);
    let ma = (a * one) / len;
    let mb = (b * one) / len;
    let mc = (c * one) / len;
    let s = ma * ma + mb * mb + mc * mc;
    let t = (ma + 1) * (ma + 1) + (mb + 1) * (mb + 1) + (mc + 1) * (mc + 1);
    let ll = len * len;
    let oo = one * one;
    assert(oo == 0x1_0000_0000_0000_0000) by (nonlinear_arith)
        requires
            oo == one * one,
            one == 0x1_0000_0000,
    ;
    assert(ll >= 16384 * len && ll >= 268435456) by (nonlinear_arith)
        requires
            ll == len * len,
            len >= 16384,
    ;
    // From above: s * len^2 <= n * one^2 < (len + 1)^2 * one^2.
    assert(s * ll <= n * oo) by (nonlinear_arith)
        requires
            s == ma * ma + mb * mb + mc * mc,
            n == a * a + b * b + c * c,
            (ma * ma) * ll <= (a * a) * oo,
            (mb * mb) * ll <= (b * b) * oo,
            (mc * mc) * ll <= (c * c) * oo,
    ;
    assert(n * oo < (ll + 2 * len + 1) * oo) by (nonlinear_arith)
        requires
            n < (len + 1) * (len + 1),
            ll == len * len,
            oo > 0,
    ;
    assert(s <= oo + 0x8_0010_0000_0000) by (nonlinear_arith)
        requires
            s * ll < (ll + 2 * len + 1) * oo,
            oo == 0x1_0000_0000_0000_0000,
            ll >= 16384 * len,
            ll >= 268435456,
            len >= 16384,
            s >= 0,
    {
        if s > oo + 0x8_0010_0000_0000 {
            assert(s * ll >= (oo + 0x8_0010_0000_0001) * ll);
            assert(0x8_0000_0000_0000 * ll >= 0x8_0000_0000_0000 * (16384 * len));
            assert(0x10_0000_0000 * ll >= 0x10_0000_0000 * 268435456);
            assert((oo + 0x8_0010_0000_0001) * ll == oo * ll + 0x8_0000_0000_0000 * ll + 0x10_0000_0000
                * ll + ll);
            assert((ll + 2 * len + 1) * oo == oo * ll + oo * (2 * len) + oo);
        }
    }
    // From below: t * len^2 >= n * one^2 >= len^2 * one^2.
    assert(t * ll >= n * oo) by (nonlinear_arith)
        requires
            t == (ma + 1) * (ma + 1) + (mb + 1) * (mb + 1) + (mc + 1) * (mc + 1),
            n == a * a + b * b + c * c,
            ((ma + 1) * (ma + 1)) * ll >= (a * a) * oo,
            ((mb + 1) * (mb + 1)) * ll >= (b * b) * oo,
            ((mc + 1) * (mc + 1)) * ll >= (c * c) * oo,
    ;
    assert(t >= oo) by (nonlinear_arith)
        requires
            t * ll >= n * oo,
            n >= ll,
            ll > 0,
            oo > 0,
    {
        assert(n * oo >= ll * oo);
        if t < oo {
            assert(t * ll <= (oo - 1) * ll);
            assert((oo - 1) * ll == oo * ll - ll);
        }
    }
    assert(t == s + 2 * (ma + mb + mc) + 3) by (nonlinear_arith)
        requires
            t == (ma + 1) * (ma + 1) + (mb + 1) * (mb + 1) + (mc + 1) * (mc + 1),
            s == ma * ma + mb * mb + mc * mc,
    ;
    assert(ma * ma <= oo && mb * mb <= oo && mc * mc <= oo) by (nonlinear_arith)
        requires
            0 <= ma <= one,
            0 <= mb <= one,
            0 <= mc <= one,
            oo == one * one,
    ;
}

/// A product with the factor one is the other factor.
pub proof fn lemma_mul_one(a: Scalar)
    ensures
        a.mul_spec(Scalar { raw: ONE_RAW }) == a,
        (Scalar { raw: ONE_RAW }).mul_spec(a) == a,
{
    assert(a@ * ONE_RAW == ONE_RAW * a@) by (nonlinear_arith);
    assert(trunc_div(a@ * ONE_RAW, ONE_RAW as int) == a@) by (nonlinear_arith)
        requires
            ONE_RAW == 0x1_0000_0000,
    {
        if a@ >= 0 {
            assert((a@ * ONE_RAW) / (ONE_RAW as int) == a@);
        } else {
            assert((-(a@ * ONE_RAW)) / (ONE_RAW as int) == -a@);
        }
    }
}

/// One times one is one, and so is minus one times minus one.
pub proof fn lemma_one_squared()
    ensures
        (Scalar { raw: ONE_RAW }).mul_spec(Scalar { raw: ONE_RAW }) == (Scalar { raw: ONE_RAW }),
        (Scalar { raw: ONE_RAW }).neg_spec().mul_spec((Scalar { raw: ONE_RAW }).neg_spec()) == (Scalar {
            raw: ONE_RAW,
        }),
        (Scalar { raw: 0 }).mul_spec(Scalar { raw: 0 }) == (Scalar { raw: 0 }),
{
    let one: int = ONE_RAW as int;
    assert(one * one == 0x1_0000_0000_0000_0000) by (nonlinear_arith)
        requires
            one == 0x1_0000_0000,
    ;
    assert((-one) * (-one) == 0x1_0000_0000_0000_0000) by (nonlinear_arith)
        requires
            one == 0x1_0000_0000,
    ;
    assert(0x1_0000_0000_0000_0000int / 0x1_0000_0000int == 0x1_0000_0000);
}

/// A product of two factors that are not negative is not negative.
pub proof fn lemma_mul_nonnegative(a: Scalar, b: Scalar)
    ensures
        a@ >= 0 && b@ >= 0 ==> a.mul_spec(b)@ >= 0,
{
    if a@ >= 0 && b@ >= 0 {
        assert(a@ * b@ >= 0) by (nonlinear_arith)
            requires
                a@ >= 0,
                b@ >= 0,
        ;
    }
}

/// `x` brought into the range of an `i64`.
fn saturate_wide(x: i128) -> (r: i64)
    ensures
        r == saturate(x as int),
{
    if x < i64::MIN as i128 {
        i64::MIN
    } else if x > i64::MAX as i128 {
        i64::MAX
    } else {
        x as i64
    }
}

/// The magnitude of `x`.
fn magnitude(x: i128) -> (r: u128)
    requires
        x != i128::MIN,
    ensures
        r == if x < 0 { -x } else { x as int },
{
    if x < 0 {
        (-x) as u128
    } else {
        x as u128
    }
}

/// The quotient of two wide integers, rounded toward zero.
fn trunc_div_wide(n: i128, d: i128) -> (q: i128)
    requires
        d != 0,
        n != i128::MIN,
        d != i128::MIN,
    ensures
        q == trunc_div(n as int, d as int),
{
    let un: u128 = magnitude(n);
    let ud: u128 = magnitude(d);
    let uq: u128 = un / ud;
    assert(uq <= un) by (nonlinear_arith)
        requires
            uq == un / ud,
            ud >= 1,
    ;
    if (n < 0) != (d < 0) {
        -(uq as i128)
    } else {
        uq as i128
    }
}

/// The square of `a`.
fn square_wide(a: i64) -> (r: u128)
    ensures
        r == a * a,
        r <= 0x4000_0000_0000_0000_0000_0000_0000_0000,
{
    let ua: u128 = magnitude(a as i128);
    assert(ua * ua <= 0x4000_0000_0000_0000_0000_0000_0000_0000 && ua * ua == a * a)
        by (nonlinear_arith)
        requires
            ua <= 0x8000_0000_0000_0000,
            ua == a || ua == -a,
    ;
    ua * ua
}

/// The largest integer whose square does not exceed `n`.
fn sqrt_wide(n: u128) -> (r: u128)
    ensures
        is_int_sqrt(n as int, r as int),
        r < 0x1_0000_0000_0000_0000,
{
    let mut lo: u128 = 0;
    let mut hi: u128 = 0x1_0000_0000_0000_0000;
    assert(hi * hi > n) by (nonlinear_arith)
        requires
            hi == 0x1_0000_0000_0000_0000,
            n <= u128::MAX,
    ;
    while hi - lo > 1
        invariant
            lo < hi <= 0x1_0000_0000_0000_0000,
            lo * lo <= n < hi * hi,
        decreases hi - lo,
    {
        let mid: u128 = lo + (hi - lo) / 2;
        assert(mid * mid <= u128::MAX) by (nonlinear_arith)
            requires
                mid < 0x1_0000_0000_0000_0000,
        ;
        if mid * mid <= n {
            lo = mid;
        } else {
            hi = mid;
        }
    }
    lo
}

impl Scalar {
    /// The scalar whose raw value is `x`, saturated.
    pub open spec fn of(x: int) -> Scalar {
        Scalar { raw: saturate(x) as i64 }
    }

    /// The sum, saturated.
    pub open spec fn add_spec(self, rhs: Scalar) -> Scalar {
        Scalar::of(self@ + rhs@)
    }

    /// The difference, saturated.
    pub open spec fn sub_spec(self, rhs: Scalar) -> Scalar {
        Scalar::of(self@ - rhs@)
    }

    /// The negation, saturated: the negation of the least value is the greatest.
    pub open spec fn neg_spec(self) -> Scalar {
        Scalar::of(-self@)
    }

    /// The magnitude, saturated.
    pub open spec fn abs_spec(self) -> Scalar {
        if self@ < 0 {
            self.neg_spec()
        } else {
            self
        }
    }

    /// The product, rounded toward zero and saturated.
    pub open spec fn mul_spec(self, rhs: Scalar) -> Scalar {
        Scalar::of(fx_mul(self@, rhs@))
    }

    /// The quotient, rounded toward zero and saturated.
    pub open spec fn div_spec(self, rhs: Scalar) -> Scalar {
        Scalar::of(fx_div(self@, rhs@))
    }

    /// The reciprocal, and zero for zero.
    pub open spec fn recip_or_zero_spec(self) -> Scalar {
        if self@ == 0 {
            Scalar { raw: 0 }
        } else {
            (Scalar { raw: ONE_RAW }).div_spec(self)
        }
    }

    /// The greater of the two.
    pub open spec fn max_spec(self, rhs: Scalar) -> Scalar {
        if self@ >= rhs@ {
            self
        } else {
            rhs
        }
    }

    /// The lesser of the two.
    pub open spec fn min_spec(self, rhs: Scalar) -> Scalar {
        if self@ <= rhs@ {
            self
        } else {
            rhs
        }
    }

    /// `self` brought into `[lo, hi]`; where `lo > hi`, the result is `lo`.
    pub open spec fn clamp_spec(self, lo: Scalar, hi: Scalar) -> Scalar {
        self.min_spec(hi).max_spec(lo)
    }

    /// The square root rounded down, and zero for a negative number.
    pub open spec fn sqrt_spec(self) -> Scalar {
        Scalar::of(int_sqrt(self@ * ONE_RAW))
    }

    /// The square root of `self^2 + rhs^2`, taken on the exact raw values,
    /// rounded down and saturated.
    pub open spec fn hypot_spec(self, rhs: Scalar) -> Scalar {
        Scalar::of(int_sqrt(self@ * self@ + rhs@ * rhs@))
    }

    /// The square root of `self^2 + b^2 + c^2`, taken on the exact raw values,
    /// rounded down and saturated.
    pub open spec fn hypot3_spec(self, b: Scalar, c: Scalar) -> Scalar {
        Scalar::of(int_sqrt(self@ * self@ + b@ * b@ + c@ * c@))
    }

    /// `self` scaled by `max` over the length of `(self, other)`, the length
    /// rounded down and then raised by one raw unit; the quotient is rounded
    /// toward zero once.
    pub open spec fn shorten_spec(self, other: Scalar, max: Scalar) -> Scalar {
        Scalar::of(trunc_div(self@ * max@, int_sqrt(self@ * self@ + other@ * other@) + 1))
    }

    /// The scalar with the given raw value.
    pub fn from_raw(raw: i64) -> (r: Scalar)
        ensures
            r@ == raw,
    {
        Scalar { raw }
    }

    /// The scalar that equals the integer `value`.
    pub fn from_int(value: i32) -> (r: Scalar)
        ensures
            r@ == value * ONE_RAW,
    {
        Scalar { raw: (value as i64) * ONE_RAW }
    }

    /// Zero.
    pub fn zero() -> (r: Scalar)
        ensures
            r@ == 0,
    {
        Scalar { raw: 0 }
    }

    /// One.
    pub fn one() -> (r: Scalar)
        ensures
            r@ == ONE_RAW,
    {
        Scalar { raw: ONE_RAW }
    }

    /// The greatest scalar, which stands for "no bound".
    pub fn max_value() -> (r: Scalar)
        ensures
            r@ == i64::MAX,
    {
        Scalar { raw: i64::MAX }
    }

    /// The sum, saturated.
    pub fn add(self, rhs: Scalar) -> (r: Scalar)
        ensures
            r == self.add_spec(rhs),
    {
        Scalar { raw: saturate_wide(self.raw as i128 + rhs.raw as i128) }
    }

    /// The difference, saturated.
    pub fn sub(self, rhs: Scalar) -> (r: Scalar)
        ensures
            r == self.sub_spec(rhs),
    {
        Scalar { raw: saturate_wide(self.raw as i128 - rhs.raw as i128) }
    }

    /// The negation, saturated.
    pub fn neg(self) -> (r: Scalar)
        ensures
            r == self.neg_spec(),
    {
        Scalar { raw: saturate_wide(-(self.raw as i128)) }
    }

    /// The magnitude, saturated.
    pub fn abs(self) -> (r: Scalar)
        ensures
            r == self.abs_spec(),
    {
        if self.raw < 0 {
            self.neg()
        } else {
            self
        }
    }

    /// The product, rounded toward zero and saturated.
    pub fn mul(self, rhs: Scalar) -> (r: Scalar)
        ensures
            r == self.mul_spec(rhs),
    {
        let a: i64 = self.raw;
        let b: i64 = rhs.raw;
        assert(-0x4000_0000_0000_0000_0000_0000_0000_0000 <= a * b
            <= 0x4000_0000_0000_0000_0000_0000_0000_0000) by (nonlinear_arith)
            requires
                -0x8000_0000_0000_0000 <= a <= 0x7fff_ffff_ffff_ffff,
                -0x8000_0000_0000_0000 <= b <= 0x7fff_ffff_ffff_ffff,
        ;
        let wide: i128 = (a as i128) * (b as i128);
        Scalar { raw: saturate_wide(trunc_div_wide(wide, ONE_RAW as i128)) }
    }

    /// The quotient, rounded toward zero and saturated.
    pub fn div(self, rhs: Scalar) -> (r: Scalar)
        ensures
            r == self.div_spec(rhs),
    {
        if rhs.raw != 0 {
            let wide: i128 = (self.raw as i128) * 0x1_0000_0000i128;
            assert(wide == self.raw * ONE_RAW);
            Scalar { raw: saturate_wide(trunc_div_wide(wide, rhs.raw as i128)) }
        } else if self.raw > 0 {
            Scalar { raw: i64::MAX }
        } else if self.raw < 0 {
            Scalar { raw: i64::MIN }
        } else {
            Scalar { raw: 0 }
        }
    }

    /// The reciprocal, and zero for zero.
    pub fn recip_or_zero(self) -> (r: Scalar)
        ensures
            r == self.recip_or_zero_spec(),
    {
        if self.raw == 0 {
            Scalar { raw: 0 }
        } else {
            Scalar::one().div(self)
        }
    }

    /// The greater of the two.
    pub fn max(self, rhs: Scalar) -> (r: Scalar)
        ensures
            r == self.max_spec(rhs),
    {
        if self.raw >= rhs.raw {
            self
        } else {
            rhs
        }
    }

    /// The lesser of the two.
    pub fn min(self, rhs: Scalar) -> (r: Scalar)
        ensures
            r == self.min_spec(rhs),
    {
        if self.raw <= rhs.raw {
            self
        } else {
            rhs
        }
    }

    /// `self` brought into `[lo, hi]`; where `lo > hi`, the result is `lo`.
    pub fn clamp(self, lo: Scalar, hi: Scalar) -> (r: Scalar)
        ensures
            r == self.clamp_spec(lo, hi),
    {
        self.min(hi).max(lo)
    }

    /// The square root rounded down, and zero for a negative number.
    pub fn sqrt(self) -> (r: Scalar)
        ensures
            r == self.sqrt_spec(),
    {
        if self.raw < 0 {
            Scalar { raw: 0 }
        } else {
            let wide: u128 = (self.raw as u128) * 0x1_0000_0000u128;
            assert(wide == self.raw * ONE_RAW);
            let root: u128 = sqrt_wide(wide);
            proof {
                lemma_int_sqrt_is(wide as int, root as int);
            }
            Scalar { raw: saturate_wide(root as i128) }
        }
    }

    /// `self` scaled by `max` over the length of `(self, other)` rounded up.
    pub fn shorten(self, other: Scalar, max: Scalar) -> (r: Scalar)
        ensures
            r == self.shorten_spec(other, max),
    {
        let sum: u128 = square_wide(self.raw) + square_wide(other.raw);
        let root: u128 = sqrt_wide(sum);
        proof {
            lemma_int_sqrt_is(sum as int, root as int);
        }
        let a: i64 = self.raw;
        let b: i64 = max.raw;
        assert(-0x4000_0000_0000_0000_0000_0000_0000_0000 <= a * b
            <= 0x4000_0000_0000_0000_0000_0000_0000_0000) by (nonlinear_arith)
            requires
                -0x8000_0000_0000_0000 <= a <= 0x7fff_ffff_ffff_ffff,
                -0x8000_0000_0000_0000 <= b <= 0x7fff_ffff_ffff_ffff,
        ;
        let wide: i128 = (a as i128) * (b as i128);
        Scalar { raw: saturate_wide(trunc_div_wide(wide, (root + 1) as i128)) }
    }

    /// Whether `self^2 + b^2` exceeds `max^2`, on the exact raw values.
    pub fn exceeds(self, b: Scalar, max: Scalar) -> (r: bool)
        ensures
            r == (self@ * self@ + b@ * b@ > max@ * max@),
    {
        square_wide(self.raw) + square_wide(b.raw) > square_wide(max.raw)
    }

    /// The square root of `self^2 + rhs^2`, without intermediate rounding.
    pub fn hypot(self, rhs: Scalar) -> (r: Scalar)
        ensures
            r == self.hypot_spec(rhs),
    {
        let sum: u128 = square_wide(self.raw) + square_wide(rhs.raw);
        let root: u128 = sqrt_wide(sum);
        proof {
            lemma_int_sqrt_is(sum as int, root as int);
        }
        Scalar { raw: saturate_wide(root as i128) }
    }

    /// The square root of `self^2 + b^2 + c^2`, without intermediate rounding.
    pub fn hypot3(self, b: Scalar, c: Scalar) -> (r: Scalar)
        ensures
            r == self.hypot3_spec(b, c),
    {
        let sum: u128 = square_wide(self.raw) + square_wide(b.raw) + square_wide(c.raw);
        let root: u128 = sqrt_wide(sum);
        proof {
            lemma_int_sqrt_is(sum as int, root as int);
        }
        Scalar { raw: saturate_wide(root as i128) }
    }
}

} // verus!
