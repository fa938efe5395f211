//! WAD fixed-point arithmetic (18 decimal places).
//!
//! A `Wad` holds a value scaled by 10^18: one is `10^18`, one basis point is
//! `10^14`, and the largest fee a pool accepts, 10 %, is `10^17`.

use vstd::prelude::*;

verus! {

/// Scale of the fixed-point representation (1e18).
pub const WAD: i128 = 1_000_000_000_000_000_000;

/// One basis point (0.0001 = 1e14).
pub const BPS: i128 = 100_000_000_000_000;

/// Largest fee a pool accepts (10 % = 1e17).
pub const MAX_FEE: i128 = 100_000_000_000_000_000;

/// Quotient of `a` by `b` rounded toward zero, as machine integers divide.
/// On a dividend that is not negative the mathematical quotient already
/// rounds toward zero; a negative dividend is mirrored.
pub open spec fn trunc_div(a: int, b: int) -> int
    recommends
        b != 0,
{
    if a >= 0 {
        a / b
    } else {
        -((-a) / b)
    }
}

/// Quotient of `a` by `b` rounded down, toward minus infinity. For a positive
/// divisor that is the mathematical quotient; a negative divisor is
/// mirrored.
pub open spec fn floor_div(a: int, b: int) -> int
    recommends
        b != 0,
{
    if b > 0 {
        a / b
    } else {
        (-a) / (-b)
    }
}

/// Fixed-point number with 18 decimal places.
#[derive(Debug, Clone, Copy, PartialEq, Eq, Structural, PartialOrd, Ord)]
pub struct Wad(pub i128);

impl Wad {
    /// Wrap a raw scaled value.
    pub fn new(value: i128) -> (r: Wad)
        ensures
            r.0 == value,
    {
        Wad(value)
    }

    /// The value of a whole number of basis points.
    pub fn from_bps(bps: i128) -> (r: Wad)
        requires
            i128::MIN <= bps * BPS <= i128::MAX,
        ensures
            r.0 == bps * BPS,
    {
        Wad(bps * BPS)
    }

    /// Convert to whole basis points, rounding toward zero.
    pub fn to_bps(self) -> (r: i128)
        ensures
            r == trunc_div(self.0 as int, BPS as int),
    {
        self.0 / BPS
    }

    /// Fixed-point product: `self * other / 10^18`, rounded down.
    pub fn wmul(self, other: Wad) -> (r: Wad)
        requires
            i128::MIN <= self.0 * other.0 <= i128::MAX,
        ensures
            r.0 == (self.0 * other.0) / (WAD as int),
    {
        let product: i128 = self.0 * other.0;
        let quotient: i128 = product / WAD;
        if product % WAD < 0 {
            Wad(quotient - 1)
        } else {
            Wad(quotient)
        }
    }

    /// Fixed-point quotient: `self * 10^18 / other`, rounded down. Division
    /// by zero gives zero.
    pub fn wdiv(self, other: Wad) -> (r: Wad)
        requires
            i128::MIN <= self.0 * WAD <= i128::MAX,
        ensures
            other.0 == 0 ==> r.0 == 0,
            other.0 != 0 ==> r.0 == floor_div(self.0 * WAD, other.0 as int),
    {
        if other.0 == 0 {
            return Wad(0);
        }
        let scaled: i128 = self.0 * WAD;
        proof {
            lemma_trunc_div_bound(scaled as int, other.0 as int);
            lemma_floor_from_trunc(scaled as int, other.0 as int);
        }
        let quotient: i128 = scaled / other.0;
        let rest: i128 = scaled % other.0;
        if rest != 0 && ((rest < 0) != (other.0 < 0)) {
            Wad(quotient - 1)
        } else {
            Wad(quotient)
        }
    }

    /// Clamp a fee to the range a pool accepts, `[0, MAX_FEE]`.
    pub fn clamp_fee(self) -> (r: Wad)
        ensures
            r.0 == clamp_int(self.0 as int, 0, MAX_FEE as int),
            0 <= r.0 <= MAX_FEE,
    {
        if self.0 < 0 {
            Wad(0)
        } else if self.0 > MAX_FEE {
            Wad(MAX_FEE)
        } else {
            self
        }
    }

    /// Raise to at least `min`, then lower to at most `max`.
    pub fn clamp(self, min: Wad, max: Wad) -> (r: Wad)
        ensures
            r.0 == clamp_int(self.0 as int, min.0 as int, max.0 as int),
    {
        let raised: i128 = if self.0 < min.0 { min.0 } else { self.0 };
        if raised > max.0 {
            Wad(max.0)
        } else {
            Wad(raised)
        }
    }

    /// Absolute value.
    pub fn abs(self) -> (r: Wad)
        requires
            self.0 > i128::MIN,
        ensures
            r.0 == abs_int(self.0 as int),
    {
        if self.0 < 0 {
            Wad(-self.0)
        } else {
            self
        }
    }

    /// Absolute difference.
    pub fn abs_diff(self, other: Wad) -> (r: Wad)
        requires
            i128::MIN < self.0 - other.0 <= i128::MAX,
        ensures
            r.0 == abs_int(self.0 - other.0),
    {
        let d: i128 = self.0 - other.0;
        if d < 0 {
            Wad(-d)
        } else {
            Wad(d)
        }
    }

    /// Fixed-point square root, rounded down to the last unit: the integer
    /// square root of `self * 10^18`, by Newton's method started at that
    /// product. Zero for a value that is not positive.
    pub fn sqrt(self) -> (r: Wad)
        requires
            self.0 > 0 ==> self.0 * WAD < i128::MAX,
        ensures
            self.0 <= 0 ==> r.0 == 0,
            self.0 > 0 ==> is_floor_sqrt(r.0 as int, self.0 * WAD),
    {
        if self.0 <= 0 {
            return Wad(0);
        }
        assert(self.0 * WAD >= 1) by (nonlinear_arith)
            requires
                self.0 >= 1,
        ;
        let scaled: i128 = self.0 * WAD;
        let mut x: i128 = scaled;
        let mut y: i128 = (x + 1) / 2;
        proof {
            assert(scaled / scaled == 1) by (nonlinear_arith)
                requires
                    scaled >= 1,
            ;
            assert((scaled + 1) * (scaled + 1) > scaled) by (nonlinear_arith)
                requires
                    scaled >= 1,
            ;
        }
        while y < x
            invariant
                1 <= x <= scaled < i128::MAX,
                (x + 1) * (x + 1) > scaled,
                y == (x + scaled / x) / 2,
            decreases x,
        {
            proof {
                lemma_newton_step(scaled as int, x as int);
            }
            x = y;
            proof {
                lemma_newton_sum_bound(scaled as int, x as int);
            }
            y = (x + scaled / x) / 2;
        }
        proof {
            lemma_newton_fixpoint(scaled as int, x as int);
        }
        Wad(x)
    }

    /// True when the value is zero.
    pub fn is_zero(self) -> (r: bool)
        ensures
            r == (self.0 == 0),
    {
        self.0 == 0
    }

    /// True when the value is above zero.
    pub fn is_positive(self) -> (r: bool)
        ensures
            r == (self.0 > 0),
    {
        self.0 > 0
    }

    /// True when the value is below zero.
    pub fn is_negative(self) -> (r: bool)
        ensures
            r == (self.0 < 0),
    {
        self.0 < 0
    }

    /// The raw scaled value.
    pub fn raw(self) -> (r: i128)
        ensures
            r == self.0,
    {
        self.0
    }

    /// The value one.
    pub fn one() -> (r: Wad)
        ensures
            r.0 == WAD,
    {
        Wad(WAD)
    }

    /// The value zero.
    pub fn zero() -> (r: Wad)
        ensures
            r.0 == 0,
    {
        Wad(0)
    }
}

impl core::default::Default for Wad {
    fn default() -> (r: Wad)
        ensures
            r.0 == 0,
    {
        Wad(0)
    }
}

impl core::convert::From<i128> for Wad {
    fn from(value: i128) -> (r: Wad) {
        Wad(value)
    }
}

impl vstd::std_specs::convert::FromSpecImpl<i128> for Wad {
    open spec fn obeys_from_spec() -> bool {
        true
    }

    open spec fn from_spec(value: i128) -> Wad {
        Wad(value)
    }
}

impl core::ops::Add for Wad {
    type Output = Wad;

    fn add(self, other: Wad) -> (r: Wad) {
        Wad(self.0 + other.0)
    }
}

impl vstd::std_specs::ops::AddSpecImpl for Wad {
    open spec fn obeys_add_spec() -> bool {
        true
    }

    open spec fn add_req(self, other: Wad) -> bool {
        i128::MIN <= self.0 + other.0 <= i128::MAX
    }

    open spec fn add_spec(self, other: Wad) -> Wad {
        Wad((self.0 + other.0) as i128)
    }
}

impl core::ops::Sub for Wad {
    type Output = Wad;

    fn sub(self, other: Wad) -> (r: Wad) {
        Wad(self.0 - other.0)
    }
}

impl vstd::std_specs::ops::SubSpecImpl for Wad {
    open spec fn obeys_sub_spec() -> bool {
        true
    }

    open spec fn sub_req(self, other: Wad) -> bool {
        i128::MIN <= self.0 - other.0 <= i128::MAX
    }

    open spec fn sub_spec(self, other: Wad) -> Wad {
        Wad((self.0 - other.0) as i128)
    }
}

impl core::ops::Neg for Wad {
    type Output = Wad;

    fn neg(self) -> (r: Wad) {
        Wad(-self.0)
    }
}

impl vstd::std_specs::ops::NegSpecImpl for Wad {
    open spec fn obeys_neg_spec() -> bool {
        true
    }

    open spec fn neg_req(self) -> bool {
        self.0 > i128::MIN
    }

    open spec fn neg_spec(self) -> Wad {
        Wad((-self.0) as i128)
    }
}

/// `v` raised to at least `lo`, then lowered to at most `hi`.
pub open spec fn clamp_int(v: int, lo: int, hi: int) -> int {
    let raised = if v < lo { lo } else { v };
    if raised > hi { hi } else { raised }
}

/// Absolute value of a mathematical integer.
pub open spec fn abs_int(v: int) -> int {
    if v < 0 { -v } else { v }
}

/// `r` is the integer square root of `n`: the largest integer whose square
/// does not exceed `n`.
pub open spec fn is_floor_sqrt(r: int, n: int) -> bool {
    0 <= r && r * r <= n < (r + 1) * (r + 1)
}

/// One Newton step from an iterate that is not below the root stays
/// positive and not below the root.
proof fn lemma_newton_step(n: int, x: int)
    requires
        1 <= x <= n,
    ensures
        (x + n / x) / 2 >= 1,
        ((x + n / x) / 2 + 1) * ((x + n / x) / 2 + 1) > n,
{
    let q = n / x;
    let y = (x + q) / 2;
    assert(q >= 1 && x * q <= n < x * (q + 1)) by (nonlinear_arith)
        requires
            1 <= x <= n,
            q == n / x,
    ;
    assert((y + 1) * (y + 1) > n) by (nonlinear_arith)
        requires
            2 * (y + 1) >= x + q + 1,
            n < x * (q + 1),
            x >= 1,
            q >= 1,
            y >= 0,
    ;
}

/// The sum that a Newton step halves stays within one of the radicand.
proof fn lemma_newton_sum_bound(n: int, x: int)
    requires
        1 <= x <= n,
    ensures
        0 <= n / x <= n,
        x + n / x <= n + 1,
{
    let q = n / x;
    assert(q >= 1 && x * q <= n && x + q <= x * q + 1) by (nonlinear_arith)
        requires
            1 <= x <= n,
            q == n / x,
    ;
}

/// Where a Newton step no longer decreases, the iterate's square fits.
proof fn lemma_newton_fixpoint(n: int, x: int)
    requires
        1 <= x <= n,
        (x + n / x) / 2 >= x,
    ensures
        x * x <= n,
{
    let q = n / x;
    assert(x * x <= n) by (nonlinear_arith)
        requires
            1 <= x <= n,
            q == n / x,
            q >= x,
    ;
}

/// The integer square root is unique: two roots of one radicand are equal.
pub proof fn lemma_floor_sqrt_unique(r1: int, r2: int, n: int)
    requires
        is_floor_sqrt(r1, n),
        is_floor_sqrt(r2, n),
    ensures
        r1 == r2,
{
    assert(r1 <= r2) by (nonlinear_arith)
        requires
            0 <= r1,
            0 <= r2,
            r1 * r1 < (r2 + 1) * (r2 + 1),
    ;
    assert(r2 <= r1) by (nonlinear_arith)
        requires
            0 <= r1,
            0 <= r2,
            r2 * r2 < (r1 + 1) * (r1 + 1),
    ;
}

/// The square root of an exact square is exact: where `v * 10^18` is the
/// square of `m`, the fixed-point root of `v` is `m`. So the root of four
/// is two, to the last unit.
pub proof fn lemma_sqrt_of_square(v: Wad, m: int, r: Wad)
    requires
        v.0 > 0,
        m >= 0,
        v.0 * WAD == m * m,
        is_floor_sqrt(r.0 as int, v.0 * WAD),
    ensures
        r.0 == m,
{
    assert(m * m < (m + 1) * (m + 1)) by (nonlinear_arith)
        requires
            m >= 0,
    ;
    lemma_floor_sqrt_unique(r.0 as int, m, v.0 * WAD);
}

/// What a truncated quotient leaves over is smaller than the divisor.
pub proof fn lemma_trunc_div_remainder(a: int, b: int)
    requires
        b != 0,
    ensures
        abs_int(a - trunc_div(a, b) * b) < abs_int(b),
{
    if a >= 0 {
        assert(abs_int(a - (a / b) * b) < abs_int(b)) by (nonlinear_arith)
            requires
                b != 0,
        ;
    } else {
        let c = -a;
        assert(abs_int(c - (c / b) * b) < abs_int(b)) by (nonlinear_arith)
            requires
                b != 0,
        ;
        assert(a - (-(c / b)) * b == -(c - (c / b) * b)) by (nonlinear_arith)
            requires
                c == -a,
        ;
    }
}

/// What the machine's remainder leaves: the dividend less the truncated
/// quotient times the divisor.
pub open spec fn trunc_rem(a: int, b: int) -> int
    recommends
        b != 0,
{
    a - trunc_div(a, b) * b
}

/// The quotient rounded down is the truncated one, less one where the
/// remainder is not zero and its sign differs from the divisor's. A quotient
/// that is so lowered has at most half the magnitude of the dividend.
pub proof fn lemma_floor_from_trunc(a: int, b: int)
    requires
        b != 0,
    ensures
        trunc_rem(a, b) == (if a >= 0 {
            a % b
        } else {
            -((-a) % b)
        }),
        floor_div(a, b) == (if trunc_rem(a, b) != 0 && ((trunc_rem(a, b) < 0) != (b < 0)) {
            trunc_div(a, b) - 1
        } else {
            trunc_div(a, b)
        }),
        trunc_rem(a, b) != 0 ==> 2 * abs_int(trunc_div(a, b)) <= abs_int(a),
{
    let q = trunc_div(a, b);
    let r = trunc_rem(a, b);
    lemma_trunc_div_remainder(a, b);
    if a >= 0 {
        assert(a == b * (a / b) + a % b) by (nonlinear_arith)
            requires
                b != 0,
        ;
        assert(r == a % b) by (nonlinear_arith)
            requires
                r == a - (a / b) * b,
                a == b * (a / b) + a % b,
        ;
    } else {
        let c = -a;
        assert(c == b * (c / b) + c % b) by (nonlinear_arith)
            requires
                b != 0,
        ;
        assert(r == -(c % b)) by (nonlinear_arith)
            requires
                r == a - (-(c / b)) * b,
                c == -a,
                c == b * (c / b) + c % b,
        ;
    }
    if b > 0 {
        if r >= 0 {
            vstd::arithmetic::div_mod::lemma_fundamental_div_mod_converse(a, b, q, r);
        } else {
            assert(a == (q - 1) * b + (r + b)) by (nonlinear_arith)
                requires
                    r == a - q * b,
            ;
            vstd::arithmetic::div_mod::lemma_fundamental_div_mod_converse(a, b, q - 1, r + b);
        }
    } else {
        if r <= 0 {
            assert(-a == q * (-b) + (-r)) by (nonlinear_arith)
                requires
                    r == a - q * b,
            ;
            vstd::arithmetic::div_mod::lemma_fundamental_div_mod_converse(-a, -b, q, -r);
        } else {
            assert(-a == (q - 1) * (-b) + (-b - r)) by (nonlinear_arith)
                requires
                    r == a - q * b,
            ;
            vstd::arithmetic::div_mod::lemma_fundamental_div_mod_converse(
                -a,
                -b,
                q - 1,
                -b - r,
            );
        }
    }
    if r != 0 {
        assert(2 * abs_int(q) <= abs_int(a)) by (nonlinear_arith)
            requires
                r == a - q * b,
                r != 0,
                b != 0,
                abs_int(r) < abs_int(b),
                a >= 0 ==> (q >= 0 && b > 0 || q <= 0 && b < 0) && r >= 0,
                a < 0 ==> (q <= 0 && b > 0 || q >= 0 && b < 0) && r <= 0,
        ;
    }
}

/// What a quotient rounded down leaves over is smaller than the divisor.
pub proof fn lemma_floor_div_remainder(a: int, b: int)
    requires
        b != 0,
    ensures
        abs_int(a - floor_div(a, b) * b) < abs_int(b),
{
    if b > 0 {
        assert(abs_int(a - (a / b) * b) < abs_int(b)) by (nonlinear_arith)
            requires
                b > 0,
        ;
    } else {
        let c = -a;
        let d = -b;
        assert(abs_int(c - (c / d) * d) < abs_int(d)) by (nonlinear_arith)
            requires
                d > 0,
        ;
        assert(a - (c / d) * b == -(c - (c / d) * d)) by (nonlinear_arith)
            requires
                c == -a,
                d == -b,
        ;
    }
}

/// Dividing by `b` and multiplying by `b` again comes back to `a`, up to the
/// two roundings: the distance, scaled by 10^18, is less than `|b| + 10^18`.
/// For a divisor of magnitude at most one the result is within one unit.
pub proof fn lemma_wdiv_wmul_round_trip(a: Wad, b: Wad)
    requires
        b.0 != 0,
    ensures
        ({
            let q = floor_div(a.0 * WAD, b.0 as int);
            let back = (q * b.0) / (WAD as int);
            &&& abs_int(back - a.0) * WAD < abs_int(b.0 as int) + WAD
            &&& abs_int(b.0 as int) <= WAD ==> abs_int(back - a.0) <= 1
        }),
{
    let w = WAD as int;
    let q = floor_div(a.0 * w, b.0 as int);
    let back = (q * b.0) / w;
    lemma_floor_div_remainder(a.0 * w, b.0 as int);
    let r1 = a.0 * w - q * b.0;
    let r2 = q * b.0 - back * w;
    assert((a.0 - back) * w == r1 + r2) by (nonlinear_arith)
        requires
            r1 == a.0 * w - q * b.0,
            r2 == q * b.0 - back * w,
    ;
    assert(abs_int(back - a.0) * w == abs_int((a.0 - back) * w)) by (nonlinear_arith)
        requires
            w > 0,
    ;
}

/// A truncated quotient is no larger in magnitude than the dividend.
proof fn lemma_trunc_div_bound(a: int, b: int)
    requires
        b != 0,
    ensures
        -abs_int(a) <= trunc_div(a, b) <= abs_int(a),
{
    assert(forall|x: int, y: int| x >= 0 && y != 0 ==> -x <= #[trigger] (x / y) <= x)
        by (nonlinear_arith);
}

} // verus!
