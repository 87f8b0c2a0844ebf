//! Fixed-point arithmetic: every quantity is an integer count of thousandths.

use vstd::prelude::*;

verus! {

/// One whole unit (a pixel, a second, a radian) in fixed-point thousandths.
pub const ONE: i32 = 1000;

/// `value` limited to what an `i32` can hold.
pub open spec fn saturated(value: int) -> int {
    if value > i32::MAX as int {
        i32::MAX as int
    } else if value < i32::MIN as int {
        i32::MIN as int
    } else {
        value
    }
}

/// Integer division that rounds toward zero, for a positive divisor.
pub open spec fn div_toward_zero(value: int, divisor: int) -> int
    recommends
        divisor > 0,
{
    if value >= 0 {
        value / divisor
    } else {
        -((-value) / divisor)
    }
}

/// Clamps a wide intermediate value into the range of a stored quantity.
pub fn saturate(value: i128) -> (out: i32)
    ensures
        out as int == saturated(value as int),
{
    if value > 2147483647 {
        2147483647
    } else if value < -2147483648 {
        -2147483648
    } else {
        value as i32
    }
}

/// The exact product of two 64-bit values.
pub fn mul_wide(a: i64, b: i64) -> (product: i128)
    ensures
        product as int == a as int * b as int,
        i128::MIN < product,
{
    proof {
        lemma_product_bound(a as int, b as int, 0x8000_0000_0000_0000, 0x8000_0000_0000_0000);
    }
    (a as i128) * (b as i128)
}

/// Divides rounding toward zero.
pub fn div_trunc(value: i128, divisor: i128) -> (quotient: i128)
    requires
        divisor > 0,
        value > i128::MIN,
    ensures
        quotient as int == div_toward_zero(value as int, divisor as int),
{
    if value >= 0 {
        value / divisor
    } else {
        -((-value) / divisor)
    }
}

/// A product is bounded by the product of the bounds of its factors.
pub proof fn lemma_product_bound(a: int, b: int, bound_a: int, bound_b: int)
    by (nonlinear_arith)
    requires
        -bound_a <= a <= bound_a,
        -bound_b <= b <= bound_b,
    ensures
        -(bound_a * bound_b) <= a * b <= bound_a * bound_b,
{
}

/// The time that one simulation step covers, in microseconds.
#[derive(Clone, Copy, Debug, PartialEq, Eq, Structural)]
pub struct TimeStep {
    pub micros: u32,
}

/// Microseconds in one second.
pub const MICROS_PER_SECOND: i64 = 1_000_000;

/// The largest rate that `TimeStep::scale` accepts: every 64-bit value, and
/// every product of a few 32-bit values, lies well within it.
pub const SCALE_LIMIT: i128 = 0x4000_0000_0000_0000_0000_0000;

/// The fixed step of the physics stages: one sixtieth of a second.
pub const FIXED_TIMESTEP_MICROS: u32 = 16_667;

impl TimeStep {
    pub fn from_micros(micros: u32) -> (dt: Self)
        ensures
            dt.micros == micros,
    {
        Self { micros }
    }

    /// The fixed step of the physics stages.
    pub fn fixed() -> (dt: Self)
        ensures
            dt.micros == FIXED_TIMESTEP_MICROS,
    {
        Self { micros: FIXED_TIMESTEP_MICROS }
    }

    /// What a rate of `rate` per second amounts to over this step.
    pub open spec fn scaled(self, rate: int) -> int {
        div_toward_zero(rate * self.micros as int, MICROS_PER_SECOND as int)
    }

    /// Scales a per-second rate by the length of this step, rounding toward zero.
    pub fn scale(&self, rate: i128) -> (amount: i128)
        requires
            -SCALE_LIMIT <= rate <= SCALE_LIMIT,
        ensures
            amount as int == self.scaled(rate as int),
            -0x4000_0000_0000_0000_0000_0000_0000_0000 <= amount <= 0x4000_0000_0000_0000_0000_0000_0000_0000,
    {
        proof {
            lemma_product_bound(rate as int, self.micros as int, SCALE_LIMIT as int, 0x1_0000_0000);
        }
        div_trunc(rate * (self.micros as i128), MICROS_PER_SECOND as i128)
    }
}

/// A fraction of a step's displacement: `num / den`, with `den` positive.
#[derive(Clone, Copy, Debug, PartialEq, Eq, Structural)]
pub struct Fraction {
    pub num: u32,
    pub den: u32,
}

impl Fraction {
    /// The fraction lies between 0 and 1.
    pub open spec fn wf(self) -> bool {
        0 < self.den && self.num <= self.den
    }

    /// `self < other` as rational numbers, for positive denominators.
    pub open spec fn lt(self, other: Fraction) -> bool {
        self.num * other.den < other.num * self.den
    }

    /// `self <= other` as rational numbers, for positive denominators.
    pub open spec fn le(self, other: Fraction) -> bool {
        self.num * other.den <= other.num * self.den
    }

    /// The whole step.
    pub open spec fn spec_one() -> Fraction {
        Fraction { num: 1, den: 1 }
    }

    /// The whole step.
    pub fn one() -> (f: Self)
        ensures
            f == Fraction::spec_one(),
    {
        Self { num: 1, den: 1 }
    }

    /// Compares two fractions exactly, by cross-multiplication.
    pub fn less_than(&self, other: &Fraction) -> (less: bool)
        ensures
            less == self.lt(*other),
    {
        mul_wide(self.num as i64, other.den as i64) < mul_wide(other.num as i64, self.den as i64)
    }

    /// The part `num / den` of `amount`, rounded toward zero.
    pub open spec fn part_of(self, amount: int) -> int {
        div_toward_zero(amount * self.num as int, self.den as int)
    }

    /// Takes this fraction of `amount`, rounding toward zero.
    pub fn apply(&self, amount: i64) -> (part: i128)
        requires
            self.den > 0,
        ensures
            part as int == self.part_of(amount as int),
    {
        let product = mul_wide(amount, self.num as i64);
        div_trunc(product, self.den as i128)
    }
}

/// Comparing fractions is transitive: `a < b` and `b <= c` give `a < c`.
pub proof fn lemma_fraction_lt_le(a: Fraction, b: Fraction, c: Fraction)
    requires
        a.den > 0,
        b.den > 0,
        c.den > 0,
        a.lt(b),
        b.le(c),
    ensures
        a.lt(c),
{
    let (an, ad) = (a.num as int, a.den as int);
    let (bn, bd) = (b.num as int, b.den as int);
    let (cn, cd) = (c.num as int, c.den as int);
    assert(an * cd < cn * ad) by (nonlinear_arith)
        requires
            ad > 0,
            bd > 0,
            cd > 0,
            an >= 0,
            bn >= 0,
            cn >= 0,
            an * bd < bn * ad,
            bn * cd <= cn * bd,
    {
        assert((an * bd) * cd <= (bn * ad) * cd);
        assert((bn * cd) * ad <= (cn * bd) * ad);
        assert((an * cd) * bd <= (cn * ad) * bd);
        if an * cd >= cn * ad {
            assert((an * cd) * bd >= (cn * ad) * bd);
            assert((an * bd) * cd == (bn * ad) * cd);
            assert(cd * (bn * ad - an * bd) == 0);
        }
    }
}

/// Whether `root` is the square root of `n`, rounded down.
pub open spec fn is_sqrt_floor(n: int, root: int) -> bool {
    0 <= root && root * root <= n < (root + 1) * (root + 1)
}

/// The square root of a non-negative `n`, rounded down.
pub open spec fn sqrt_floor(n: int) -> int {
    choose|root: int| is_sqrt_floor(n, root)
}

/// A number has at most one rounded-down square root.
pub proof fn lemma_sqrt_floor_unique(n: int, a: int, b: int)
    requires
        is_sqrt_floor(n, a),
        is_sqrt_floor(n, b),
    ensures
        a == b,
{
    if a < b {
        assert((a + 1) * (a + 1) <= b * b) by (nonlinear_arith)
            requires
                0 <= a,
                a + 1 <= b,
        ;
    }
    if b < a {
        assert((b + 1) * (b + 1) <= a * a) by (nonlinear_arith)
            requires
                0 <= b,
                b + 1 <= a,
        ;
    }
}

/// Computes the square root of `n`, rounded down, by bisection.
pub fn integer_sqrt(n: u128) -> (root: u64)
    ensures
        is_sqrt_floor(n as int, root as int),
        root as int == sqrt_floor(n as int),
{
    let mut low: u128 = 0;
    let mut high: u128 = 0x1_0000_0000_0000_0000;
    assert(0x1_0000_0000_0000_0000int * 0x1_0000_0000_0000_0000int > u128::MAX) by (nonlinear_arith);
    assert(0int * 0int == 0) by (nonlinear_arith);
    while high - low > 1
        invariant
            low < high <= 0x1_0000_0000_0000_0000,
            low * low <= n < high * high,
        decreases high - low,
    {
        let middle = low + (high - low) / 2;
        proof {
            lemma_product_bound(middle as int, middle as int, 0xffff_ffff_ffff_ffff, 0xffff_ffff_ffff_ffff);
        }
        if middle * middle <= n {
            low = middle;
        } else {
            high = middle;
        }
    }
    proof {
        assert(high == low + 1);
        assert(is_sqrt_floor(n as int, low as int));
        lemma_sqrt_floor_unique(n as int, low as int, sqrt_floor(n as int));
    }
    low as u64
}

} // verus!
