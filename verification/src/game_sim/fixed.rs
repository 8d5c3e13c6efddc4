use vstd::prelude::*;
use vstd::std_specs::ops::{AddSpecImpl, SubSpecImpl, MulSpecImpl, DivSpecImpl, NegSpecImpl};

verus! {

/// Number of fixed-point units in one pixel.
pub const SCALE: i32 = 1000;

/// Integer division rounding toward zero, as Rust's `/` on signed integers does.
pub open spec fn div_toward_zero(x: int, d: int) -> int {
    if x >= 0 {
        x / d
    } else {
        -((-x) / d)
    }
}

/// The product of two `i32` values fits in an `i64`.
pub proof fn lemma_i32_product_fits(a: i32, b: i32)
    ensures
        i64::MIN <= a * b <= i64::MAX,
{
    assert(-4611686018427387904 <= a * b <= 4611686018427387904) by (nonlinear_arith)
        requires
            -2147483648 <= a <= 2147483647,
            -2147483648 <= b <= 2147483647,
    ;
}

/// Euclidean division by a negated positive divisor negates the quotient.
pub proof fn lemma_div_negated_divisor(x: int, d: int)
    requires
        d > 0,
    ensures
        x / (-d) == -(x / d),
{
    let q = x / (-d);
    let r = x % (-d);
    vstd::arithmetic::div_mod::lemma_fundamental_div_mod(x, -d);
    assert(0 <= r < d);
    assert((-q) * d == (-d) * q) by (nonlinear_arith);
    vstd::arithmetic::div_mod::lemma_fundamental_div_mod_converse(x, d, -q, r);
}

/// Rust's truncating division by a negative divisor is the negation of the
/// division by its magnitude.
pub proof fn lemma_div_toward_zero_negated_divisor(x: int, d: int)
    requires
        d > 0,
    ensures
        div_toward_zero(x, -d) == -div_toward_zero(x, d),
{
    lemma_div_negated_divisor(x, d);
    lemma_div_negated_divisor(-x, d);
}

/// Fixed-point number type: i32 with 1/1000 pixel precision.
/// 1.0 pixel = 1000 units.
#[derive(Debug, Clone, Copy, PartialEq, Eq, Structural, PartialOrd, Ord, Hash)]
pub struct FixedPoint(pub i32);

impl FixedPoint {
    /// `n` whole pixels.
    pub fn from_int(n: i32) -> (r: FixedPoint)
        requires
            i32::MIN <= n * 1000 <= i32::MAX,
        ensures
            r.0 == n * 1000,
    {
        FixedPoint(n * SCALE)
    }

    /// The raw number of units.
    pub fn raw(self) -> (r: i32)
        ensures
            r == self.0,
    {
        self.0
    }
}

impl core::ops::Add for FixedPoint {
    type Output = FixedPoint;

    fn add(self, rhs: FixedPoint) -> (r: FixedPoint) {
        FixedPoint(self.0 + rhs.0)
    }
}

impl AddSpecImpl for FixedPoint {
    open spec fn obeys_add_spec() -> bool {
        true
    }

    open spec fn add_req(self, rhs: FixedPoint) -> bool {
        i32::MIN <= self.0 + rhs.0 <= i32::MAX
    }

    open spec fn add_spec(self, rhs: FixedPoint) -> FixedPoint {
        FixedPoint((self.0 + rhs.0) as i32)
    }
}

/// Adds in place; a sum beyond the `i32` range wraps around.
impl core::ops::AddAssign for FixedPoint {
    fn add_assign(&mut self, rhs: FixedPoint)
        ensures
            final(self).0 == old(self).0.wrapping_add(rhs.0),
    {
        self.0 = self.0.wrapping_add(rhs.0);
    }
}

/// Subtracts in place; a difference beyond the `i32` range wraps around.
impl core::ops::SubAssign for FixedPoint {
    fn sub_assign(&mut self, rhs: FixedPoint)
        ensures
            final(self).0 == old(self).0.wrapping_sub(rhs.0),
    {
        self.0 = self.0.wrapping_sub(rhs.0);
    }
}

impl core::ops::Sub for FixedPoint {
    type Output = FixedPoint;

    fn sub(self, rhs: FixedPoint) -> (r: FixedPoint) {
        FixedPoint(self.0 - rhs.0)
    }
}

impl SubSpecImpl for FixedPoint {
    open spec fn obeys_sub_spec() -> bool {
        true
    }

    open spec fn sub_req(self, rhs: FixedPoint) -> bool {
        i32::MIN <= self.0 - rhs.0 <= i32::MAX
    }

    open spec fn sub_spec(self, rhs: FixedPoint) -> FixedPoint {
        FixedPoint((self.0 - rhs.0) as i32)
    }
}

impl core::ops::Mul for FixedPoint {
    type Output = FixedPoint;

    fn mul(self, rhs: FixedPoint) -> (r: FixedPoint) {
        proof {
            lemma_i32_product_fits(self.0, rhs.0);
        }
        let p: i64 = self.0 as i64 * rhs.0 as i64;
        let q: i64 = p / 1000i64;
        assert(q == div_toward_zero(p as int, 1000));
        FixedPoint(#[verifier::truncate] (q as i32))
    }
}

impl MulSpecImpl for FixedPoint {
    open spec fn obeys_mul_spec() -> bool {
        true
    }

    open spec fn mul_req(self, rhs: FixedPoint) -> bool {
        true
    }

    open spec fn mul_spec(self, rhs: FixedPoint) -> FixedPoint {
        FixedPoint(div_toward_zero(self.0 * rhs.0, 1000) as i32)
    }
}

impl core::ops::Div for FixedPoint {
    type Output = FixedPoint;

    fn div(self, rhs: FixedPoint) -> (r: FixedPoint) {
        let n: i64 = self.0 as i64 * 1000i64;
        let d: i64 = rhs.0 as i64;
        // Rust's `/` rounds toward zero, so dividing by a negative divisor is
        // the negation of dividing by its magnitude.
        let q: i64 = if d > 0 {
            n / d
        } else {
            -(n / -d)
        };
        proof {
            if d < 0 {
                lemma_div_toward_zero_negated_divisor(n as int, -d);
            }
        }
        assert(q == div_toward_zero(n as int, d as int));
        FixedPoint(#[verifier::truncate] (q as i32))
    }
}

impl DivSpecImpl for FixedPoint {
    open spec fn obeys_div_spec() -> bool {
        true
    }

    open spec fn div_req(self, rhs: FixedPoint) -> bool {
        rhs.0 != 0
    }

    open spec fn div_spec(self, rhs: FixedPoint) -> FixedPoint {
        FixedPoint(div_toward_zero(self.0 * 1000, rhs.0 as int) as i32)
    }
}

impl core::ops::Neg for FixedPoint {
    type Output = FixedPoint;

    fn neg(self) -> (r: FixedPoint) {
        FixedPoint(-self.0)
    }
}

impl NegSpecImpl for FixedPoint {
    open spec fn obeys_neg_spec() -> bool {
        true
    }

    open spec fn neg_req(self) -> bool {
        self.0 != i32::MIN
    }

    open spec fn neg_spec(self) -> FixedPoint {
        FixedPoint(-self.0 as i32)
    }
}

} // verus!
