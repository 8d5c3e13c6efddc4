use vstd::prelude::*;
use vstd::std_specs::convert::FromSpecImpl;
use vstd::std_specs::ops::{AddSpecImpl, MulSpecImpl, NegSpecImpl, SubSpecImpl};

use crate::game_sim::fixed::{div_toward_zero, lemma_i32_product_fits};

verus! {

/// Fixed-point number: 1000 units = 1 pixel.
/// Range: roughly ±2,147,483 pixels — more than enough.
#[derive(Clone, Copy, Debug, Default, PartialEq, Eq, Structural, Hash, PartialOrd, Ord)]
pub struct FixedPoint(pub i32);

impl FixedPoint {
    pub const SCALE: i32 = 1000;

    #[inline]
    pub fn from_pixels(px: i32) -> (r: Self)
        requires
            i32::MIN <= px * 1000 <= i32::MAX,
        ensures
            r.0 == px * 1000,
    {
        Self(px * Self::SCALE)
    }

    #[inline]
    pub fn raw(v: i32) -> (r: Self)
        ensures
            r.0 == v,
    {
        Self(v)
    }

    #[inline]
    pub fn to_raw(self) -> (r: i32)
        ensures
            r == self.0,
    {
        self.0
    }

    /// Whole pixels, rounded toward zero.
    #[inline]
    pub fn to_pixels(self) -> (r: i32)
        ensures
            r == div_toward_zero(self.0 as int, 1000),
    {
        self.0 / Self::SCALE
    }
}

/// Whole pixels, like `from_pixels`; a count of pixels too large for the
/// range wraps around.
impl From<i32> for FixedPoint {
    #[inline]
    fn from(px: i32) -> (r: Self) {
        Self(px.wrapping_mul(Self::SCALE))
    }
}

impl FromSpecImpl<i32> for FixedPoint {
    open spec fn obeys_from_spec() -> bool {
        true
    }

    open spec fn from_spec(px: i32) -> FixedPoint {
        FixedPoint(px.wrapping_mul(1000))
    }
}

/// Whole pixels survive the trip into fixed point and back.
pub proof fn law_pixels_round_trip(px: i32)
    requires
        i32::MIN <= px * 1000 <= i32::MAX,
    ensures
        div_toward_zero(px * 1000, 1000) == px,
{
    if px < 0 {
        assert((-(px * 1000)) / 1000 == -px) by (nonlinear_arith)
            requires
                px < 0,
        ;
    } else {
        assert((px * 1000) / 1000 == px) by (nonlinear_arith)
            requires
                px >= 0,
        ;
    }
}

impl core::ops::Add for FixedPoint {
    type Output = Self;

    #[inline]
    fn add(self, rhs: Self) -> (r: Self) {
        Self(self.0 + rhs.0)
    }
}

impl AddSpecImpl for FixedPoint {
    open spec fn obeys_add_spec() -> bool {
        true
    }

    open spec fn add_req(self, rhs: FixedPoint) -> bool {
        i32::MIN <= self.0 + rhs.0 <= i32::MAX
    }

    open spec fn add_spec(self, rhs: FixedPoint) -> FixedPoint {
        FixedPoint((self.0 + rhs.0) as i32)
    }
}

impl core::ops::Sub for FixedPoint {
    type Output = Self;

    #[inline]
    fn sub(self, rhs: Self) -> (r: Self) {
        Self(self.0 - rhs.0)
    }
}

impl SubSpecImpl for FixedPoint {
    open spec fn obeys_sub_spec() -> bool {
        true
    }

    open spec fn sub_req(self, rhs: FixedPoint) -> bool {
        i32::MIN <= self.0 - rhs.0 <= i32::MAX
    }

    open spec fn sub_spec(self, rhs: FixedPoint) -> FixedPoint {
        FixedPoint((self.0 - rhs.0) as i32)
    }
}

impl core::ops::Mul for FixedPoint {
    type Output = Self;

    /// Fixed × Fixed: result is (a*b)/SCALE to keep scale correct.
    #[inline]
    fn mul(self, rhs: Self) -> (r: Self) {
        proof {
            lemma_i32_product_fits(self.0, rhs.0);
        }
        let p: i64 = self.0 as i64 * rhs.0 as i64;
        let q: i64 = p / 1000i64;
        assert(q == div_toward_zero(p as int, 1000));
        Self(#[verifier::truncate] (q as i32))
    }
}

impl MulSpecImpl for FixedPoint {
    open spec fn obeys_mul_spec() -> bool {
        true
    }

    open spec fn mul_req(self, rhs: FixedPoint) -> bool {
        true
    }

    open spec fn mul_spec(self, rhs: FixedPoint) -> FixedPoint {
        FixedPoint(div_toward_zero(self.0 * rhs.0, 1000) as i32)
    }
}

impl core::ops::Neg for FixedPoint {
    type Output = Self;

    #[inline]
    fn neg(self) -> (r: Self) {
        Self(-self.0)
    }
}

impl NegSpecImpl for FixedPoint {
    open spec fn obeys_neg_spec() -> bool {
        true
    }

    open spec fn neg_req(self) -> bool {
        self.0 != i32::MIN
    }

    open spec fn neg_spec(self) -> FixedPoint {
        FixedPoint(-self.0 as i32)
    }
}

} // verus!
