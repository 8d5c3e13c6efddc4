use vstd::prelude::*;

use crate::game_sim::fixed::FixedPoint;

verus! {

/// Axis-aligned box given by its top-left corner and its size.
#[derive(Debug, Clone, Copy, PartialEq, Eq, Structural)]
pub struct AABB {
    pub x: FixedPoint,
    pub y: FixedPoint,
    pub w: FixedPoint,
    pub h: FixedPoint,
}

impl AABB {
    /// The right and bottom edges can be computed without overflow.
    pub open spec fn edges_fit(self) -> bool {
        &&& i32::MIN <= self.x.0 + self.w.0 <= i32::MAX
        &&& i32::MIN <= self.y.0 + self.h.0 <= i32::MAX
    }

    pub fn new(x: FixedPoint, y: FixedPoint, w: FixedPoint, h: FixedPoint) -> (r: Self)
        ensures
            r == (AABB { x, y, w, h }),
    {
        AABB { x, y, w, h }
    }
}

/// Two boxes overlap when their open interiors intersect on both axes
/// (touching edges do not count).
pub open spec fn spec_overlaps(a: AABB, b: AABB) -> bool {
    &&& a.x.0 < b.x.0 + b.w.0
    &&& a.x.0 + a.w.0 > b.x.0
    &&& a.y.0 < b.y.0 + b.h.0
    &&& a.y.0 + a.h.0 > b.y.0
}

/// The point lies in the box (edges on the left and top included).
pub open spec fn box_contains(b: AABB, px: int, py: int) -> bool {
    b.x.0 <= px < b.x.0 + b.w.0 && b.y.0 <= py < b.y.0 + b.h.0
}

/// Two boxes of positive size overlap exactly when some point lies in both
/// (boxes that only touch along an edge share none), so boxes apart on
/// either axis never overlap; and overlapping is symmetric.
pub proof fn law_overlap_is_shared_point(a: AABB, b: AABB)
    requires
        a.w.0 > 0 && a.h.0 > 0,
        b.w.0 > 0 && b.h.0 > 0,
    ensures
        spec_overlaps(a, b) <==> exists|px: int, py: int|
            box_contains(a, px, py) && #[trigger] box_contains(b, px, py),
        spec_overlaps(a, b) == spec_overlaps(b, a),
        a.y.0 + a.h.0 <= b.y.0 || b.y.0 + b.h.0 <= a.y.0 ==> !spec_overlaps(a, b),
        a.x.0 + a.w.0 <= b.x.0 || b.x.0 + b.w.0 <= a.x.0 ==> !spec_overlaps(a, b),
{
    if spec_overlaps(a, b) {
        let px: int = if a.x.0 > b.x.0 {
            a.x.0 as int
        } else {
            b.x.0 as int
        };
        let py: int = if a.y.0 > b.y.0 {
            a.y.0 as int
        } else {
            b.y.0 as int
        };
        assert(box_contains(a, px, py) && box_contains(b, px, py));
    }
}

pub fn overlaps(a: &AABB, b: &AABB) -> (r: bool)
    requires
        a.edges_fit(),
        b.edges_fit(),
    ensures
        r == spec_overlaps(*a, *b),
{
    let a_right = a.x.0 + a.w.0;
    let b_right = b.x.0 + b.w.0;
    let a_bottom = a.y.0 + a.h.0;
    let b_bottom = b.y.0 + b.h.0;

    a.x.0 < b_right && a_right > b.x.0 && a.y.0 < b_bottom && a_bottom > b.y.0
}

/// Every present box in the list has computable edges.
pub open spec fn boxes_fit(boxes: Seq<Option<AABB>>) -> bool {
    forall|i: int| 0 <= i < boxes.len() ==> (#[trigger] boxes[i] matches Some(b) ==> b.edges_fit())
}

/// Some present box of the first list overlaps some present box of the second.
pub open spec fn spec_any_hit(hits: Seq<Option<AABB>>, hurts: Seq<Option<AABB>>) -> bool {
    exists|i: int, j: int|
        0 <= i < hits.len() && 0 <= j < hurts.len() && #[trigger] hits[i] is Some
            && #[trigger] hurts[j] is Some && spec_overlaps(hits[i]->0, hurts[j]->0)
}

pub fn check_hit(attacker_hitboxes: &[Option<AABB>], defender_hurtboxes: &[Option<AABB>]) -> (r:
    bool)
    requires
        boxes_fit(attacker_hitboxes@),
        boxes_fit(defender_hurtboxes@),
    ensures
        r == spec_any_hit(attacker_hitboxes@, defender_hurtboxes@),
{
    let n = attacker_hitboxes.len();
    let m = defender_hurtboxes.len();
    let mut i: usize = 0;
    while i < n
        invariant
            n == attacker_hitboxes@.len(),
            m == defender_hurtboxes@.len(),
            i <= n,
            boxes_fit(attacker_hitboxes@),
            boxes_fit(defender_hurtboxes@),
            forall|a: int, b: int|
                0 <= a < i && 0 <= b < m && #[trigger] attacker_hitboxes@[a] is Some
                    && #[trigger] defender_hurtboxes@[b] is Some ==> !spec_overlaps(
                    attacker_hitboxes@[a]->0,
                    defender_hurtboxes@[b]->0,
                ),
        decreases n - i,
    {
        if let Some(h) = &attacker_hitboxes[i] {
            let mut j: usize = 0;
            while j < m
                invariant
                    n == attacker_hitboxes@.len(),
                    m == defender_hurtboxes@.len(),
                    i < n,
                    j <= m,
                    attacker_hitboxes@[i as int] == Some(*h),
                    h.edges_fit(),
                    boxes_fit(defender_hurtboxes@),
                    forall|b: int|
                        0 <= b < j && #[trigger] defender_hurtboxes@[b] is Some ==> !spec_overlaps(
                            *h,
                            defender_hurtboxes@[b]->0,
                        ),
                decreases m - j,
            {
                if let Some(d) = &defender_hurtboxes[j] {
                    assert(defender_hurtboxes@[j as int] is Some);
                    if overlaps(h, d) {
                        return true;
                    }
                }
                j += 1;
            }
        }
        i += 1;
    }
    false
}

} // verus!
