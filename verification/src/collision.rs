use vstd::prelude::*;

use crate::fixed_point::FixedPoint;

verus! {

/// Axis-aligned bounding box in fixed-point coordinates.
#[derive(Clone, Copy, Debug, Default, PartialEq, Eq, Structural)]
pub struct Aabb {
    pub x_min: FixedPoint,
    pub y_min: FixedPoint,
    pub x_max: FixedPoint,
    pub y_max: FixedPoint,
}

/// The open interiors of two boxes intersect (touching edges do not count).
pub open spec fn spec_overlaps(a: Aabb, b: Aabb) -> bool {
    &&& a.x_min.0 < b.x_max.0
    &&& a.x_max.0 > b.x_min.0
    &&& a.y_min.0 < b.y_max.0
    &&& a.y_max.0 > b.y_min.0
}

/// A local box placed at a character's position; facing left mirrors it on x.
pub open spec fn spec_to_world(b: Aabb, pos_x: FixedPoint, pos_y: FixedPoint, facing: i8) -> Aabb {
    if facing >= 0 {
        Aabb {
            x_min: FixedPoint((pos_x.0 + b.x_min.0) as i32),
            y_min: FixedPoint((pos_y.0 + b.y_min.0) as i32),
            x_max: FixedPoint((pos_x.0 + b.x_max.0) as i32),
            y_max: FixedPoint((pos_y.0 + b.y_max.0) as i32),
        }
    } else {
        Aabb {
            x_min: FixedPoint((pos_x.0 - b.x_max.0) as i32),
            y_min: FixedPoint((pos_y.0 + b.y_min.0) as i32),
            x_max: FixedPoint((pos_x.0 - b.x_min.0) as i32),
            y_max: FixedPoint((pos_y.0 + b.y_max.0) as i32),
        }
    }
}

/// The world transform of `b` can be computed without overflow.
pub open spec fn to_world_req(b: Aabb, pos_x: FixedPoint, pos_y: FixedPoint, facing: i8) -> bool {
    &&& i32::MIN <= pos_y.0 + b.y_min.0 <= i32::MAX
    &&& i32::MIN <= pos_y.0 + b.y_max.0 <= i32::MAX
    &&& facing >= 0 ==> (i32::MIN <= pos_x.0 + b.x_min.0 <= i32::MAX && i32::MIN <= pos_x.0
        + b.x_max.0 <= i32::MAX)
    &&& facing < 0 ==> (i32::MIN <= pos_x.0 - b.x_max.0 <= i32::MAX && i32::MIN <= pos_x.0
        - b.x_min.0 <= i32::MAX)
}

/// A box that covers some area: each minimum below its maximum.
pub open spec fn is_proper(b: Aabb) -> bool {
    b.x_min.0 < b.x_max.0 && b.y_min.0 < b.y_max.0
}

/// The point lies in the box (edges on the minimum side included).
pub open spec fn contains_point(b: Aabb, x: int, y: int) -> bool {
    b.x_min.0 <= x < b.x_max.0 && b.y_min.0 <= y < b.y_max.0
}

/// Two proper boxes overlap exactly when some point lies in both (boxes
/// that only touch along an edge share no point), so boxes apart on either
/// axis never overlap; and overlapping is symmetric.
pub proof fn law_overlap_is_shared_point(a: Aabb, b: Aabb)
    requires
        is_proper(a),
        is_proper(b),
    ensures
        spec_overlaps(a, b) <==> exists|x: int, y: int|
            contains_point(a, x, y) && #[trigger] contains_point(b, x, y),
        spec_overlaps(a, b) == spec_overlaps(b, a),
        a.y_max.0 <= b.y_min.0 || b.y_max.0 <= a.y_min.0 ==> !spec_overlaps(a, b),
        a.x_max.0 <= b.x_min.0 || b.x_max.0 <= a.x_min.0 ==> !spec_overlaps(a, b),
{
    if spec_overlaps(a, b) {
        let x: int = if a.x_min.0 > b.x_min.0 {
            a.x_min.0 as int
        } else {
            b.x_min.0 as int
        };
        let y: int = if a.y_min.0 > b.y_min.0 {
            a.y_min.0 as int
        } else {
            b.y_min.0 as int
        };
        assert(contains_point(a, x, y) && contains_point(b, x, y));
    }
}

/// Placing a box in the world moves it to the owner's position; facing left
/// mirrors it about the owner's x position, so the two placements are mirror
/// images; the box keeps its width and height.
pub proof fn law_to_world_mirrors(b: Aabb, pos_x: FixedPoint, pos_y: FixedPoint)
    requires
        to_world_req(b, pos_x, pos_y, 1i8),
        to_world_req(b, pos_x, pos_y, -1i8),
    ensures
        ({
            let r = spec_to_world(b, pos_x, pos_y, 1i8);
            let l = spec_to_world(b, pos_x, pos_y, -1i8);
            &&& r.x_min.0 == pos_x.0 + b.x_min.0 && r.y_min.0 == pos_y.0 + b.y_min.0
            &&& l.x_min.0 + r.x_max.0 == 2 * pos_x.0 && l.x_max.0 + r.x_min.0 == 2 * pos_x.0
            &&& l.y_min == r.y_min && l.y_max == r.y_max
            &&& r.x_max.0 - r.x_min.0 == b.x_max.0 - b.x_min.0
            &&& l.x_max.0 - l.x_min.0 == b.x_max.0 - b.x_min.0
            &&& r.y_max.0 - r.y_min.0 == b.y_max.0 - b.y_min.0
        }),
{
}

impl Aabb {
    pub fn new(x_min: i32, y_min: i32, x_max: i32, y_max: i32) -> (r: Self)
        ensures
            r == (Aabb {
                x_min: FixedPoint(x_min),
                y_min: FixedPoint(y_min),
                x_max: FixedPoint(x_max),
                y_max: FixedPoint(y_max),
            }),
    {
        Self {
            x_min: FixedPoint(x_min),
            y_min: FixedPoint(y_min),
            x_max: FixedPoint(x_max),
            y_max: FixedPoint(y_max),
        }
    }

    /// Check if two AABBs overlap.
    #[inline]
    pub fn overlaps(&self, other: &Aabb) -> (r: bool)
        ensures
            r == spec_overlaps(*self, *other),
    {
        self.x_min.0 < other.x_max.0 && self.x_max.0 > other.x_min.0 && self.y_min.0
            < other.y_max.0 && self.y_max.0 > other.y_min.0
    }

    /// Translate to world space given character position and facing direction.
    pub fn to_world(&self, pos_x: FixedPoint, pos_y: FixedPoint, facing: i8) -> (r: Self)
        requires
            to_world_req(*self, pos_x, pos_y, facing),
        ensures
            r == spec_to_world(*self, pos_x, pos_y, facing),
    {
        if facing >= 0 {
            Self {
                x_min: FixedPoint(pos_x.0 + self.x_min.0),
                y_min: FixedPoint(pos_y.0 + self.y_min.0),
                x_max: FixedPoint(pos_x.0 + self.x_max.0),
                y_max: FixedPoint(pos_y.0 + self.y_max.0),
            }
        } else {
            // Mirror on x-axis
            Self {
                x_min: FixedPoint(pos_x.0 - self.x_max.0),
                y_min: FixedPoint(pos_y.0 + self.y_min.0),
                x_max: FixedPoint(pos_x.0 - self.x_min.0),
                y_max: FixedPoint(pos_y.0 + self.y_max.0),
            }
        }
    }
}

/// Up to 4 hitboxes + 4 hurtboxes per animation frame.
#[derive(Clone, Copy, Debug, Default)]
pub struct HitboxSet {
    pub hitboxes: [Aabb; 4],
    pub hitbox_count: u8,
    pub hurtboxes: [Aabb; 4],
    pub hurtbox_count: u8,
}

/// Per-frame animation data including collision boxes.
#[derive(Clone, Copy, Debug, Default)]
pub struct AnimationFrameData {
    pub boxes: HitboxSet,
    pub damage: i32,
    pub hitstun: u8,
    pub blockstun: u8,
    pub is_cancellable: bool,
    pub energy_gain: i32,
    pub guard_damage: i32,
    pub knockback_x: FixedPoint,
    pub knockback_y: FixedPoint,
}

/// Attacker and defender spatial info for hit checking.
pub struct CombatantInfo {
    pub pos: FixedPoint,
    pub pos_y: FixedPoint,
    pub facing: i8,
}

/// The world-space box `b` of a combatant.
pub open spec fn world_box(b: Aabb, c: CombatantInfo) -> Aabb {
    spec_to_world(b, c.pos, c.pos_y, c.facing)
}

/// Some counted hitbox of the attacker overlaps some counted hurtbox of the
/// defender, both placed in world space.
pub open spec fn spec_check_hit(
    attacker_boxes: HitboxSet,
    attacker: CombatantInfo,
    defender_boxes: HitboxSet,
    defender: CombatantInfo,
) -> bool {
    exists|i: int, j: int|
        0 <= i < attacker_boxes.hitbox_count && 0 <= j < defender_boxes.hurtbox_count
            && spec_overlaps(
            world_box(#[trigger] attacker_boxes.hitboxes[i], attacker),
            world_box(#[trigger] defender_boxes.hurtboxes[j], defender),
        )
}

/// The counted boxes exist and can be placed in world space without overflow.
pub open spec fn check_hit_req(
    attacker_boxes: HitboxSet,
    attacker: CombatantInfo,
    defender_boxes: HitboxSet,
    defender: CombatantInfo,
) -> bool {
    &&& attacker_boxes.hitbox_count <= 4
    &&& defender_boxes.hurtbox_count <= 4
    &&& forall|i: int|
        0 <= i < attacker_boxes.hitbox_count ==> to_world_req(
            #[trigger] attacker_boxes.hitboxes[i],
            attacker.pos,
            attacker.pos_y,
            attacker.facing,
        )
    &&& forall|j: int|
        0 <= j < defender_boxes.hurtbox_count ==> to_world_req(
            #[trigger] defender_boxes.hurtboxes[j],
            defender.pos,
            defender.pos_y,
            defender.facing,
        )
}

/// Check if any hitbox in the attacker's set overlaps any hurtbox in the defender's set.
pub fn check_hit(
    attacker_boxes: &HitboxSet,
    attacker: &CombatantInfo,
    defender_boxes: &HitboxSet,
    defender: &CombatantInfo,
) -> (r: bool)
    requires
        check_hit_req(*attacker_boxes, *attacker, *defender_boxes, *defender),
    ensures
        r == spec_check_hit(*attacker_boxes, *attacker, *defender_boxes, *defender),
{
    let n = attacker_boxes.hitbox_count as usize;
    let m = defender_boxes.hurtbox_count as usize;
    let mut i: usize = 0;
    while i < n
        invariant
            n == attacker_boxes.hitbox_count,
            m == defender_boxes.hurtbox_count,
            i <= n,
            check_hit_req(*attacker_boxes, *attacker, *defender_boxes, *defender),
            forall|a: int, b: int|
                0 <= a < i && 0 <= b < m ==> !spec_overlaps(
                    world_box(#[trigger] attacker_boxes.hitboxes[a], *attacker),
                    world_box(#[trigger] defender_boxes.hurtboxes[b], *defender),
                ),
        decreases n - i,
    {
        let hit = attacker_boxes.hitboxes[i].to_world(attacker.pos, attacker.pos_y, attacker.facing);
        let mut j: usize = 0;
        while j < m
            invariant
                n == attacker_boxes.hitbox_count,
                m == defender_boxes.hurtbox_count,
                i < n,
                j <= m,
                check_hit_req(*attacker_boxes, *attacker, *defender_boxes, *defender),
                hit == world_box(attacker_boxes.hitboxes[i as int], *attacker),
                forall|b: int|
                    0 <= b < j ==> !spec_overlaps(
                        hit,
                        world_box(#[trigger] defender_boxes.hurtboxes[b], *defender),
                    ),
            decreases m - j,
        {
            let hurt = defender_boxes.hurtboxes[j].to_world(
                defender.pos,
                defender.pos_y,
                defender.facing,
            );
            if hit.overlaps(&hurt) {
                return true;
            }
            j += 1;
        }
        i += 1;
    }
    false
}

} // verus!
