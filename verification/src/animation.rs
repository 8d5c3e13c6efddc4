use vstd::prelude::*;

use crate::collision::{Aabb, AnimationFrameData, HitboxSet};
use crate::fixed_point::FixedPoint;
use crate::game_state::ActionState;

verus! {

/// Total frame count of each action.
pub open spec fn spec_action_frame_count(action: ActionState) -> u8 {
    match action {
        ActionState::Idle => 1,
        ActionState::WalkForward => 1,
        ActionState::WalkBackward => 1,
        ActionState::Jump => 40,
        ActionState::Crouch => 1,
        ActionState::LightAttack => 12,
        ActionState::HeavyAttack => 20,
        ActionState::SpecialAttack => 25,
        ActionState::CrouchLight => 10,
        ActionState::CrouchHeavy => 18,
        ActionState::AirLight => 10,
        ActionState::AirHeavy => 16,
        ActionState::Hitstun => 1,
        ActionState::Blockstun => 1,
        ActionState::Knockdown => 30,
        ActionState::Getup => 15,
    }
}

/// Get the total frame count for an action.
pub fn action_frame_count(action: ActionState) -> (r: u8)
    ensures
        r == spec_action_frame_count(action),
{
    match action {
        ActionState::Idle => 1,  // looping single frame
        ActionState::WalkForward => 1,  // looping
        ActionState::WalkBackward => 1,  // looping
        ActionState::Jump => 40,  // jump arc
        ActionState::Crouch => 1,  // looping while held
        ActionState::LightAttack => 12,  // 3 startup + 3 active + 6 recovery
        ActionState::HeavyAttack => 20,  // 5 startup + 4 active + 11 recovery
        ActionState::SpecialAttack => 25,
        ActionState::CrouchLight => 10,
        ActionState::CrouchHeavy => 18,
        ActionState::AirLight => 10,
        ActionState::AirHeavy => 16,
        ActionState::Hitstun => 1,  // frame count driven by hitstun_frames
        ActionState::Blockstun => 1,  // frame count driven by blockstun_frames
        ActionState::Knockdown => 30,
        ActionState::Getup => 15,
    }
}

/// The all-zero box that fills unused slots.
pub open spec fn empty_box() -> Aabb {
    Aabb { x_min: FixedPoint(0), y_min: FixedPoint(0), x_max: FixedPoint(0), y_max: FixedPoint(0) }
}

pub open spec fn spec_box(x_min: i32, y_min: i32, x_max: i32, y_max: i32) -> Aabb {
    Aabb {
        x_min: FixedPoint(x_min),
        y_min: FixedPoint(y_min),
        x_max: FixedPoint(x_max),
        y_max: FixedPoint(y_max),
    }
}

/// No hitbox and one hurtbox of the given height (90 px standing, 50 px crouching).
pub open spec fn body_boxes(height: i32) -> HitboxSet {
    HitboxSet {
        hitboxes: [empty_box(), empty_box(), empty_box(), empty_box()],
        hitbox_count: 0,
        hurtboxes: [spec_box(-20000i32, 0, 20000, height), empty_box(), empty_box(), empty_box()],
        hurtbox_count: 1,
    }
}

/// The same boxes with `hit` as the single hitbox.
pub open spec fn with_hitbox(b: HitboxSet, hit: Aabb) -> HitboxSet {
    HitboxSet { hitboxes: [hit, empty_box(), empty_box(), empty_box()], hitbox_count: 1, ..b }
}

/// The numbers that describe one attack.
pub struct AttackStats {
    pub damage: i32,
    pub hitstun: u8,
    pub blockstun: u8,
    pub energy_gain: i32,
    pub guard_damage: i32,
    pub knockback_x: i32,
    pub knockback_y: i32,
}

/// Frame data of an attack on a frame: the body's hurtbox (`height`), the
/// attack's numbers, and its hitbox while `first <= frame <= last`; light
/// attacks (`cancellable`) can be cancelled during those frames.
pub open spec fn attack_frame(
    height: i32,
    stats: AttackStats,
    cancellable: bool,
    first: u8,
    last: u8,
    hit: Aabb,
    frame: u8,
) -> AnimationFrameData {
    let active = first <= frame <= last;
    AnimationFrameData {
        boxes: if active {
            with_hitbox(body_boxes(height), hit)
        } else {
            body_boxes(height)
        },
        damage: stats.damage,
        hitstun: stats.hitstun,
        blockstun: stats.blockstun,
        is_cancellable: cancellable && active,
        energy_gain: stats.energy_gain,
        guard_damage: stats.guard_damage,
        knockback_x: FixedPoint(stats.knockback_x),
        knockback_y: FixedPoint(stats.knockback_y),
    }
}

pub open spec fn stats(
    damage: i32,
    hitstun: u8,
    blockstun: u8,
    energy_gain: i32,
    guard_damage: i32,
    knockback_x: i32,
    knockback_y: i32,
) -> AttackStats {
    AttackStats { damage, hitstun, blockstun, energy_gain, guard_damage, knockback_x, knockback_y }
}

/// Frame data without any attack: only the body's hurtbox.
pub open spec fn passive_frame(height: i32) -> AnimationFrameData {
    AnimationFrameData {
        boxes: body_boxes(height),
        damage: 0,
        hitstun: 0,
        blockstun: 0,
        is_cancellable: false,
        energy_gain: 0,
        guard_damage: 0,
        knockback_x: FixedPoint(0),
        knockback_y: FixedPoint(0),
    }
}

/// Frame data for each action and frame.
pub open spec fn spec_frame_data(action: ActionState, frame: u8) -> AnimationFrameData {
    match action {
        // 3 startup, 3 active (frames 3-5), 6 recovery
        ActionState::LightAttack => attack_frame(
            90000,
            stats(60, 15, 8, 5, 15, 3000, 0),
            true,
            3,
            5,
            spec_box(15000, 40000, 55000, 65000),
            frame,
        ),
        // 5 startup, 4 active (frames 5-8), 11 recovery
        ActionState::HeavyAttack => attack_frame(
            90000,
            stats(100, 22, 12, 5, 25, 6000, 0),
            false,
            5,
            8,
            spec_box(10000, 30000, 65000, 75000),
            frame,
        ),
        // 7 startup, 5 active (7-11), 13 recovery
        ActionState::SpecialAttack => attack_frame(
            90000,
            stats(120, 25, 14, 10, 30, 8000, 4000),
            false,
            7,
            11,
            spec_box(5000, 20000, 70000, 80000),
            frame,
        ),
        // 2 startup, 3 active (2-4), 5 recovery
        ActionState::CrouchLight => attack_frame(
            50000,
            stats(40, 12, 6, 3, 10, 2000, 0),
            true,
            2,
            4,
            spec_box(10000, 5000, 55000, 35000),
            frame,
        ),
        // 4 startup, 4 active (4-7), 10 recovery
        ActionState::CrouchHeavy => attack_frame(
            50000,
            stats(80, 18, 10, 5, 20, 5000, 3000),
            false,
            4,
            7,
            spec_box(5000, 0, 65000, 40000),
            frame,
        ),
        // 2 startup, 3 active (2-4), 5 recovery
        ActionState::AirLight => attack_frame(
            90000,
            stats(50, 13, 7, 4, 12, 2500, -2000i32),
            true,
            2,
            4,
            spec_box(10000, 50000, 50000, 80000),
            frame,
        ),
        // 4 startup, 4 active (4-7), 8 recovery
        ActionState::AirHeavy => attack_frame(
            90000,
            stats(90, 20, 11, 5, 22, 5000, -4000i32),
            false,
            4,
            7,
            spec_box(5000, 40000, 60000, 85000),
            frame,
        ),
        ActionState::Crouch => passive_frame(50000),
        _ => passive_frame(90000),
    }
}

/// Hurtbox set of a body of the given height, with no hitbox.
fn body_hurtbox(height: i32) -> (r: HitboxSet)
    ensures
        r == body_boxes(height),
{
    let none = Aabb::new(0, 0, 0, 0);
    HitboxSet {
        hitboxes: [none, none, none, none],
        hitbox_count: 0,
        hurtboxes: [Aabb::new(-20_000, 0, 20_000, height), none, none, none],
        hurtbox_count: 1,
    }
}

/// Default standing hurtbox (local space, fixed-point raw values).
fn standing_hurtbox() -> (r: HitboxSet)
    ensures
        r == body_boxes(90000),
{
    body_hurtbox(90_000)
}

/// Default crouching hurtbox.
fn crouching_hurtbox() -> (r: HitboxSet)
    ensures
        r == body_boxes(50000),
{
    body_hurtbox(50_000)
}

/// Frame data of an attack (see `attack_frame`).
fn attack_frame_data(
    boxes: HitboxSet,
    s: AttackStats,
    cancellable: bool,
    first: u8,
    last: u8,
    hit: Aabb,
    frame: u8,
) -> (r: AnimationFrameData)
    requires
        boxes == body_boxes(90000) || boxes == body_boxes(50000),
    ensures
        boxes == body_boxes(90000) ==> r == attack_frame(90000, s, cancellable, first, last, hit, frame),
        boxes == body_boxes(50000) ==> r == attack_frame(50000, s, cancellable, first, last, hit, frame),
{
    let active = first <= frame && frame <= last;
    let mut data = AnimationFrameData {
        boxes,
        damage: s.damage,
        hitstun: s.hitstun,
        blockstun: s.blockstun,
        is_cancellable: cancellable && active,
        energy_gain: s.energy_gain,
        guard_damage: s.guard_damage,
        knockback_x: FixedPoint::raw(s.knockback_x),
        knockback_y: FixedPoint::raw(s.knockback_y),
    };
    if active {
        let none = Aabb::new(0, 0, 0, 0);
        data.boxes.hitboxes = [hit, none, none, none];
        data.boxes.hitbox_count = 1;
    }
    data
}

/// Get frame data for a given action and frame number.
pub fn get_frame_data(action: ActionState, frame: u8) -> (r: AnimationFrameData)
    ensures
        r == spec_frame_data(action, frame),
{
    match action {
        ActionState::LightAttack => light_attack_frame(frame),
        ActionState::HeavyAttack => heavy_attack_frame(frame),
        ActionState::SpecialAttack => special_attack_frame(frame),
        ActionState::CrouchLight => crouch_light_frame(frame),
        ActionState::CrouchHeavy => crouch_heavy_frame(frame),
        ActionState::AirLight => air_light_frame(frame),
        ActionState::AirHeavy => air_heavy_frame(frame),
        ActionState::Crouch => passive_frame_data(crouching_hurtbox()),
        _ => passive_frame_data(standing_hurtbox()),
    }
}

fn passive_frame_data(boxes: HitboxSet) -> (r: AnimationFrameData)
    ensures
        r == (AnimationFrameData {
            boxes,
            damage: 0,
            hitstun: 0,
            blockstun: 0,
            is_cancellable: false,
            energy_gain: 0,
            guard_damage: 0,
            knockback_x: FixedPoint(0),
            knockback_y: FixedPoint(0),
        }),
{
    AnimationFrameData {
        boxes,
        damage: 0,
        hitstun: 0,
        blockstun: 0,
        is_cancellable: false,
        energy_gain: 0,
        guard_damage: 0,
        knockback_x: FixedPoint(0),
        knockback_y: FixedPoint(0),
    }
}

// Light attack: 3 startup, 3 active (frames 3-5), 6 recovery
fn light_attack_frame(frame: u8) -> (r: AnimationFrameData)
    ensures
        r == spec_frame_data(ActionState::LightAttack, frame),
{
    let s = AttackStats {
        damage: 60,
        hitstun: 15,
        blockstun: 8,
        energy_gain: 5,
        guard_damage: 15,
        knockback_x: 3_000,
        knockback_y: 0,
    };
    attack_frame_data(standing_hurtbox(), s, true, 3, 5, Aabb::new(15_000, 40_000, 55_000, 65_000), frame)
}

// Heavy attack: 5 startup, 4 active (frames 5-8), 11 recovery
fn heavy_attack_frame(frame: u8) -> (r: AnimationFrameData)
    ensures
        r == spec_frame_data(ActionState::HeavyAttack, frame),
{
    let s = AttackStats {
        damage: 100,
        hitstun: 22,
        blockstun: 12,
        energy_gain: 5,
        guard_damage: 25,
        knockback_x: 6_000,
        knockback_y: 0,
    };
    attack_frame_data(standing_hurtbox(), s, false, 5, 8, Aabb::new(10_000, 30_000, 65_000, 75_000), frame)
}

// Special attack: 7 startup, 5 active (7-11), 13 recovery
fn special_attack_frame(frame: u8) -> (r: AnimationFrameData)
    ensures
        r == spec_frame_data(ActionState::SpecialAttack, frame),
{
    let s = AttackStats {
        damage: 120,
        hitstun: 25,
        blockstun: 14,
        energy_gain: 10,
        guard_damage: 30,
        knockback_x: 8_000,
        knockback_y: 4_000,
    };
    attack_frame_data(standing_hurtbox(), s, false, 7, 11, Aabb::new(5_000, 20_000, 70_000, 80_000), frame)
}

// Crouch light: 2 startup, 3 active (2-4), 5 recovery
fn crouch_light_frame(frame: u8) -> (r: AnimationFrameData)
    ensures
        r == spec_frame_data(ActionState::CrouchLight, frame),
{
    let s = AttackStats {
        damage: 40,
        hitstun: 12,
        blockstun: 6,
        energy_gain: 3,
        guard_damage: 10,
        knockback_x: 2_000,
        knockback_y: 0,
    };
    attack_frame_data(crouching_hurtbox(), s, true, 2, 4, Aabb::new(10_000, 5_000, 55_000, 35_000), frame)
}

// Crouch heavy: 4 startup, 4 active (4-7), 10 recovery
fn crouch_heavy_frame(frame: u8) -> (r: AnimationFrameData)
    ensures
        r == spec_frame_data(ActionState::CrouchHeavy, frame),
{
    let s = AttackStats {
        damage: 80,
        hitstun: 18,
        blockstun: 10,
        energy_gain: 5,
        guard_damage: 20,
        knockback_x: 5_000,
        knockback_y: 3_000,
    };
    attack_frame_data(crouching_hurtbox(), s, false, 4, 7, Aabb::new(5_000, 0, 65_000, 40_000), frame)
}

// Air light: 2 startup, 3 active (2-4), 5 recovery
fn air_light_frame(frame: u8) -> (r: AnimationFrameData)
    ensures
        r == spec_frame_data(ActionState::AirLight, frame),
{
    let s = AttackStats {
        damage: 50,
        hitstun: 13,
        blockstun: 7,
        energy_gain: 4,
        guard_damage: 12,
        knockback_x: 2_500,
        knockback_y: -2_000,
    };
    attack_frame_data(standing_hurtbox(), s, true, 2, 4, Aabb::new(10_000, 50_000, 50_000, 80_000), frame)
}

// Air heavy: 4 startup, 4 active (4-7), 8 recovery
fn air_heavy_frame(frame: u8) -> (r: AnimationFrameData)
    ensures
        r == spec_frame_data(ActionState::AirHeavy, frame),
{
    let s = AttackStats {
        damage: 90,
        hitstun: 20,
        blockstun: 11,
        energy_gain: 5,
        guard_damage: 22,
        knockback_x: 5_000,
        knockback_y: -4_000,
    };
    attack_frame_data(standing_hurtbox(), s, false, 4, 7, Aabb::new(5_000, 40_000, 60_000, 85_000), frame)
}

} // verus!
