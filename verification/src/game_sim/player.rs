use vstd::prelude::*;

use crate::game_sim::collision::AABB;
use crate::game_sim::constants::{
    BLOCKSTUN_RATIO, BLOCK_CHIP_PERCENT, DASH_STRIKE_SPEED_MULT, GRAVITY, GROUND_Y, JUMP_VELOCITY,
    KNOCKDOWN_FRAMES, KNOCKDOWN_THRESHOLD, MAX_ENERGY, MAX_HEALTH, PLAYER_SPEED,
    SPECIAL_ENERGY_COST, STAGE_WIDTH,
};
use crate::game_sim::fixed::{div_toward_zero, FixedPoint};
use crate::game_sim::input::Input;

verus! {

#[derive(Debug, Clone, Copy, PartialEq, Eq, Structural)]
pub enum PlayerAction {
    Idle,
    WalkForward,
    WalkBack,
    Jump,
    Crouch,
    LightAttack1,
    LightAttack2,
    LightAttack3,
    HeavyAttack,
    Uppercut,
    AerialAttack,
    Block,
    Fireball,
    DashStrike,
    Hitstun { frames_remaining: i32 },
    Blockstun { frames_remaining: i32 },
    Knockdown { frames_remaining: i32 },
    Getup,
}

#[derive(Debug, Clone, Copy, PartialEq, Eq, Structural)]
pub enum Element {
    Fire,
    Lightning,
    DarkMagic,
    Ice,
}

#[derive(Debug, Clone, Copy)]
pub struct PlayerState {
    pub x: FixedPoint,
    pub y: FixedPoint,
    pub vx: FixedPoint,
    pub vy: FixedPoint,
    pub facing: i8,
    pub health: i32,
    pub energy: i32,
    pub guard_meter: i32,
    pub action: PlayerAction,
    pub action_frame: i32,
    pub is_grounded: bool,
    pub element: Element,
}

/// Ground level in fixed-point units.
pub open spec fn ground() -> int {
    GROUND_Y * 1000
}

/// Duration (in frames) of each timed action; 0 for the others.
pub open spec fn spec_action_duration(action: PlayerAction) -> i32 {
    match action {
        PlayerAction::LightAttack1 => 12,
        PlayerAction::LightAttack2 => 14,
        PlayerAction::LightAttack3 => 18,
        PlayerAction::HeavyAttack => 24,
        PlayerAction::Uppercut => 20,
        PlayerAction::AerialAttack => 16,
        PlayerAction::Fireball => 22,
        PlayerAction::DashStrike => 18,
        PlayerAction::Getup => 20,
        _ => 0,
    }
}

/// Damage dealt by an attack (0 for actions that are not attacks).
pub open spec fn spec_attack_damage(action: PlayerAction) -> i32 {
    match action {
        PlayerAction::LightAttack1 => 20,
        PlayerAction::LightAttack2 => 25,
        PlayerAction::LightAttack3 => 40,
        PlayerAction::HeavyAttack => 70,
        PlayerAction::Uppercut => 60,
        PlayerAction::AerialAttack => 50,
        PlayerAction::DashStrike => 55,
        _ => 0,
    }
}

/// Base hitstun frames for an attack (0 for actions that are not attacks).
pub open spec fn spec_attack_hitstun(action: PlayerAction) -> i32 {
    match action {
        PlayerAction::LightAttack1 => 10,
        PlayerAction::LightAttack2 => 12,
        PlayerAction::LightAttack3 => 14,
        PlayerAction::HeavyAttack => 20,
        PlayerAction::Uppercut => 18,
        PlayerAction::AerialAttack => 15,
        PlayerAction::DashStrike => 16,
        _ => 0,
    }
}

/// First and last frame at which an attack's hitbox is out.
pub open spec fn spec_active_frames(action: PlayerAction) -> (i32, i32) {
    match action {
        PlayerAction::LightAttack1 => (3, 6),
        PlayerAction::LightAttack2 => (4, 8),
        PlayerAction::LightAttack3 => (5, 10),
        PlayerAction::HeavyAttack => (8, 14),
        PlayerAction::Uppercut => (5, 12),
        PlayerAction::AerialAttack => (4, 10),
        PlayerAction::DashStrike => (6, 12),
        _ => (0, 0),
    }
}

pub open spec fn spec_is_attack(action: PlayerAction) -> bool {
    match action {
        PlayerAction::LightAttack1 | PlayerAction::LightAttack2 | PlayerAction::LightAttack3
        | PlayerAction::HeavyAttack | PlayerAction::Uppercut | PlayerAction::AerialAttack
        | PlayerAction::DashStrike | PlayerAction::Fireball => true,
        _ => false,
    }
}

/// Energy spent by a special move.
pub open spec fn spec_special_energy_cost(action: PlayerAction) -> i32 {
    match action {
        PlayerAction::Fireball => SPECIAL_ENERGY_COST,
        PlayerAction::DashStrike => SPECIAL_ENERGY_COST,
        _ => 0,
    }
}

pub open spec fn spec_is_stunned(action: PlayerAction) -> bool {
    match action {
        PlayerAction::Hitstun { .. } | PlayerAction::Blockstun { .. }
        | PlayerAction::Knockdown { .. } | PlayerAction::Getup => true,
        _ => false,
    }
}

fn action_duration(action: &PlayerAction) -> (r: i32)
    ensures
        r == spec_action_duration(*action),
{
    match action {
        PlayerAction::LightAttack1 => 12,
        PlayerAction::LightAttack2 => 14,
        PlayerAction::LightAttack3 => 18,
        PlayerAction::HeavyAttack => 24,
        PlayerAction::Uppercut => 20,
        PlayerAction::AerialAttack => 16,
        PlayerAction::Fireball => 22,
        PlayerAction::DashStrike => 18,
        PlayerAction::Getup => 20,
        _ => 0,
    }
}

/// The full light chain L1-L2-L3 deals 85 damage.
pub proof fn law_light_chain_damage()
    ensures
        spec_attack_damage(PlayerAction::LightAttack1) + spec_attack_damage(
            PlayerAction::LightAttack2,
        ) + spec_attack_damage(PlayerAction::LightAttack3) == 85,
{
}

/// Damage dealt by an attack.
/// Tuned so full L1-L2-L3 chain = 85 dmg (20 + 25 + 40), rewarding full combos.
/// Heavy/specials deal more but are slower and riskier.
pub fn attack_damage(action: &PlayerAction) -> (r: i32)
    ensures
        r == spec_attack_damage(*action),
{
    match action {
        PlayerAction::LightAttack1 => 20,
        PlayerAction::LightAttack2 => 25,
        PlayerAction::LightAttack3 => 40,
        PlayerAction::HeavyAttack => 70,
        PlayerAction::Uppercut => 60,
        PlayerAction::AerialAttack => 50,
        PlayerAction::DashStrike => 55,
        _ => 0,
    }
}

/// Base hitstun frames for an attack.
pub fn attack_hitstun(action: &PlayerAction) -> (r: i32)
    ensures
        r == spec_attack_hitstun(*action),
{
    match action {
        PlayerAction::LightAttack1 => 10,
        PlayerAction::LightAttack2 => 12,
        PlayerAction::LightAttack3 => 14,
        PlayerAction::HeavyAttack => 20,
        PlayerAction::Uppercut => 18,
        PlayerAction::AerialAttack => 15,
        PlayerAction::DashStrike => 16,
        _ => 0,
    }
}

/// Active frames window: (start_frame, end_frame) where the hitbox is out.
fn active_frames(action: &PlayerAction) -> (r: (i32, i32))
    ensures
        r == spec_active_frames(*action),
{
    match action {
        PlayerAction::LightAttack1 => (3, 6),
        PlayerAction::LightAttack2 => (4, 8),
        PlayerAction::LightAttack3 => (5, 10),
        PlayerAction::HeavyAttack => (8, 14),
        PlayerAction::Uppercut => (5, 12),
        PlayerAction::AerialAttack => (4, 10),
        PlayerAction::DashStrike => (6, 12),
        _ => (0, 0),
    }
}

fn is_attack(action: &PlayerAction) -> (r: bool)
    ensures
        r == spec_is_attack(*action),
{
    match action {
        PlayerAction::LightAttack1 | PlayerAction::LightAttack2 | PlayerAction::LightAttack3
        | PlayerAction::HeavyAttack | PlayerAction::Uppercut | PlayerAction::AerialAttack
        | PlayerAction::DashStrike | PlayerAction::Fireball => true,
        _ => false,
    }
}

/// Energy cost for special moves — 30 energy limits spam to ~3 specials from full meter.
pub fn special_energy_cost(action: &PlayerAction) -> (r: i32)
    ensures
        r == spec_special_energy_cost(*action),
{
    match action {
        PlayerAction::Fireball => SPECIAL_ENERGY_COST,
        PlayerAction::DashStrike => SPECIAL_ENERGY_COST,
        _ => 0,
    }
}

fn is_stunned(action: &PlayerAction) -> (r: bool)
    ensures
        r == spec_is_stunned(*action),
{
    match action {
        PlayerAction::Hitstun { .. } | PlayerAction::Blockstun { .. }
        | PlayerAction::Knockdown { .. } | PlayerAction::Getup => true,
        _ => false,
    }
}

/// A fresh player standing on the ground at `x`, facing right.
pub open spec fn spec_new_player(x: FixedPoint, element: Element) -> PlayerState {
    PlayerState {
        x,
        y: FixedPoint(500000),
        vx: FixedPoint(0),
        vy: FixedPoint(0),
        facing: 1,
        health: MAX_HEALTH,
        energy: MAX_ENERGY,
        guard_meter: 100,
        action: PlayerAction::Idle,
        action_frame: 0,
        is_grounded: true,
        element,
    }
}

/// Turns the player toward the opponent; equal positions keep the facing.
pub open spec fn spec_face(p: PlayerState, opponent_x: FixedPoint) -> PlayerState {
    if opponent_x.0 > p.x.0 {
        PlayerState { facing: 1, ..p }
    } else if opponent_x.0 < p.x.0 {
        PlayerState { facing: -1i8, ..p }
    } else {
        p
    }
}

/// One frame of stun, knockdown or get-up recovery.
pub open spec fn spec_advance_stun(p: PlayerState) -> PlayerState {
    match p.action {
        PlayerAction::Hitstun { frames_remaining } => if frames_remaining - 1 <= 0 {
            PlayerState { action: PlayerAction::Idle, action_frame: 0, ..p }
        } else {
            PlayerState {
                action: PlayerAction::Hitstun { frames_remaining: (frames_remaining - 1) as i32 },
                ..p
            }
        },
        PlayerAction::Blockstun { frames_remaining } => if frames_remaining - 1 <= 0 {
            PlayerState { action: PlayerAction::Idle, action_frame: 0, ..p }
        } else {
            PlayerState {
                action: PlayerAction::Blockstun { frames_remaining: (frames_remaining - 1) as i32 },
                ..p
            }
        },
        PlayerAction::Knockdown { frames_remaining } => if frames_remaining - 1 <= 0 {
            PlayerState { action: PlayerAction::Getup, action_frame: 0, ..p }
        } else {
            PlayerState {
                action: PlayerAction::Knockdown { frames_remaining: (frames_remaining - 1) as i32 },
                ..p
            }
        },
        PlayerAction::Getup => if p.action_frame + 1 >= 20 {
            PlayerState { action: PlayerAction::Idle, action_frame: 0, ..p }
        } else {
            PlayerState { action_frame: (p.action_frame + 1) as i32, ..p }
        },
        _ => p,
    }
}

/// Velocity of a Dash Strike for a player facing `facing`.
pub open spec fn dash_velocity(facing: i8) -> int {
    PLAYER_SPEED * facing * DASH_STRIKE_SPEED_MULT
}

/// What a player chooses to do with a frame's input, once it is free to act
/// (not stunned and not in the middle of an attack).
pub open spec fn spec_choose_action(p: PlayerState, input: Input) -> PlayerState {
    if input.block() && p.is_grounded {
        PlayerState { action: PlayerAction::Block, action_frame: 0, vx: FixedPoint(0), ..p }
    } else if input.special() && p.is_grounded {
        let forward = (input.right() && p.facing > 0) || (input.left() && p.facing < 0);
        if input.down() && p.energy >= SPECIAL_ENERGY_COST {
            PlayerState {
                energy: (p.energy - SPECIAL_ENERGY_COST) as i32,
                action: PlayerAction::Fireball,
                action_frame: 0,
                vx: FixedPoint(0),
                ..p
            }
        } else if forward && p.energy >= SPECIAL_ENERGY_COST {
            PlayerState {
                energy: (p.energy - SPECIAL_ENERGY_COST) as i32,
                action: PlayerAction::DashStrike,
                action_frame: 0,
                vx: FixedPoint(dash_velocity(p.facing) as i32),
                ..p
            }
        } else {
            PlayerState {
                action: PlayerAction::Uppercut,
                action_frame: 0,
                vx: FixedPoint(0),
                ..p
            }
        }
    } else if input.light() && p.is_grounded {
        PlayerState { action: PlayerAction::LightAttack1, action_frame: 0, vx: FixedPoint(0), ..p }
    } else if input.heavy() && p.is_grounded {
        PlayerState { action: PlayerAction::HeavyAttack, action_frame: 0, vx: FixedPoint(0), ..p }
    } else if input.light() && !p.is_grounded {
        PlayerState { action: PlayerAction::AerialAttack, action_frame: 0, ..p }
    } else if input.up() && p.is_grounded {
        PlayerState {
            action: PlayerAction::Jump,
            action_frame: 0,
            vy: FixedPoint(JUMP_VELOCITY),
            is_grounded: false,
            ..p
        }
    } else if input.down() && p.is_grounded {
        PlayerState { action: PlayerAction::Crouch, action_frame: 0, vx: FixedPoint(0), ..p }
    } else {
        let move_dir: int = if input.right() {
            1
        } else if input.left() {
            -1
        } else {
            0
        };
        if move_dir != 0 && p.is_grounded {
            PlayerState {
                action: if move_dir == p.facing {
                    PlayerAction::WalkForward
                } else {
                    PlayerAction::WalkBack
                },
                vx: FixedPoint((PLAYER_SPEED * move_dir) as i32),
                ..p
            }
        } else if p.is_grounded {
            PlayerState { action: PlayerAction::Idle, action_frame: 0, vx: FixedPoint(0), ..p }
        } else {
            p
        }
    }
}

/// The effect of one frame's input on a player.
pub open spec fn spec_apply_input(p: PlayerState, input: Input, opponent_x: FixedPoint) -> PlayerState {
    if spec_is_stunned(p.action) {
        spec_advance_stun(p)
    } else if spec_is_attack(p.action) && p.action_frame < spec_action_duration(p.action) {
        PlayerState { action_frame: (p.action_frame + 1) as i32, ..p }
    } else {
        let free = if spec_is_attack(p.action) {
            PlayerState { action: PlayerAction::Idle, action_frame: 0, ..p }
        } else {
            p
        };
        spec_choose_action(spec_face(free, opponent_x), input)
    }
}

/// Applying an input cannot overflow: a stun counter can still count down
/// and a get-up frame counter can still count up.
pub open spec fn apply_input_req(p: PlayerState) -> bool {
    match p.action {
        PlayerAction::Hitstun { frames_remaining } => frames_remaining > i32::MIN,
        PlayerAction::Blockstun { frames_remaining } => frames_remaining > i32::MIN,
        PlayerAction::Knockdown { frames_remaining } => frames_remaining > i32::MIN,
        PlayerAction::Getup => p.action_frame < i32::MAX,
        _ => true,
    }
}

/// Horizontal velocity used by the physics step.
pub open spec fn physics_vx(p: PlayerState) -> int {
    if p.action == PlayerAction::DashStrike {
        if 6 <= p.action_frame <= 12 {
            dash_velocity(p.facing)
        } else {
            0
        }
    } else {
        p.vx.0 as int
    }
}

/// Vertical velocity used by the physics step (gravity applies in the air).
pub open spec fn physics_vy(p: PlayerState) -> int {
    if !p.is_grounded {
        p.vy.0 + GRAVITY
    } else {
        p.vy.0 as int
    }
}

/// The physics step cannot overflow.
pub open spec fn tick_physics_req(p: PlayerState) -> bool {
    &&& i32::MIN <= physics_vy(p) <= i32::MAX
    &&& i32::MIN <= p.x.0 + physics_vx(p) <= i32::MAX
    &&& i32::MIN <= p.y.0 + physics_vy(p) <= i32::MAX
}

/// One frame of movement: dash speed, gravity, landing and stage bounds.
pub open spec fn spec_tick_physics(p: PlayerState) -> PlayerState {
    let vx = physics_vx(p);
    let vy = physics_vy(p);
    let x = p.x.0 + vx;
    let y = p.y.0 + vy;
    let landed = y >= ground();
    let action = if landed && !p.is_grounded && (p.action == PlayerAction::Jump || p.action
        == PlayerAction::AerialAttack) {
        PlayerAction::Idle
    } else {
        p.action
    };
    let action_frame = if landed && !p.is_grounded && (p.action == PlayerAction::Jump || p.action
        == PlayerAction::AerialAttack) {
        0
    } else {
        p.action_frame
    };
    PlayerState {
        x: FixedPoint(
            if x < 0 {
                0
            } else if x > STAGE_WIDTH * 1000 {
                (STAGE_WIDTH * 1000) as i32
            } else {
                x as i32
            },
        ),
        y: FixedPoint(
            if landed {
                ground() as i32
            } else {
                y as i32
            },
        ),
        vx: FixedPoint(vx as i32),
        vy: FixedPoint(
            if landed {
                0
            } else {
                vy as i32
            },
        ),
        is_grounded: landed || p.is_grounded,
        action,
        action_frame,
        ..p
    }
}

/// One physics step: gravity (0.5 px/tick², only in the air) adds to the
/// vertical speed, the player moves by its speed, stays on the stage (the
/// point nearest to where it would be), and on reaching the ground stands
/// on it, grounded and no longer falling.
pub proof fn law_physics_step(p: PlayerState)
    requires
        tick_physics_req(p),
    ensures
        ({
            let q = spec_tick_physics(p);
            let x = p.x.0 + physics_vx(p);
            let y = p.y.0 + physics_vy(p);
            &&& physics_vy(p) == if p.is_grounded {
                p.vy.0 as int
            } else {
                p.vy.0 + 500
            }
            &&& 0 <= q.x.0 <= STAGE_WIDTH * 1000
            &&& 0 < q.x.0 < STAGE_WIDTH * 1000 ==> q.x.0 == x
            &&& q.x.0 == 0 ==> x <= 0
            &&& q.x.0 == STAGE_WIDTH * 1000 ==> x >= STAGE_WIDTH * 1000
            &&& y >= ground() ==> q.y.0 == ground() && q.vy.0 == 0 && q.is_grounded
            &&& y < ground() ==> q.y.0 == y && q.vy.0 == physics_vy(p) && q.is_grounded
                == p.is_grounded
            &&& q.health == p.health && q.energy == p.energy && q.facing == p.facing
        }),
{
}

/// The hurtboxes of a player: body and (unless crouching) head; none while knocked down.
pub open spec fn spec_hurtboxes(p: PlayerState) -> [Option<AABB>; 4] {
    if p.action is Knockdown {
        [None, None, None, None]
    } else {
        let body_h: int = if p.action == PlayerAction::Crouch {
            50000
        } else {
            90000
        };
        let body = AABB {
            x: FixedPoint((p.x.0 - 20000) as i32),
            y: FixedPoint((p.y.0 - body_h) as i32),
            w: FixedPoint(40000),
            h: FixedPoint(body_h as i32),
        };
        if p.action != PlayerAction::Crouch {
            let head = AABB {
                x: FixedPoint((p.x.0 - 12000) as i32),
                y: FixedPoint((p.y.0 - 100000) as i32),
                w: FixedPoint(24000),
                h: FixedPoint(20000),
            };
            [Some(body), Some(head), None, None]
        } else {
            [Some(body), None, None, None]
        }
    }
}

/// The hurtboxes can be computed without overflow.
pub open spec fn hurtbox_req(p: PlayerState) -> bool {
    !(p.action is Knockdown) ==> (p.x.0 - 20000 >= i32::MIN && p.y.0 - 100000 >= i32::MIN)
}

/// Offset and size (in pixels) of an attack's hitbox, relative to the player.
pub open spec fn spec_hitbox_shape(action: PlayerAction) -> (int, int, int, int) {
    match action {
        PlayerAction::LightAttack1 => (30, -60, 35, 20),
        PlayerAction::LightAttack2 => (25, -50, 40, 25),
        PlayerAction::LightAttack3 => (20, -45, 50, 30),
        PlayerAction::HeavyAttack => (25, -55, 55, 35),
        PlayerAction::Uppercut => (15, -80, 40, 50),
        PlayerAction::AerialAttack => (20, -40, 45, 35),
        PlayerAction::DashStrike => (20, -55, 60, 40),
        _ => (0, 0, 0, 0),
    }
}

/// An attack's hitbox is out on this frame (Fireball has no melee hitbox).
pub open spec fn hitbox_active(p: PlayerState) -> bool {
    &&& spec_is_attack(p.action)
    &&& p.action != PlayerAction::Fireball
    &&& spec_active_frames(p.action).0 <= p.action_frame <= spec_active_frames(p.action).1
}

/// The hitboxes of a player: one box in front of it while an attack is active.
pub open spec fn spec_hitboxes(p: PlayerState) -> [Option<AABB>; 4] {
    if !hitbox_active(p) {
        [None, None, None, None]
    } else {
        let (ox, oy, w, h) = spec_hitbox_shape(p.action);
        let hb_x: int = if p.facing > 0 {
            p.x.0 + ox * 1000
        } else {
            p.x.0 - (ox + w) * 1000
        };
        [
            Some(
                AABB {
                    x: FixedPoint(hb_x as i32),
                    y: FixedPoint((p.y.0 + oy * 1000) as i32),
                    w: FixedPoint((w * 1000) as i32),
                    h: FixedPoint((h * 1000) as i32),
                },
            ),
            None,
            None,
            None,
        ]
    }
}

/// The hitboxes can be computed without overflow.
pub open spec fn hitbox_req(p: PlayerState) -> bool {
    hitbox_active(p) ==> (i32::MIN + 80000 <= p.x.0 <= i32::MAX - 30000 && p.y.0 >= i32::MIN
        + 80000)
}

/// Blockstun for a blocked attack: a fraction of its hitstun, at least 4 frames.
pub open spec fn spec_blockstun(hitstun: i32) -> int {
    let b = div_toward_zero(hitstun * BLOCKSTUN_RATIO, 1000);
    if b > 4 {
        b
    } else {
        4
    }
}

/// Chip damage of a blocked hit: BLOCK_CHIP_PERCENT% of the attack's damage.
pub open spec fn spec_chip(damage: i32) -> int {
    div_toward_zero(damage * BLOCK_CHIP_PERCENT, 100)
}

/// The effect of being hit: a blocked hit costs only chip damage and brings
/// blockstun; otherwise the full damage lands, with knockdown for a heavy hit
/// on the ground and hitstun for the rest. Health stays at or above zero.
pub open spec fn spec_take_hit(p: PlayerState, damage: i32, hitstun: i32) -> PlayerState {
    if p.action == PlayerAction::Block {
        let h = p.health - spec_chip(damage);
        PlayerState {
            health: (if h < 0 {
                0
            } else if h > MAX_HEALTH {
                MAX_HEALTH as int
            } else {
                h
            }) as i32,
            guard_meter: (p.guard_meter - 10) as i32,
            action: PlayerAction::Blockstun { frames_remaining: spec_blockstun(hitstun) as i32 },
            action_frame: 0,
            vx: FixedPoint(0),
            ..p
        }
    } else {
        let h1: int = if p.health - damage < 0 {
            0
        } else {
            p.health - damage
        };
        if damage >= KNOCKDOWN_THRESHOLD && p.is_grounded {
            PlayerState {
                health: h1 as i32,
                action: PlayerAction::Knockdown { frames_remaining: KNOCKDOWN_FRAMES },
                action_frame: 0,
                vx: FixedPoint(0),
                ..p
            }
        } else {
            PlayerState {
                health: h1 as i32,
                action: PlayerAction::Hitstun { frames_remaining: hitstun },
                action_frame: 0,
                vx: FixedPoint(0),
                ..p
            }
        }
    }
}

/// An unblocked hit lowers health by its full damage, never below zero,
/// whether it knocks the player down or stuns it; a blocked hit lowers it by
/// the chip (BLOCK_CHIP_PERCENT% of the damage, rounded down) only. A heavy
/// unblocked hit on the ground knocks down, a lighter one stuns, a blocked
/// one brings blockstun. Position, energy and element are untouched.
pub proof fn law_hit_damage(p: PlayerState, damage: i32, hitstun: i32)
    requires
        0 <= damage <= 10000,
        0 <= p.health <= MAX_HEALTH,
        take_hit_req(p, damage),
    ensures
        ({
            let q = spec_take_hit(p, damage, hitstun);
            &&& p.action != PlayerAction::Block ==> q.health == if p.health >= damage {
                p.health - damage
            } else {
                0
            }
            &&& p.action == PlayerAction::Block ==> q.health == if p.health >= damage
                * BLOCK_CHIP_PERCENT / 100 {
                p.health - damage * BLOCK_CHIP_PERCENT / 100
            } else {
                0
            }
            &&& 0 <= q.health <= p.health
            &&& (q.action is Knockdown) == (p.action != PlayerAction::Block && damage
                >= KNOCKDOWN_THRESHOLD && p.is_grounded)
            &&& (q.action is Blockstun) == (p.action == PlayerAction::Block)
            &&& (q.action is Hitstun) == (p.action != PlayerAction::Block && !(damage
                >= KNOCKDOWN_THRESHOLD && p.is_grounded))
            &&& q.action is Knockdown ==> q.action == PlayerAction::Knockdown {
                frames_remaining: KNOCKDOWN_FRAMES,
            }
            &&& q.action is Hitstun ==> q.action == PlayerAction::Hitstun {
                frames_remaining: hitstun,
            }
            &&& q.action is Blockstun ==> q.action->Blockstun_frames_remaining >= 4
            &&& q.guard_meter == if p.action == PlayerAction::Block {
                p.guard_meter - 10
            } else {
                p.guard_meter as int
            }
            &&& q.action_frame == 0 && q.vx.0 == 0
            &&& q.x == p.x && q.y == p.y && q.vy == p.vy && q.energy == p.energy
            &&& q.element == p.element && q.facing == p.facing && q.is_grounded == p.is_grounded
        }),
{
}

/// Taking a hit cannot overflow.
pub open spec fn take_hit_req(p: PlayerState, damage: i32) -> bool {
    if p.action == PlayerAction::Block {
        &&& i32::MIN <= damage * BLOCK_CHIP_PERCENT <= i32::MAX
        &&& i32::MIN <= p.health - spec_chip(damage) <= i32::MAX
        &&& p.guard_meter - 10 >= i32::MIN
    } else {
        i32::MIN <= p.health - damage <= i32::MAX
    }
}

impl PlayerState {
    pub fn new(x: FixedPoint, element: Element) -> (r: Self)
        ensures
            r == spec_new_player(x, element),
    {
        PlayerState {
            x,
            y: FixedPoint(GROUND_Y * 1000),
            vx: FixedPoint(0),
            vy: FixedPoint(0),
            facing: 1,
            health: MAX_HEALTH,
            energy: MAX_ENERGY,
            guard_meter: 100,
            action: PlayerAction::Idle,
            action_frame: 0,
            is_grounded: true,
            element,
        }
    }

    pub fn apply_input(&mut self, input: Input, opponent_x: FixedPoint)
        requires
            apply_input_req(*old(self)),
        ensures
            *final(self) == spec_apply_input(*old(self), input, opponent_x),
    {
        // Can't act during stun/knockdown
        if is_stunned(&self.action) {
            self.advance_stun();
            return;
        }
        // If in the middle of an attack, let it finish
        if is_attack(&self.action) {
            let dur = action_duration(&self.action);
            if self.action_frame < dur {
                self.action_frame += 1;
                return;
            }
            // Attack finished
            self.action = PlayerAction::Idle;
            self.action_frame = 0;
        }
        self.auto_face_opponent(opponent_x);
        self.choose_action(input);
    }

    fn choose_action(&mut self, input: Input)
        ensures
            *final(self) == spec_choose_action(*old(self), input),
    {
        // Block
        if input.is_block() && self.is_grounded {
            self.action = PlayerAction::Block;
            self.action_frame = 0;
            self.vx = FixedPoint(0);
            return;
        }
        // Special move combinations (check before basic attacks)
        if input.is_special() && self.is_grounded {
            let forward = (input.is_right() && self.facing > 0) || (input.is_left() && self.facing
                < 0);
            if input.is_down() && self.energy >= special_energy_cost(&PlayerAction::Fireball) {
                // Down + Special = Fireball
                self.energy -= special_energy_cost(&PlayerAction::Fireball);
                self.action = PlayerAction::Fireball;
                self.action_frame = 0;
                self.vx = FixedPoint(0);
                return;
            } else if forward && self.energy >= special_energy_cost(&PlayerAction::DashStrike) {
                // Forward + Special = Dash Strike
                self.energy -= special_energy_cost(&PlayerAction::DashStrike);
                self.action = PlayerAction::DashStrike;
                self.action_frame = 0;
                self.vx = FixedPoint(PLAYER_SPEED * self.facing as i32 * DASH_STRIKE_SPEED_MULT);
                return;
            } else {
                // Special alone = Uppercut
                self.action = PlayerAction::Uppercut;
                self.action_frame = 0;
                self.vx = FixedPoint(0);
                return;
            }
        }
        // Attacks
        if input.is_light() && self.is_grounded {
            self.action = PlayerAction::LightAttack1;
            self.action_frame = 0;
            self.vx = FixedPoint(0);
            return;
        }
        if input.is_heavy() && self.is_grounded {
            self.action = PlayerAction::HeavyAttack;
            self.action_frame = 0;
            self.vx = FixedPoint(0);
            return;
        }
        if input.is_light() && !self.is_grounded {
            self.action = PlayerAction::AerialAttack;
            self.action_frame = 0;
            return;
        }
        // Jump
        if input.is_up() && self.is_grounded {
            self.action = PlayerAction::Jump;
            self.action_frame = 0;
            self.vy = FixedPoint(JUMP_VELOCITY);
            self.is_grounded = false;
            return;
        }
        // Crouch
        if input.is_down() && self.is_grounded {
            self.action = PlayerAction::Crouch;
            self.action_frame = 0;
            self.vx = FixedPoint(0);
            return;
        }
        // Movement
        let move_dir: i32 = if input.is_right() {
            1
        } else if input.is_left() {
            -1
        } else {
            0
        };
        if move_dir != 0 && self.is_grounded {
            let forward = move_dir == self.facing as i32;
            self.action = if forward {
                PlayerAction::WalkForward
            } else {
                PlayerAction::WalkBack
            };
            self.vx = FixedPoint(PLAYER_SPEED * move_dir);
        } else if self.is_grounded {
            self.action = PlayerAction::Idle;
            self.action_frame = 0;
            self.vx = FixedPoint(0);
        }
    }

    fn advance_stun(&mut self)
        requires
            apply_input_req(*old(self)),
        ensures
            *final(self) == spec_advance_stun(*old(self)),
    {
        match self.action {
            PlayerAction::Hitstun { frames_remaining } => {
                let f = frames_remaining - 1;
                if f <= 0 {
                    self.action = PlayerAction::Idle;
                    self.action_frame = 0;
                } else {
                    self.action = PlayerAction::Hitstun { frames_remaining: f };
                }
            },
            PlayerAction::Blockstun { frames_remaining } => {
                let f = frames_remaining - 1;
                if f <= 0 {
                    self.action = PlayerAction::Idle;
                    self.action_frame = 0;
                } else {
                    self.action = PlayerAction::Blockstun { frames_remaining: f };
                }
            },
            PlayerAction::Knockdown { frames_remaining } => {
                let f = frames_remaining - 1;
                if f <= 0 {
                    self.action = PlayerAction::Getup;
                    self.action_frame = 0;
                } else {
                    self.action = PlayerAction::Knockdown { frames_remaining: f };
                }
            },
            PlayerAction::Getup => {
                self.action_frame += 1;
                if self.action_frame >= action_duration(&PlayerAction::Getup) {
                    self.action = PlayerAction::Idle;
                    self.action_frame = 0;
                }
            },
            _ => {},
        }
    }

    pub fn tick_physics(&mut self)
        requires
            tick_physics_req(*old(self)),
        ensures
            *final(self) == spec_tick_physics(*old(self)),
    {
        // Dash strike forward movement during active frames
        if self.action == PlayerAction::DashStrike {
            let (start, end) = active_frames(&PlayerAction::DashStrike);
            if self.action_frame >= start && self.action_frame <= end {
                self.vx = FixedPoint(PLAYER_SPEED * self.facing as i32 * DASH_STRIKE_SPEED_MULT);
            } else {
                self.vx = FixedPoint(0);
            }
        }
        // Apply gravity if airborne
        if !self.is_grounded {
            self.vy = FixedPoint(self.vy.0 + GRAVITY);
        }
        // Update position
        self.x = FixedPoint(self.x.0 + self.vx.0);
        self.y = FixedPoint(self.y.0 + self.vy.0);
        // Ground collision
        let ground_y = GROUND_Y * 1000;
        if self.y.0 >= ground_y {
            self.y = FixedPoint(ground_y);
            self.vy = FixedPoint(0);
            if !self.is_grounded {
                self.is_grounded = true;
                if self.action == PlayerAction::Jump || self.action == PlayerAction::AerialAttack {
                    self.action = PlayerAction::Idle;
                    self.action_frame = 0;
                }
            }
        }
        // Stage bounds
        let max_x = STAGE_WIDTH * 1000;
        if self.x.0 < 0 {
            self.x = FixedPoint(0);
        }
        if self.x.0 > max_x {
            self.x = FixedPoint(max_x);
        }
    }

    pub fn get_hurtboxes(&self) -> (r: [Option<AABB>; 4])
        requires
            hurtbox_req(*self),
        ensures
            r == spec_hurtboxes(*self),
    {
        // Body hurtbox (always present unless knockdown)
        if let PlayerAction::Knockdown { .. } = self.action {
            return [None, None, None, None];
        }
        let body_w = FixedPoint(40000);
        let body_h = if self.action == PlayerAction::Crouch {
            FixedPoint(50000)
        } else {
            FixedPoint(90000)
        };
        let body_x = FixedPoint(self.x.0 - 20000);
        let body_y = FixedPoint(self.y.0 - body_h.0);
        let body = Some(AABB::new(body_x, body_y, body_w, body_h));
        // Head hurtbox (smaller, above body for standing)
        let head = if self.action != PlayerAction::Crouch {
            Some(
                AABB::new(
                    FixedPoint(self.x.0 - 12000),
                    FixedPoint(self.y.0 - 100000),
                    FixedPoint(24000),
                    FixedPoint(20000),
                ),
            )
        } else {
            None
        };
        [body, head, None, None]
    }

    pub fn get_hitboxes(&self) -> (r: [Option<AABB>; 4])
        requires
            hitbox_req(*self),
        ensures
            r == spec_hitboxes(*self),
    {
        if !is_attack(&self.action) {
            return [None, None, None, None];
        }
        let (start, end) = active_frames(&self.action);
        if self.action_frame < start || self.action_frame > end {
            return [None, None, None, None];
        }
        let facing = self.facing as i32;
        let (offset_x, offset_y, w, h): (i32, i32, i32, i32) = match self.action {
            PlayerAction::LightAttack1 => (30, -60, 35, 20),
            PlayerAction::LightAttack2 => (25, -50, 40, 25),
            PlayerAction::LightAttack3 => (20, -45, 50, 30),
            PlayerAction::HeavyAttack => (25, -55, 55, 35),
            PlayerAction::Uppercut => (15, -80, 40, 50),
            PlayerAction::AerialAttack => (20, -40, 45, 35),
            PlayerAction::DashStrike => (20, -55, 60, 40),
            _ => {
                return [None, None, None, None];
            },
        };
        let hb_x = if facing > 0 {
            FixedPoint(self.x.0 + offset_x * 1000)
        } else {
            FixedPoint(self.x.0 - (offset_x + w) * 1000)
        };
        let hitbox = Some(
            AABB::new(
                hb_x,
                FixedPoint(self.y.0 + offset_y * 1000),
                FixedPoint(w * 1000),
                FixedPoint(h * 1000),
            ),
        );
        [hitbox, None, None, None]
    }

    pub fn take_hit(&mut self, damage: i32, hitstun: i32, _element: Element)
        requires
            take_hit_req(*old(self), damage),
        ensures
            *final(self) == spec_take_hit(*old(self), damage, hitstun),
    {
        if self.action == PlayerAction::Block {
            // Chip damage: BLOCK_CHIP_PERCENT% of attack damage — blocking is safe but not free
            let chip = damage * BLOCK_CHIP_PERCENT / 100;
            assert(chip == spec_chip(damage));
            let h = self.health - chip;
            self.health = if h < 0 {
                0
            } else if h > MAX_HEALTH {
                MAX_HEALTH
            } else {
                h
            };
            self.guard_meter -= 10;
            // Blockstun: shorter than hitstun so defender can act sooner
            let scaled: i64 = hitstun as i64 * BLOCKSTUN_RATIO as i64 / 1000;
            assert(scaled == div_toward_zero(hitstun * BLOCKSTUN_RATIO, 1000));
            let blockstun = scaled as i32;
            self.action = PlayerAction::Blockstun {
                frames_remaining: if blockstun > 4 {
                    blockstun
                } else {
                    4
                },
            };
        } else {
            self.health -= damage;
            if self.health < 0 {
                self.health = 0;
            }
            if damage >= KNOCKDOWN_THRESHOLD && self.is_grounded {
                self.action = PlayerAction::Knockdown { frames_remaining: KNOCKDOWN_FRAMES };
            } else {
                self.action = PlayerAction::Hitstun { frames_remaining: hitstun };
            }
        }
        self.action_frame = 0;
        self.vx = FixedPoint(0);
    }

    pub fn auto_face_opponent(&mut self, opponent_x: FixedPoint)
        ensures
            *final(self) == spec_face(*old(self), opponent_x),
    {
        if opponent_x.0 > self.x.0 {
            self.facing = 1;
        } else if opponent_x.0 < self.x.0 {
            self.facing = -1;
        }
    }
}

} // verus!
