use vstd::prelude::*;

use crate::animation::{action_frame_count, get_frame_data, spec_action_frame_count, spec_frame_data};
use crate::collision::{check_hit, check_hit_req, spec_check_hit, to_world_req, Aabb, HitboxSet, CombatantInfo};
use crate::fixed_point::FixedPoint;
use crate::game_sim::fixed::div_toward_zero;
use crate::game_state::{spec_fresh_player, ActionState, GameState, PlayerState, RoundPhase};
use crate::input::{
    spec_pressed, InputFrame, BTN_CROUCH, BTN_HEAVY, BTN_JUMP, BTN_LEFT, BTN_LIGHT, BTN_RIGHT,
    BTN_SPECIAL,
};

verus! {

pub const STAGE_X_MIN: i32 = 0;
/// Right edge of the stage, fixed-point raw.
pub const STAGE_X_MAX: i32 = 1_280_000;
/// Fixed-point raw units per tick.
pub const GRAVITY: i32 = -600;
/// Fixed-point raw.
pub const WALK_SPEED: i32 = 3_000;
/// Fixed-point raw.
pub const JUMP_VEL: i32 = 12_000;
/// Hits in a combo that cause a (techable) knockdown.
pub const KNOCKDOWN_THRESHOLD: u8 = 7;

// ---------------------------------------------------------------------------
// The rules of one tick, as functions on values.

pub open spec fn spec_is_in_stun(p: PlayerState) -> bool {
    p.hitstun_frames > 0 || p.blockstun_frames > 0
}

pub open spec fn spec_is_in_attack(action: ActionState) -> bool {
    match action {
        ActionState::LightAttack | ActionState::HeavyAttack | ActionState::SpecialAttack
        | ActionState::CrouchLight | ActionState::CrouchHeavy | ActionState::AirLight
        | ActionState::AirHeavy => true,
        _ => false,
    }
}

/// The attack an input starts: aerial if airborne, crouching if down is
/// held, otherwise special > heavy > light.
pub open spec fn spec_attack_for(p: PlayerState, input: InputFrame) -> ActionState {
    let b = input.buttons;
    if p.is_airborne {
        if spec_pressed(b, BTN_SPECIAL) || spec_pressed(b, BTN_HEAVY) {
            ActionState::AirHeavy
        } else {
            ActionState::AirLight
        }
    } else if spec_pressed(b, BTN_CROUCH) {
        if spec_pressed(b, BTN_HEAVY) || spec_pressed(b, BTN_SPECIAL) {
            ActionState::CrouchHeavy
        } else {
            ActionState::CrouchLight
        }
    } else if spec_pressed(b, BTN_SPECIAL) {
        ActionState::SpecialAttack
    } else if spec_pressed(b, BTN_HEAVY) {
        ActionState::HeavyAttack
    } else {
        ActionState::LightAttack
    }
}

pub open spec fn spec_start_attack(p: PlayerState, input: InputFrame) -> PlayerState {
    PlayerState {
        action: spec_attack_for(p, input),
        action_frame: 0,
        vel_x: FixedPoint(0),
        hit_this_frame: false,
        ..p
    }
}

/// The hit flag at the start of a tick: it stays set only while the player
/// is still in the attack that landed, so an attack connects at most once.
pub open spec fn spec_carry_hit_flag(p: PlayerState) -> PlayerState {
    PlayerState { hit_this_frame: p.hit_this_frame && spec_is_in_attack(p.action), ..p }
}

/// What a player does with a frame's input.
pub open spec fn spec_process_input(p: PlayerState, input: InputFrame) -> PlayerState {
    let b = input.buttons;
    if spec_is_in_stun(p) || p.action == ActionState::Knockdown || p.action == ActionState::Getup {
        p
    } else if spec_is_in_attack(p.action) {
        // Cancel window: a cancellable frame that hit allows a different attack.
        if spec_frame_data(p.action, p.action_frame).is_cancellable && p.hit_this_frame && ((
        spec_pressed(b, BTN_HEAVY) && p.action != ActionState::HeavyAttack) || (spec_pressed(
            b,
            BTN_SPECIAL,
        ) && p.action != ActionState::SpecialAttack)) {
            spec_start_attack(p, input)
        } else {
            p
        }
    } else if spec_pressed(b, BTN_SPECIAL) || spec_pressed(b, BTN_HEAVY) || spec_pressed(
        b,
        BTN_LIGHT,
    ) {
        spec_start_attack(p, input)
    } else if spec_pressed(b, BTN_JUMP) && !p.is_airborne {
        PlayerState {
            action: ActionState::Jump,
            action_frame: 0,
            vel_y: FixedPoint(JUMP_VEL),
            is_airborne: true,
            vel_x: if spec_pressed(b, BTN_LEFT) {
                FixedPoint((-WALK_SPEED) as i32)
            } else if spec_pressed(b, BTN_RIGHT) {
                FixedPoint(WALK_SPEED)
            } else {
                p.vel_x
            },
            ..p
        }
    } else if spec_pressed(b, BTN_CROUCH) && !p.is_airborne {
        PlayerState { action: ActionState::Crouch, action_frame: 0, vel_x: FixedPoint(0), ..p }
    } else if p.is_airborne {
        p
    } else if spec_pressed(b, BTN_LEFT) {
        PlayerState {
            vel_x: FixedPoint((-WALK_SPEED) as i32),
            action: if p.facing == -1 {
                ActionState::WalkForward
            } else {
                ActionState::WalkBackward
            },
            action_frame: 0,
            ..p
        }
    } else if spec_pressed(b, BTN_RIGHT) {
        PlayerState {
            vel_x: FixedPoint(WALK_SPEED),
            action: if p.facing == 1 {
                ActionState::WalkForward
            } else {
                ActionState::WalkBackward
            },
            action_frame: 0,
            ..p
        }
    } else if p.action != ActionState::Idle {
        PlayerState { vel_x: FixedPoint(0), action: ActionState::Idle, action_frame: 0, ..p }
    } else {
        PlayerState { vel_x: FixedPoint(0), ..p }
    }
}

pub open spec fn spec_apply_gravity(p: PlayerState) -> PlayerState {
    if p.is_airborne {
        PlayerState { vel_y: FixedPoint((p.vel_y.0 + GRAVITY) as i32), ..p }
    } else {
        p
    }
}

pub open spec fn apply_gravity_req(p: PlayerState) -> bool {
    p.is_airborne ==> p.vel_y.0 + GRAVITY >= i32::MIN
}

/// Moves by the velocity, clamped to the stage; landing on the floor ends
/// jumps and aerial attacks.
pub open spec fn spec_update_position(p: PlayerState) -> PlayerState {
    let x = p.pos_x.0 + p.vel_x.0;
    let y = p.pos_y.0 + p.vel_y.0;
    let cx = if x < STAGE_X_MIN {
        STAGE_X_MIN as int
    } else if x > STAGE_X_MAX {
        STAGE_X_MAX as int
    } else {
        x
    };
    if y <= 0 {
        let lands = p.is_airborne && (p.action == ActionState::Jump || p.action
            == ActionState::AirLight || p.action == ActionState::AirHeavy);
        PlayerState {
            pos_x: FixedPoint(cx as i32),
            pos_y: FixedPoint(0),
            vel_y: FixedPoint(0),
            is_airborne: false,
            action: if lands {
                ActionState::Idle
            } else {
                p.action
            },
            action_frame: if lands {
                0
            } else {
                p.action_frame
            },
            ..p
        }
    } else {
        PlayerState { pos_x: FixedPoint(cx as i32), pos_y: FixedPoint(y as i32), ..p }
    }
}

pub open spec fn update_position_req(p: PlayerState) -> bool {
    &&& i32::MIN <= p.pos_x.0 + p.vel_x.0 <= i32::MAX
    &&& i32::MIN <= p.pos_y.0 + p.vel_y.0 <= i32::MAX
}

/// Attacks, knockdown and get-up end when their frames run out.
pub open spec fn spec_handle_action_completion(p: PlayerState) -> PlayerState {
    let done = p.action_frame >= spec_action_frame_count(p.action);
    match p.action {
        ActionState::Idle | ActionState::WalkForward | ActionState::WalkBackward
        | ActionState::Crouch | ActionState::Hitstun | ActionState::Blockstun
        | ActionState::Jump => p,
        ActionState::Knockdown => if done {
            PlayerState { action: ActionState::Getup, action_frame: 0, ..p }
        } else {
            p
        },
        _ => if done {
            PlayerState { action: ActionState::Idle, action_frame: 0, ..p }
        } else {
            p
        },
    }
}

/// Frame counters advance; stun counters run down.
pub open spec fn spec_advance_frames(p: PlayerState) -> PlayerState {
    PlayerState { action_frame: p.action_frame.saturating_add(1), ..p }
}

pub open spec fn spec_decrement_stun(p: PlayerState) -> PlayerState {
    PlayerState {
        hitstun_frames: p.hitstun_frames.saturating_sub(1),
        blockstun_frames: p.blockstun_frames.saturating_sub(1),
        ..p
    }
}

/// Damage after combo scaling: damage * scale_percent / 100.
pub open spec fn spec_combo_scaling(base_damage: i32, scale_percent: u8) -> int {
    div_toward_zero(base_damage * scale_percent, 100)
}

/// Gravity pulls an airborne player down by 0.6 px/tick each tick and
/// leaves a grounded one alone; movement then puts the player at the point
/// of the stage nearest to where its velocity takes it, and a player that
/// reaches or passes the floor stands on it, no longer airborne or falling.
pub proof fn law_fall_and_move(p: PlayerState)
    requires
        apply_gravity_req(p),
        update_position_req(spec_apply_gravity(p)),
    ensures
        ({
            let g = spec_apply_gravity(p);
            let q = spec_update_position(g);
            let x = g.pos_x.0 + g.vel_x.0;
            let y = g.pos_y.0 + g.vel_y.0;
            &&& g.vel_y.0 == if p.is_airborne {
                p.vel_y.0 - 600
            } else {
                p.vel_y.0 as int
            }
            &&& STAGE_X_MIN <= q.pos_x.0 <= STAGE_X_MAX
            &&& STAGE_X_MIN < q.pos_x.0 < STAGE_X_MAX ==> q.pos_x.0 == x
            &&& q.pos_x.0 == STAGE_X_MIN ==> x <= STAGE_X_MIN
            &&& q.pos_x.0 == STAGE_X_MAX ==> x >= STAGE_X_MAX
            &&& y > 0 ==> q.pos_y.0 == y && q.is_airborne == p.is_airborne && q.vel_y == g.vel_y
            &&& y <= 0 ==> q.pos_y.0 == 0 && !q.is_airborne && q.vel_y.0 == 0
            &&& q.vel_x == p.vel_x && q.health == p.health && q.facing == p.facing
        }),
{
}

/// A free player on the ground (not stunned, knocked down, getting up or
/// attacking): an attack button starts an attack and stops it; otherwise
/// jump leaves the ground upward at 12 px/tick; a stunned player ignores its
/// input.
pub proof fn law_free_player_input(p: PlayerState, input: InputFrame)
    ensures
        ({
            let q = spec_process_input(p, input);
            let b = input.buttons;
            let free = !spec_is_in_stun(p) && p.action != ActionState::Knockdown && p.action
                != ActionState::Getup && !spec_is_in_attack(p.action);
            let attack = spec_pressed(b, BTN_SPECIAL) || spec_pressed(b, BTN_HEAVY)
                || spec_pressed(b, BTN_LIGHT);
            &&& spec_is_in_stun(p) ==> q == p
            &&& free && attack ==> spec_is_in_attack(q.action) && q.action_frame == 0
                && q.vel_x.0 == 0
            &&& free && !attack && spec_pressed(b, BTN_JUMP) && !p.is_airborne ==> {
                &&& q.action == ActionState::Jump
                &&& q.is_airborne
                &&& q.vel_y.0 == JUMP_VEL
            }
            &&& q.pos_x == p.pos_x && q.pos_y == p.pos_y && q.health == p.health
        }),
{
}

/// Combo scaling keeps the given percentage of the damage, rounded down:
/// full damage at 100%, never more than the damage nor below zero, and more
/// scale never gives less damage.
pub proof fn law_combo_scaling(damage: i32, scale: u8, other_scale: u8)
    requires
        0 <= damage <= 100000,
        scale <= 100,
        scale <= other_scale,
    ensures
        spec_combo_scaling(damage, scale) * 100 <= damage * scale < (spec_combo_scaling(
            damage,
            scale,
        ) + 1) * 100,
        scale == 100 ==> spec_combo_scaling(damage, scale) == damage,
        0 <= spec_combo_scaling(damage, scale) <= damage,
        spec_combo_scaling(damage, scale) <= spec_combo_scaling(damage, other_scale),
{
    assert(0 <= damage * scale <= damage * 100) by (nonlinear_arith)
        requires
            0 <= damage,
            scale <= 100,
    ;
    assert(damage * scale <= damage * other_scale) by (nonlinear_arith)
        requires
            0 <= damage,
            scale <= other_scale,
    ;
    assert(damage * other_scale >= 0) by (nonlinear_arith)
        requires
            0 <= damage,
            0 <= other_scale,
    ;
    let a = damage * scale;
    let b = damage * other_scale;
    assert(a / 100 <= b / 100) by (nonlinear_arith)
        requires
            0 <= a <= b,
    ;
}

/// Hitstun after combo scaling is the given percentage of the base hitstun,
/// rounded down, but never under 3 frames; within 100% it never exceeds the
/// base (or 3).
pub proof fn law_hitstun_scaling(base: u8, scale: u8)
    requires
        scale <= 100,
    ensures
        spec_hitstun_scaling(base, scale) >= 3,
        spec_hitstun_scaling(base, scale) > 3 ==> spec_hitstun_scaling(base, scale) * 100
            <= base * scale < (spec_hitstun_scaling(base, scale) + 1) * 100,
        base * scale >= 400 ==> spec_hitstun_scaling(base, scale) * 100 <= base * scale,
        spec_hitstun_scaling(base, scale) <= if base > 3 {
            base as int
        } else {
            3
        },
{
    assert(0 <= base * scale <= base * 100) by (nonlinear_arith)
        requires
            scale <= 100,
    ;
}

/// Hitstun after combo scaling: hitstun * scale_percent / 100, at least 3 frames.
pub open spec fn spec_hitstun_scaling(base_hitstun: u8, scale_percent: u8) -> u8 {
    let scaled = (base_hitstun * scale_percent) / 100;
    (if scaled > 3 {
        scaled
    } else {
        3
    }) as u8
}

pub open spec fn info(p: PlayerState) -> CombatantInfo {
    CombatantInfo { pos: p.pos_x, pos_y: p.pos_y, facing: p.facing }
}

/// Whether the attacker's active hitbox touches the defender this frame.
pub open spec fn attack_connects(att: PlayerState, def: PlayerState) -> bool {
    let afd = spec_frame_data(att.action, att.action_frame);
    let dfd = spec_frame_data(def.action, def.action_frame);
    &&& spec_is_in_attack(att.action)
    &&& afd.boxes.hitbox_count != 0
    &&& spec_check_hit(afd.boxes, info(att), dfd.boxes, info(def))
}

/// A defender blocks when it is already in blockstun or walking backward.
pub open spec fn is_blocking(def: PlayerState) -> bool {
    def.action == ActionState::Blockstun || def.action == ActionState::WalkBackward
}

/// The outcome of one attacker's attack on one defender: attacker, defender,
/// combo counter and hitstun scale (percent) afterwards.
pub open spec fn spec_combat(att: PlayerState, def: PlayerState, combo: u8, scale: u8) -> (
    PlayerState,
    PlayerState,
    u8,
    u8,
) {
    let afd = spec_frame_data(att.action, att.action_frame);
    if !attack_connects(att, def) || att.hit_this_frame || def.hit_this_frame {
        (att, def, combo, scale)
    } else if is_blocking(def) {
        let d = PlayerState {
            blockstun_frames: afd.blockstun,
            action: ActionState::Blockstun,
            action_frame: 0,
            guard_meter: (def.guard_meter - afd.guard_damage) as i32,
            vel_x: FixedPoint((div_toward_zero(afd.knockback_x.0 as int, 2) * att.facing) as i32),
            ..def
        };
        (PlayerState { hit_this_frame: true, ..att }, d, combo, scale)
    } else {
        let new_combo = combo.saturating_add(1);
        let knocked_down = new_combo >= KNOCKDOWN_THRESHOLD;
        let d = PlayerState {
            health: (def.health - spec_combo_scaling(afd.damage, scale)) as i32,
            hitstun_frames: if knocked_down {
                0
            } else {
                spec_hitstun_scaling(afd.hitstun, scale)
            },
            action: if knocked_down {
                ActionState::Knockdown
            } else {
                ActionState::Hitstun
            },
            action_frame: 0,
            vel_x: FixedPoint((afd.knockback_x.0 * att.facing) as i32),
            vel_y: afd.knockback_y,
            is_airborne: if afd.knockback_y.0 > 0 {
                true
            } else {
                def.is_airborne
            },
            hit_this_frame: true,
            juggle_count: if knocked_down {
                0
            } else {
                def.juggle_count
            },
            ..def
        };
        let a = PlayerState {
            energy: (if att.energy + afd.energy_gain < 100 {
                att.energy + afd.energy_gain
            } else {
                100
            }) as i32,
            hit_this_frame: true,
            ..att
        };
        let reduced = scale.saturating_sub(15);
        let new_scale: u8 = if reduced > 20 {
            reduced
        } else {
            20
        };
        if knocked_down {
            (a, d, 0, 100)
        } else {
            (a, d, new_combo, new_scale)
        }
    }
}

/// The attack can be resolved without overflow.
pub open spec fn combat_req(att: PlayerState, def: PlayerState, scale: u8) -> bool {
    let afd = spec_frame_data(att.action, att.action_frame);
    let dfd = spec_frame_data(def.action, def.action_frame);
    &&& (spec_is_in_attack(att.action) && afd.boxes.hitbox_count != 0) ==> check_hit_req(
        afd.boxes,
        info(att),
        dfd.boxes,
        info(def),
    )
    &&& (attack_connects(att, def) && !att.hit_this_frame && !def.hit_this_frame) ==> {
        &&& is_blocking(def) ==> def.guard_meter - afd.guard_damage >= i32::MIN
        &&& !is_blocking(def) ==> {
            &&& def.health - spec_combo_scaling(afd.damage, scale) >= i32::MIN
            &&& att.energy + afd.energy_gain <= i32::MAX
        }
    }
}

/// Player 1 (or player 2) attacks the other.
pub open spec fn spec_resolve_combat(s: GameState, p1_is_attacker: bool) -> GameState {
    if p1_is_attacker {
        let (a, d, c, sc) = spec_combat(s.p1, s.p2, s.combo_hit_count, s.hitstun_scale_num);
        GameState { p1: a, p2: d, combo_hit_count: c, hitstun_scale_num: sc, ..s }
    } else {
        let (a, d, c, sc) = spec_combat(s.p2, s.p1, s.combo_hit_count, s.hitstun_scale_num);
        GameState { p2: a, p1: d, combo_hit_count: c, hitstun_scale_num: sc, ..s }
    }
}

pub open spec fn resolve_combat_req(s: GameState, p1_is_attacker: bool) -> bool {
    if p1_is_attacker {
        combat_req(s.p1, s.p2, s.hitstun_scale_num)
    } else {
        combat_req(s.p2, s.p1, s.hitstun_scale_num)
    }
}

/// A player in hitstun or blockstun whose counter ran out is free again;
/// the end of hitstun also ends the combo.
pub open spec fn spec_leave_stun(s: GameState) -> GameState {
    let p1_free = s.p1.action == ActionState::Hitstun && s.p1.hitstun_frames == 0;
    let p1_unblock = s.p1.action == ActionState::Blockstun && s.p1.blockstun_frames == 0;
    let s1 = if p1_free {
        GameState {
            p1: PlayerState { action: ActionState::Idle, action_frame: 0, ..s.p1 },
            combo_hit_count: 0,
            hitstun_scale_num: if s.combo_hit_count > 0 {
                100
            } else {
                s.hitstun_scale_num
            },
            ..s
        }
    } else if p1_unblock {
        GameState { p1: PlayerState { action: ActionState::Idle, action_frame: 0, ..s.p1 }, ..s }
    } else {
        s
    };
    let p2_free = s1.p2.action == ActionState::Hitstun && s1.p2.hitstun_frames == 0;
    let p2_unblock = s1.p2.action == ActionState::Blockstun && s1.p2.blockstun_frames == 0;
    if p2_free {
        GameState {
            p2: PlayerState { action: ActionState::Idle, action_frame: 0, ..s1.p2 },
            combo_hit_count: 0,
            hitstun_scale_num: if s1.combo_hit_count > 0 {
                100
            } else {
                s1.hitstun_scale_num
            },
            ..s1
        }
    } else if p2_unblock {
        GameState { p2: PlayerState { action: ActionState::Idle, action_frame: 0, ..s1.p2 }, ..s1 }
    } else {
        s1
    }
}

/// Each player turns toward the other; equal positions keep the facings.
pub open spec fn spec_auto_face(s: GameState) -> GameState {
    if s.p1.pos_x.0 < s.p2.pos_x.0 {
        GameState {
            p1: PlayerState { facing: 1i8, ..s.p1 },
            p2: PlayerState { facing: -1i8, ..s.p2 },
            ..s
        }
    } else if s.p1.pos_x.0 > s.p2.pos_x.0 {
        GameState {
            p1: PlayerState { facing: -1i8, ..s.p1 },
            p2: PlayerState { facing: 1i8, ..s.p2 },
            ..s
        }
    } else {
        s
    }
}

/// A knock-out (health or guard at zero) gives the round to the other player;
/// two rounds win the match.
pub open spec fn spec_check_win(s: GameState) -> GameState {
    let s1 = if s.p1.health <= 0 || s.p1.guard_meter <= 0 {
        GameState {
            round_phase: RoundPhase::KO,
            p2_rounds_won: (s.p2_rounds_won + 1) as u8,
            ..s
        }
    } else if s.p2.health <= 0 || s.p2.guard_meter <= 0 {
        GameState {
            round_phase: RoundPhase::KO,
            p1_rounds_won: (s.p1_rounds_won + 1) as u8,
            ..s
        }
    } else {
        s
    };
    if s1.round_phase == RoundPhase::KO && (s1.p1_rounds_won >= 2 || s1.p2_rounds_won >= 2) {
        GameState { round_phase: RoundPhase::MatchEnd, ..s1 }
    } else {
        s1
    }
}

pub open spec fn check_win_req(s: GameState) -> bool {
    &&& (s.p1.health <= 0 || s.p1.guard_meter <= 0) ==> s.p2_rounds_won < 255
    &&& !(s.p1.health <= 0 || s.p1.guard_meter <= 0) && (s.p2.health <= 0 || s.p2.guard_meter
        <= 0) ==> s.p1_rounds_won < 255
}

/// Time ran out: more health wins the round, a tie gives both a round.
pub open spec fn spec_handle_timeout(s: GameState) -> GameState {
    let (w1, w2) = if s.p1.health > s.p2.health {
        (s.p1_rounds_won + 1, s.p2_rounds_won as int)
    } else if s.p2.health > s.p1.health {
        (s.p1_rounds_won as int, s.p2_rounds_won + 1)
    } else {
        (s.p1_rounds_won + 1, s.p2_rounds_won + 1)
    };
    GameState {
        p1_rounds_won: w1 as u8,
        p2_rounds_won: w2 as u8,
        round_phase: if w1 >= 2 || w2 >= 2 {
            RoundPhase::MatchEnd
        } else {
            RoundPhase::RoundEnd
        },
        frame_number: (s.frame_number + 1) as u64,
        ..s
    }
}

pub open spec fn handle_timeout_req(s: GameState) -> bool {
    s.p1_rounds_won < 255 && s.p2_rounds_won < 255 && s.frame_number < u64::MAX
}

/// Outside of fighting: the intro starts the fight, a finished round starts
/// the next one, a finished match stays finished.
pub open spec fn spec_handle_non_fighting(s: GameState) -> GameState {
    let s1 = match s.round_phase {
        RoundPhase::Intro => GameState { round_phase: RoundPhase::Fighting, ..s },
        RoundPhase::KO | RoundPhase::RoundEnd => GameState {
            round_number: (s.round_number + 1) as u8,
            p1: spec_fresh_player(300000, 1i8),
            p2: spec_fresh_player(980000, -1i8),
            combo_hit_count: 0,
            hitstun_scale_num: 100,
            timer_frames: GameState::TIMER_INITIAL,
            round_phase: RoundPhase::Fighting,
            ..s
        },
        _ => s,
    };
    GameState { frame_number: (s1.frame_number + 1) as u64, ..s1 }
}

pub open spec fn handle_non_fighting_req(s: GameState) -> bool {
    &&& s.frame_number < u64::MAX
    &&& (s.round_phase == RoundPhase::KO || s.round_phase == RoundPhase::RoundEnd)
        ==> s.round_number < 255
}

/// The state after the timer ticked (fighting phase).
pub open spec fn after_timer(s: GameState) -> GameState {
    GameState {
        timer_frames: if s.timer_frames > 0 {
            (s.timer_frames - 1) as u32
        } else {
            0
        },
        ..s
    }
}

/// Steps 2 to 9 of a fighting tick: inputs, gravity, movement, facing,
/// frame counters, action completion and stun counters.
pub open spec fn spec_move_players(s: GameState, p1_input: InputFrame, p2_input: InputFrame) -> GameState {
    let p1a = spec_apply_gravity(
        spec_process_input(spec_carry_hit_flag(s.p1), p1_input),
    );
    let p2a = spec_apply_gravity(
        spec_process_input(spec_carry_hit_flag(s.p2), p2_input),
    );
    let s1 = spec_auto_face(
        GameState { p1: spec_update_position(p1a), p2: spec_update_position(p2a), ..s },
    );
    GameState {
        p1: spec_decrement_stun(spec_handle_action_completion(spec_advance_frames(s1.p1))),
        p2: spec_decrement_stun(spec_handle_action_completion(spec_advance_frames(s1.p2))),
        ..s1
    }
}

pub open spec fn move_players_req(s: GameState, p1_input: InputFrame, p2_input: InputFrame) -> bool {
    let p1a = spec_process_input(spec_carry_hit_flag(s.p1), p1_input);
    let p2a = spec_process_input(spec_carry_hit_flag(s.p2), p2_input);
    &&& apply_gravity_req(p1a)
    &&& apply_gravity_req(p2a)
    &&& update_position_req(spec_apply_gravity(p1a))
    &&& update_position_req(spec_apply_gravity(p2a))
}

/// One tick of fighting after the timer ran (and did not run out).
pub open spec fn spec_fight(s: GameState, p1_input: InputFrame, p2_input: InputFrame) -> GameState {
    let s1 = spec_leave_stun(spec_move_players(s, p1_input, p2_input));
    let s2 = spec_resolve_combat(spec_resolve_combat(s1, true), false);
    let s3 = spec_check_win(s2);
    GameState { frame_number: (s3.frame_number + 1) as u64, ..s3 }
}

pub open spec fn fight_req(s: GameState, p1_input: InputFrame, p2_input: InputFrame) -> bool {
    let s1 = spec_leave_stun(spec_move_players(s, p1_input, p2_input));
    let s2 = spec_resolve_combat(spec_resolve_combat(s1, true), false);
    &&& move_players_req(s, p1_input, p2_input)
    &&& resolve_combat_req(s1, true)
    &&& resolve_combat_req(spec_resolve_combat(s1, true), false)
    &&& check_win_req(s2)
    &&& s.frame_number < u64::MAX
}

/// The game advanced by one tick.
pub open spec fn spec_tick(s: GameState, p1_input: InputFrame, p2_input: InputFrame) -> GameState {
    if s.round_phase != RoundPhase::Fighting {
        spec_handle_non_fighting(s)
    } else if after_timer(s).timer_frames == 0 {
        spec_handle_timeout(after_timer(s))
    } else {
        spec_fight(after_timer(s), p1_input, p2_input)
    }
}

/// A tick cannot overflow.
pub open spec fn tick_req(s: GameState, p1_input: InputFrame, p2_input: InputFrame) -> bool {
    if s.round_phase != RoundPhase::Fighting {
        handle_non_fighting_req(s)
    } else if after_timer(s).timer_frames == 0 {
        handle_timeout_req(after_timer(s))
    } else {
        fight_req(after_timer(s), p1_input, p2_input)
    }
}

// ---------------------------------------------------------------------------
// The implementation.

/// Pure function: advance game state by one tick.
pub fn tick(state: &GameState, p1_input: InputFrame, p2_input: InputFrame) -> (r: GameState)
    requires
        tick_req(*state, p1_input, p2_input),
    ensures
        r == spec_tick(*state, p1_input, p2_input),
{
    let mut s = *state;

    // Step 0: Non-fighting phases
    if s.round_phase != RoundPhase::Fighting {
        return handle_non_fighting(&mut s);
    }
    // Step 1: Timer
    if s.timer_frames > 0 {
        s.timer_frames -= 1;
    }
    if s.timer_frames == 0 {
        return handle_timeout(s);
    }
    fight(s, p1_input, p2_input)
}

/// Steps 2 to 14 of a fighting tick whose timer did not run out.
fn fight(s: GameState, p1_input: InputFrame, p2_input: InputFrame) -> (r: GameState)
    requires
        fight_req(s, p1_input, p2_input),
    ensures
        r == spec_fight(s, p1_input, p2_input),
{
    let mut s = move_players(s, p1_input, p2_input);
    leave_stun(&mut s);

    // Step 10-12: Collision detection and hit/block resolution
    resolve_combat(&mut s, true);  // p1 attacks p2
    resolve_combat(&mut s, false);  // p2 attacks p1

    // Step 13: Check win conditions
    check_win(&mut s);
    // Step 14: Increment frame
    s.frame_number += 1;
    s
}

/// Steps 2 to 9: inputs, gravity, movement, facing, frame counters.
fn move_players(s: GameState, p1_input: InputFrame, p2_input: InputFrame) -> (r: GameState)
    requires
        move_players_req(s, p1_input, p2_input),
    ensures
        r == spec_move_players(s, p1_input, p2_input),
{
    let mut s = s;
    // Steps 2-5: inputs, gravity, movement
    act_and_move(&mut s.p1, &p1_input);
    act_and_move(&mut s.p2, &p2_input);

    // Step 6: Auto-facing
    if s.p1.pos_x.0 < s.p2.pos_x.0 {
        s.p1.facing = 1;
        s.p2.facing = -1;
    } else if s.p1.pos_x.0 > s.p2.pos_x.0 {
        s.p1.facing = -1;
        s.p2.facing = 1;
    }
    // Steps 7-9: frame counters, action completion, stun counters
    advance_counters(&mut s.p1);
    advance_counters(&mut s.p2);
    s
}

/// Clears the hit flag, reads the input, applies gravity and moves.
fn act_and_move(p: &mut PlayerState, input: &InputFrame)
    requires
        apply_gravity_req(spec_process_input(spec_carry_hit_flag(*old(p)), *input)),
        update_position_req(
            spec_apply_gravity(spec_process_input(spec_carry_hit_flag(*old(p)), *input)),
        ),
    ensures
        *final(p) == spec_update_position(
            spec_apply_gravity(spec_process_input(spec_carry_hit_flag(*old(p)), *input)),
        ),
{
    // An attack that landed keeps its flag until it ends: it hits only once
    p.hit_this_frame = p.hit_this_frame && is_in_attack(p.action);
    process_player_input(p, input);
    apply_gravity(p);
    update_position(p);
}

/// Advances the action frame, completes finished actions and runs down stun.
fn advance_counters(p: &mut PlayerState)
    ensures
        *final(p) == spec_decrement_stun(spec_handle_action_completion(spec_advance_frames(*old(p)))),
{
    p.action_frame = p.action_frame.saturating_add(1);
    handle_action_completion(p);
    p.hitstun_frames = p.hitstun_frames.saturating_sub(1);
    p.blockstun_frames = p.blockstun_frames.saturating_sub(1);
}

/// Transition out of stun states when frames reach 0.
fn leave_stun(s: &mut GameState)
    ensures
        *final(s) == spec_leave_stun(*old(s)),
{
    if s.p1.action == ActionState::Hitstun && s.p1.hitstun_frames == 0 {
        s.p1.action = ActionState::Idle;
        s.p1.action_frame = 0;
        // Reset combo when hitstun ends
        if s.combo_hit_count > 0 {
            s.combo_hit_count = 0;
            s.hitstun_scale_num = 100;
        }
    } else if s.p1.action == ActionState::Blockstun && s.p1.blockstun_frames == 0 {
        s.p1.action = ActionState::Idle;
        s.p1.action_frame = 0;
    }
    if s.p2.action == ActionState::Hitstun && s.p2.hitstun_frames == 0 {
        s.p2.action = ActionState::Idle;
        s.p2.action_frame = 0;
        if s.combo_hit_count > 0 {
            s.combo_hit_count = 0;
            s.hitstun_scale_num = 100;
        }
    } else if s.p2.action == ActionState::Blockstun && s.p2.blockstun_frames == 0 {
        s.p2.action = ActionState::Idle;
        s.p2.action_frame = 0;
    }
}

fn check_win(s: &mut GameState)
    requires
        check_win_req(*old(s)),
    ensures
        *final(s) == spec_check_win(*old(s)),
{
    if s.p1.health <= 0 || s.p1.guard_meter <= 0 {
        s.round_phase = RoundPhase::KO;
        s.p2_rounds_won += 1;
    } else if s.p2.health <= 0 || s.p2.guard_meter <= 0 {
        s.round_phase = RoundPhase::KO;
        s.p1_rounds_won += 1;
    }
    // Check for match end
    if s.round_phase == RoundPhase::KO && (s.p1_rounds_won >= 2 || s.p2_rounds_won >= 2) {
        s.round_phase = RoundPhase::MatchEnd;
    }
}

fn handle_non_fighting(s: &mut GameState) -> (r: GameState)
    requires
        handle_non_fighting_req(*old(s)),
        old(s).round_phase != RoundPhase::Fighting,
    ensures
        r == spec_handle_non_fighting(*old(s)),
{
    match s.round_phase {
        RoundPhase::Intro => {
            s.round_phase = RoundPhase::Fighting;
        },
        RoundPhase::KO | RoundPhase::RoundEnd => {
            // Start new round
            s.round_number += 1;
            s.p1 = fresh_player(FixedPoint::from_pixels(300), 1);
            s.p2 = fresh_player(FixedPoint::from_pixels(980), -1);
            s.combo_hit_count = 0;
            s.hitstun_scale_num = 100;
            s.timer_frames = GameState::TIMER_INITIAL;
            s.round_phase = RoundPhase::Fighting;
        },
        RoundPhase::MatchEnd => {
            // Match is over, do nothing
        },
        RoundPhase::Fighting => {},  // handled in main tick
    }
    s.frame_number += 1;
    *s
}

/// A player at the start of a round at `pos_x`, facing `facing`.
fn fresh_player(pos_x: FixedPoint, facing: i8) -> (r: PlayerState)
    ensures
        r == spec_fresh_player(pos_x.0, facing),
{
    PlayerState {
        pos_x,
        pos_y: FixedPoint(0),
        vel_x: FixedPoint(0),
        vel_y: FixedPoint(0),
        facing,
        health: 1000,
        energy: 0,
        guard_meter: 100,
        action: ActionState::Idle,
        action_frame: 0,
        hitstun_frames: 0,
        blockstun_frames: 0,
        is_airborne: false,
        juggle_count: 0,
        hit_this_frame: false,
    }
}

fn handle_timeout(s: GameState) -> (r: GameState)
    requires
        handle_timeout_req(s),
    ensures
        r == spec_handle_timeout(s),
{
    let mut s = s;
    // Lower health wins
    if s.p1.health > s.p2.health {
        s.p1_rounds_won += 1;
    } else if s.p2.health > s.p1.health {
        s.p2_rounds_won += 1;
    } else {
        // Draw: both get a round (can lead to extra rounds)
        s.p1_rounds_won += 1;
        s.p2_rounds_won += 1;
    }
    if s.p1_rounds_won >= 2 || s.p2_rounds_won >= 2 {
        s.round_phase = RoundPhase::MatchEnd;
    } else {
        s.round_phase = RoundPhase::RoundEnd;
    }
    s.frame_number += 1;
    s
}

fn is_in_stun(p: &PlayerState) -> (r: bool)
    ensures
        r == spec_is_in_stun(*p),
{
    p.hitstun_frames > 0 || p.blockstun_frames > 0
}

fn is_in_attack(action: ActionState) -> (r: bool)
    ensures
        r == spec_is_in_attack(action),
{
    matches!(
        action,
        ActionState::LightAttack | ActionState::HeavyAttack | ActionState::SpecialAttack
            | ActionState::CrouchLight | ActionState::CrouchHeavy | ActionState::AirLight
            | ActionState::AirHeavy
    )
}

fn process_player_input(p: &mut PlayerState, input: &InputFrame)
    ensures
        *final(p) == spec_process_input(*old(p), *input),
{
    if is_in_stun(p) {
        return ;
    }
    if p.action == ActionState::Knockdown || p.action == ActionState::Getup {
        return ;
    }
    // Cancel window: if in an attack and the frame data says cancellable, allow new attack
    if is_in_attack(p.action) {
        let frame_data = get_frame_data(p.action, p.action_frame);
        if frame_data.is_cancellable && p.hit_this_frame {
            // Allow cancel into a different attack
            if input.pressed(BTN_HEAVY) && p.action != ActionState::HeavyAttack {
                start_attack(p, input, true);
                return ;
            }
            if input.pressed(BTN_SPECIAL) && p.action != ActionState::SpecialAttack {
                start_attack(p, input, true);
                return ;
            }
        }
        // Otherwise, can't act during attack
        return ;
    }
    // Attack inputs (priority: special > heavy > light)
    if input.pressed(BTN_SPECIAL) {
        start_attack(p, input, false);
        return ;
    }
    if input.pressed(BTN_HEAVY) {
        start_attack(p, input, false);
        return ;
    }
    if input.pressed(BTN_LIGHT) {
        start_attack(p, input, false);
        return ;
    }
    // Jump
    if input.pressed(BTN_JUMP) && !p.is_airborne {
        p.action = ActionState::Jump;
        p.action_frame = 0;
        p.vel_y = FixedPoint::raw(JUMP_VEL);
        p.is_airborne = true;
        // Allow horizontal influence on jump
        if input.pressed(BTN_LEFT) {
            p.vel_x = FixedPoint::raw(-WALK_SPEED);
        } else if input.pressed(BTN_RIGHT) {
            p.vel_x = FixedPoint::raw(WALK_SPEED);
        }
        return ;
    }
    // Crouch (only on ground)
    if input.pressed(BTN_CROUCH) && !p.is_airborne {
        p.action = ActionState::Crouch;
        p.action_frame = 0;
        p.vel_x = FixedPoint(0);
        return ;
    }
    // Walk
    if !p.is_airborne {
        if input.pressed(BTN_LEFT) {
            p.vel_x = FixedPoint::raw(-WALK_SPEED);
            p.action = if p.facing == -1 {
                ActionState::WalkForward
            } else {
                ActionState::WalkBackward
            };
            p.action_frame = 0;
        } else if input.pressed(BTN_RIGHT) {
            p.vel_x = FixedPoint::raw(WALK_SPEED);
            p.action = if p.facing == 1 {
                ActionState::WalkForward
            } else {
                ActionState::WalkBackward
            };
            p.action_frame = 0;
        } else {
            p.vel_x = FixedPoint(0);
            if p.action != ActionState::Idle {
                p.action = ActionState::Idle;
                p.action_frame = 0;
            }
        }
    }
}

fn start_attack(p: &mut PlayerState, input: &InputFrame, _is_cancel: bool)
    ensures
        *final(p) == spec_start_attack(*old(p), *input),
{
    let action = if p.is_airborne {
        if input.pressed(BTN_SPECIAL) || input.pressed(BTN_HEAVY) {
            ActionState::AirHeavy
        } else {
            ActionState::AirLight
        }
    } else if input.pressed(BTN_CROUCH) {
        if input.pressed(BTN_HEAVY) || input.pressed(BTN_SPECIAL) {
            ActionState::CrouchHeavy
        } else {
            ActionState::CrouchLight
        }
    } else if input.pressed(BTN_SPECIAL) {
        ActionState::SpecialAttack
    } else if input.pressed(BTN_HEAVY) {
        ActionState::HeavyAttack
    } else {
        ActionState::LightAttack
    };
    p.action = action;
    p.action_frame = 0;
    p.vel_x = FixedPoint(0);  // stop movement during attack
    p.hit_this_frame = false;  // a new attack has not hit yet
}

fn apply_gravity(p: &mut PlayerState)
    requires
        apply_gravity_req(*old(p)),
    ensures
        *final(p) == spec_apply_gravity(*old(p)),
{
    if p.is_airborne {
        p.vel_y = FixedPoint::raw(p.vel_y.0 + GRAVITY);
    }
}

fn update_position(p: &mut PlayerState)
    requires
        update_position_req(*old(p)),
    ensures
        *final(p) == spec_update_position(*old(p)),
{
    let x = p.pos_x.0 + p.vel_x.0;
    p.pos_x = FixedPoint::raw(
        if x < STAGE_X_MIN {
            STAGE_X_MIN
        } else if x > STAGE_X_MAX {
            STAGE_X_MAX
        } else {
            x
        },
    );
    p.pos_y = FixedPoint::raw(p.pos_y.0 + p.vel_y.0);
    // Floor collision
    if p.pos_y.0 <= 0 {
        p.pos_y = FixedPoint(0);
        p.vel_y = FixedPoint(0);
        if p.is_airborne {
            p.is_airborne = false;
            if p.action == ActionState::Jump || p.action == ActionState::AirLight || p.action
                == ActionState::AirHeavy {
                p.action = ActionState::Idle;
                p.action_frame = 0;
            }
        }
    }
}

fn handle_action_completion(p: &mut PlayerState)
    ensures
        *final(p) == spec_handle_action_completion(*old(p)),
{
    let max_frames = action_frame_count(p.action);
    // For looping states (Idle, Walk, Crouch, Hitstun, Blockstun), don't auto-transition
    match p.action {
        ActionState::Idle | ActionState::WalkForward | ActionState::WalkBackward
        | ActionState::Crouch | ActionState::Hitstun | ActionState::Blockstun
        | ActionState::Jump => {
            // These are either looping or duration-driven externally
        },
        ActionState::Knockdown => {
            if p.action_frame >= max_frames {
                p.action = ActionState::Getup;
                p.action_frame = 0;
            }
        },
        ActionState::Getup => {
            if p.action_frame >= max_frames {
                p.action = ActionState::Idle;
                p.action_frame = 0;
            }
        },
        _ => {
            // Attack animations
            if p.action_frame >= max_frames {
                p.action = ActionState::Idle;
                p.action_frame = 0;
            }
        },
    }
}

/// Every corner of the box lies within 100 px of the owner's position.
pub open spec fn box_small(b: crate::collision::Aabb) -> bool {
    &&& -100000 <= b.x_min.0 <= 100000
    &&& -100000 <= b.x_max.0 <= 100000
    &&& -100000 <= b.y_min.0 <= 100000
    &&& -100000 <= b.y_max.0 <= 100000
}

/// The numbers of every frame's data are small.
pub(crate) proof fn lemma_frame_data_bounds(action: ActionState, frame: u8)
    ensures
        box_small(spec_frame_data(action, frame).boxes.hitboxes[0]),
        box_small(spec_frame_data(action, frame).boxes.hurtboxes[0]),
        0 <= spec_frame_data(action, frame).knockback_x.0 <= 8000,
        -4000 <= spec_frame_data(action, frame).knockback_y.0 <= 4000,
        0 <= spec_frame_data(action, frame).damage <= 120,
        0 <= spec_frame_data(action, frame).energy_gain <= 10,
        0 <= spec_frame_data(action, frame).guard_damage <= 30,
        spec_frame_data(action, frame).hitstun <= 25,
        spec_frame_data(action, frame).boxes.hitbox_count <= 1,
        spec_frame_data(action, frame).boxes.hurtbox_count == 1,
{
}

/// One attacker's attack on one defender (see `spec_combat`).
fn combat(att: PlayerState, def: PlayerState, combo: u8, scale: u8) -> (r: (
    PlayerState,
    PlayerState,
    u8,
    u8,
))
    requires
        combat_req(att, def, scale),
    ensures
        r == spec_combat(att, def, combo, scale),
{
    if !is_in_attack(att.action) {
        return (att, def, combo, scale);
    }
    let atk_frame_data = get_frame_data(att.action, att.action_frame);
    proof {
        lemma_frame_data_bounds(att.action, att.action_frame);
    }
    if atk_frame_data.boxes.hitbox_count == 0 {
        return (att, def, combo, scale);
    }
    let def_frame_data = get_frame_data(def.action, def.action_frame);
    let hit = check_hit(
        &atk_frame_data.boxes,
        &CombatantInfo { pos: att.pos_x, pos_y: att.pos_y, facing: att.facing },
        &def_frame_data.boxes,
        &CombatantInfo { pos: def.pos_x, pos_y: def.pos_y, facing: def.facing },
    );
    if !hit {
        return (att, def, combo, scale);
    }
    // Block: holding back relative to attacker, or already in blockstun
    let defender_blocking = def.action == ActionState::Blockstun || def.action
        == ActionState::WalkBackward;
    // Only hit once per attack, and not a defender already hit this frame
    if att.hit_this_frame || def.hit_this_frame {
        return (att, def, combo, scale);
    }
    let mut a = att;
    let mut d = def;
    let mut combo = combo;
    let mut scale = scale;
    if defender_blocking {
        // Block
        d.blockstun_frames = atk_frame_data.blockstun;
        d.action = ActionState::Blockstun;
        d.action_frame = 0;
        d.guard_meter -= atk_frame_data.guard_damage;
        assert(-1024000 <= (atk_frame_data.knockback_x.0 / 2) * a.facing <= 1024000)
            by (nonlinear_arith)
            requires
                0 <= atk_frame_data.knockback_x.0 <= 8000,
                -128 <= a.facing <= 127,
        ;
        d.vel_x = FixedPoint::raw(atk_frame_data.knockback_x.0 / 2 * a.facing as i32);
        a.hit_this_frame = true;
    } else {
        // Hit
        let scaled_damage = apply_combo_scaling(atk_frame_data.damage, scale);
        d.health -= scaled_damage;
        let scaled_hitstun = apply_hitstun_scaling(atk_frame_data.hitstun, scale);
        d.hitstun_frames = scaled_hitstun;
        d.action = ActionState::Hitstun;
        d.action_frame = 0;
        assert(-1024000 <= atk_frame_data.knockback_x.0 * a.facing <= 1024000) by (nonlinear_arith)
            requires
                0 <= atk_frame_data.knockback_x.0 <= 8000,
                -128 <= a.facing <= 127,
        ;
        d.vel_x = FixedPoint::raw(atk_frame_data.knockback_x.0 * a.facing as i32);
        d.vel_y = atk_frame_data.knockback_y;
        if atk_frame_data.knockback_y.0 > 0 {
            d.is_airborne = true;
        }
        a.energy = if a.energy + atk_frame_data.energy_gain < 100 {
            a.energy + atk_frame_data.energy_gain
        } else {
            100
        };
        a.hit_this_frame = true;
        d.hit_this_frame = true;
        combo = combo.saturating_add(1);
        // Hitstun scaling: 15% reduction per hit
        let reduced = scale.saturating_sub(15);
        scale = if reduced > 20 {
            reduced
        } else {
            20
        };
        // Techable knockdown after 7 hits
        if combo >= KNOCKDOWN_THRESHOLD {
            d.action = ActionState::Knockdown;
            d.action_frame = 0;
            d.hitstun_frames = 0;
            d.juggle_count = 0;
            combo = 0;
            scale = 100;
        }
    }
    (a, d, combo, scale)
}

fn resolve_combat(s: &mut GameState, p1_is_attacker: bool)
    requires
        resolve_combat_req(*old(s), p1_is_attacker),
    ensures
        *final(s) == spec_resolve_combat(*old(s), p1_is_attacker),
{
    if p1_is_attacker {
        let (a, d, c, sc) = combat(s.p1, s.p2, s.combo_hit_count, s.hitstun_scale_num);
        s.p1 = a;
        s.p2 = d;
        s.combo_hit_count = c;
        s.hitstun_scale_num = sc;
    } else {
        let (a, d, c, sc) = combat(s.p2, s.p1, s.combo_hit_count, s.hitstun_scale_num);
        s.p2 = a;
        s.p1 = d;
        s.combo_hit_count = c;
        s.hitstun_scale_num = sc;
    }
}

/// Apply combo damage scaling: damage * scale_percent / 100
pub fn apply_combo_scaling(base_damage: i32, scale_percent: u8) -> (r: i32)
    requires
        i32::MIN <= base_damage * scale_percent <= i32::MAX,
    ensures
        r == spec_combo_scaling(base_damage, scale_percent),
{
    (base_damage * scale_percent as i32) / 100
}

/// Apply hitstun scaling: hitstun * scale_percent / 100, minimum 3 frames
fn apply_hitstun_scaling(base_hitstun: u8, scale_percent: u8) -> (r: u8)
    ensures
        r == spec_hitstun_scaling(base_hitstun, scale_percent),
{
    assert(base_hitstun * scale_percent <= 255 * 255) by (nonlinear_arith)
        requires
            base_hitstun <= 255,
            scale_percent <= 255,
    ;
    let scaled = (base_hitstun as u32 * scale_percent as u32) / 100;
    #[verifier::truncate] ((if scaled > 3 {
        scaled
    } else {
        3
    }) as u8)
}

// ---------------------------------------------------------------------------
// Telling in advance whether a tick can run without overflow.

/// Whether a player can read its input, fall and move without overflow.
fn act_ok(p: &PlayerState, input: &InputFrame) -> (r: bool)
    ensures
        r == ({
            let q = spec_process_input(spec_carry_hit_flag(*p), *input);
            apply_gravity_req(q) && update_position_req(spec_apply_gravity(q))
        }),
{
    let mut q = *p;
    q.hit_this_frame = q.hit_this_frame && is_in_attack(q.action);
    process_player_input(&mut q, input);
    if q.is_airborne && (q.vel_y.0 as i64) + (GRAVITY as i64) < (i32::MIN as i64) {
        return false;
    }
    let vy: i64 = if q.is_airborne {
        q.vel_y.0 as i64 + GRAVITY as i64
    } else {
        q.vel_y.0 as i64
    };
    let x: i64 = q.pos_x.0 as i64 + q.vel_x.0 as i64;
    let y: i64 = q.pos_y.0 as i64 + vy;
    (i32::MIN as i64) <= x && x <= (i32::MAX as i64) && (i32::MIN as i64) <= y && y <= (
    i32::MAX as i64)
}

/// Whether a box can be placed in the world without overflow.
fn box_ok(b: &Aabb, c: &CombatantInfo) -> (r: bool)
    ensures
        r == to_world_req(*b, c.pos, c.pos_y, c.facing),
{
    let py = c.pos_y.0 as i64;
    let px = c.pos.0 as i64;
    let y_ok = (i32::MIN as i64) <= py + b.y_min.0 as i64 && py + b.y_min.0 as i64 <= (
    i32::MAX as i64) && (i32::MIN as i64) <= py + b.y_max.0 as i64 && py + b.y_max.0 as i64
        <= (i32::MAX as i64);
    let x_ok = if c.facing >= 0 {
        (i32::MIN as i64) <= px + b.x_min.0 as i64 && px + b.x_min.0 as i64 <= (i32::MAX as i64)
            && (i32::MIN as i64) <= px + b.x_max.0 as i64 && px + b.x_max.0 as i64 <= (
        i32::MAX as i64)
    } else {
        (i32::MIN as i64) <= px - b.x_max.0 as i64 && px - b.x_max.0 as i64 <= (i32::MAX as i64)
            && (i32::MIN as i64) <= px - b.x_min.0 as i64 && px - b.x_min.0 as i64 <= (
        i32::MAX as i64)
    };
    y_ok && x_ok
}

/// Whether two box sets can be checked against each other without overflow.
fn check_hit_ok(ab: &HitboxSet, a: &CombatantInfo, db: &HitboxSet, d: &CombatantInfo) -> (r:
    bool)
    ensures
        r == check_hit_req(*ab, *a, *db, *d),
{
    if ab.hitbox_count > 4 || db.hurtbox_count > 4 {
        return false;
    }
    let n = ab.hitbox_count as usize;
    let mut i: usize = 0;
    while i < n
        invariant
            n == ab.hitbox_count,
            n <= 4,
            i <= n,
            forall|k: int| 0 <= k < i ==> to_world_req(#[trigger] ab.hitboxes[k], a.pos, a.pos_y, a.facing),
        decreases n - i,
    {
        if !box_ok(&ab.hitboxes[i], a) {
            return false;
        }
        i += 1;
    }
    let m = db.hurtbox_count as usize;
    let mut j: usize = 0;
    while j < m
        invariant
            m == db.hurtbox_count,
            m <= 4,
            j <= m,
            forall|k: int| 0 <= k < j ==> to_world_req(#[trigger] db.hurtboxes[k], d.pos, d.pos_y, d.facing),
        decreases m - j,
    {
        if !box_ok(&db.hurtboxes[j], d) {
            return false;
        }
        j += 1;
    }
    true
}

/// Whether one attacker's attack can be resolved without overflow.
fn combat_ok(att: &PlayerState, def: &PlayerState, scale: u8) -> (r: bool)
    ensures
        r == combat_req(*att, *def, scale),
{
    let afd = get_frame_data(att.action, att.action_frame);
    let dfd = get_frame_data(def.action, def.action_frame);
    proof {
        lemma_frame_data_bounds(att.action, att.action_frame);
    }
    let ai = CombatantInfo { pos: att.pos_x, pos_y: att.pos_y, facing: att.facing };
    let di = CombatantInfo { pos: def.pos_x, pos_y: def.pos_y, facing: def.facing };
    let attacking = is_in_attack(att.action) && afd.boxes.hitbox_count != 0;
    if attacking && !check_hit_ok(&afd.boxes, &ai, &dfd.boxes, &di) {
        return false;
    }
    let connects = attacking && check_hit(&afd.boxes, &ai, &dfd.boxes, &di);
    if connects && !att.hit_this_frame && !def.hit_this_frame {
        if def.action == ActionState::Blockstun || def.action == ActionState::WalkBackward {
            (def.guard_meter as i64) - (afd.guard_damage as i64) >= (i32::MIN as i64)
        } else {
            let scaled = apply_combo_scaling(afd.damage, scale);
            (def.health as i64) - (scaled as i64) >= (i32::MIN as i64) && (att.energy as i64)
                + (afd.energy_gain as i64) <= (i32::MAX as i64)
        }
    } else {
        true
    }
}

/// Whether a fighting tick (after the timer) can run without overflow.
fn fight_ok(s: GameState, p1_input: InputFrame, p2_input: InputFrame) -> (r: bool)
    ensures
        r == fight_req(s, p1_input, p2_input),
{
    if !(act_ok(&s.p1, &p1_input) && act_ok(&s.p2, &p2_input)) {
        return false;
    }
    let mut m = move_players(s, p1_input, p2_input);
    leave_stun(&mut m);
    if !combat_ok(&m.p1, &m.p2, m.hitstun_scale_num) {
        return false;
    }
    resolve_combat(&mut m, true);
    if !combat_ok(&m.p2, &m.p1, m.hitstun_scale_num) {
        return false;
    }
    resolve_combat(&mut m, false);
    let p1_down = m.p1.health <= 0 || m.p1.guard_meter <= 0;
    let p2_down = m.p2.health <= 0 || m.p2.guard_meter <= 0;
    (!p1_down || m.p2_rounds_won < 255) && (p1_down || !p2_down || m.p1_rounds_won < 255)
        && s.frame_number < u64::MAX
}

/// Advances the game by one tick when that can be done without overflow,
/// and tells so: `None` exactly for the states and inputs that `tick`
/// cannot take.
pub fn try_tick(state: &GameState, p1_input: InputFrame, p2_input: InputFrame) -> (r: Option<
    GameState,
>)
    ensures
        r == if tick_req(*state, p1_input, p2_input) {
            Some(spec_tick(*state, p1_input, p2_input))
        } else {
            None
        },
{
    let ok = if state.round_phase != RoundPhase::Fighting {
        state.frame_number < u64::MAX && (!(state.round_phase == RoundPhase::KO
            || state.round_phase == RoundPhase::RoundEnd) || state.round_number < 255)
    } else {
        let mut t = *state;
        if t.timer_frames > 0 {
            t.timer_frames = t.timer_frames - 1;
        }
        assert(t == after_timer(*state));
        if t.timer_frames == 0 {
            t.p1_rounds_won < 255 && t.p2_rounds_won < 255 && t.frame_number < u64::MAX
        } else {
            fight_ok(t, p1_input, p2_input)
        }
    };
    if ok {
        Some(tick(state, p1_input, p2_input))
    } else {
        None
    }
}

} // verus!
