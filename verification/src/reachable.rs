use vstd::prelude::*;

use crate::animation::spec_frame_data;
use crate::game_state::{spec_initial, ActionState, GameState, PlayerState, RoundPhase};
use crate::input::InputFrame;
use crate::simulation::{
    after_timer, apply_gravity_req, combat_req, fight_req, lemma_frame_data_bounds,
    move_players_req, resolve_combat_req, spec_apply_gravity, spec_carry_hit_flag, spec_check_win, spec_combat,
    spec_fight, spec_leave_stun, spec_move_players, spec_process_input, spec_resolve_combat,
    spec_tick, spec_update_position, tick_req, update_position_req, STAGE_X_MAX,
};

verus! {

/// Frames of the current round that have been played.
pub open spec fn frames_played(s: GameState) -> int {
    GameState::TIMER_INITIAL - s.timer_frames
}

/// What holds of a player `fp` frames into a round: it faces a side, stands
/// on the stage, has risen at most 12 px per frame and fallen at most as
/// fast as gravity allows, and its meters are bounded.
pub open spec fn player_ok(p: PlayerState, fp: int) -> bool {
    &&& p.facing == 1 || p.facing == -1
    &&& 0 <= p.pos_x.0 <= STAGE_X_MAX
    &&& 0 <= p.pos_y.0 <= 12000 * fp
    &&& -8000 <= p.vel_x.0 <= 8000
    &&& -4000 - 600 * fp <= p.vel_y.0 <= 12000
    &&& -1000 <= p.health <= 1000
    &&& 0 <= p.energy <= 100
    &&& -1000 <= p.guard_meter <= 100
}

/// A player that can still fight: some health and some guard left.
pub open spec fn standing(p: PlayerState) -> bool {
    p.health >= 1 && p.guard_meter >= 1
}

proof fn lemma_player_ok_mono(p: PlayerState, a: int, b: int)
    requires
        player_ok(p, a),
        0 <= a <= b,
    ensures
        player_ok(p, b),
{
    assert(12000 * a <= 12000 * b) by (nonlinear_arith)
        requires
            a <= b,
    ;
    assert(600 * a <= 600 * b) by (nonlinear_arith)
        requires
            a <= b,
    ;
}

/// Reading an input, falling and moving keep a player within bounds one
/// frame later.
proof fn lemma_act_and_move_ok(p: PlayerState, input: InputFrame, fp: int)
    requires
        player_ok(p, fp - 1),
        1 <= fp <= GameState::TIMER_INITIAL,
    ensures
        ({
            let q = spec_process_input(spec_carry_hit_flag(p), input);
            &&& apply_gravity_req(q)
            &&& update_position_req(spec_apply_gravity(q))
            &&& player_ok(spec_update_position(spec_apply_gravity(q)), fp)
            &&& spec_update_position(spec_apply_gravity(q)).health == p.health
            &&& spec_update_position(spec_apply_gravity(q)).guard_meter == p.guard_meter
        }),
{
    let q = spec_process_input(spec_carry_hit_flag(p), input);
    assert(q.pos_y == p.pos_y && q.pos_x == p.pos_x);
    assert(-3000 <= q.vel_x.0 <= 3000 || q.vel_x == p.vel_x);
    assert(q.vel_y == p.vel_y || q.vel_y.0 == 12000);
    assert(q.facing == p.facing && q.health == p.health && q.energy == p.energy);
    let g = spec_apply_gravity(q);
    assert(-4000 - 600 * fp <= g.vel_y.0 <= 12000);
    assert(apply_gravity_req(q));
    assert(update_position_req(g));
    let u = spec_update_position(g);
    assert(0 <= u.pos_y.0 <= 12000 * fp);
    assert(-4000 - 600 * fp <= u.vel_y.0 <= 12000);
    assert(0 <= u.pos_x.0 <= STAGE_X_MAX);
}

/// The state-wide bounds of a state `fp` frames into a round.
pub open spec fn bounds_at(s: GameState, fp: int) -> bool {
    &&& player_ok(s.p1, fp)
    &&& player_ok(s.p2, fp)
    &&& s.combo_hit_count < 7
    &&& 20 <= s.hitstun_scale_num <= 100
}

proof fn lemma_move_players_ok(s: GameState, p1_input: InputFrame, p2_input: InputFrame, fp: int)
    requires
        bounds_at(s, fp - 1),
        1 <= fp <= GameState::TIMER_INITIAL,
    ensures
        move_players_req(s, p1_input, p2_input),
        bounds_at(spec_move_players(s, p1_input, p2_input), fp),
        spec_move_players(s, p1_input, p2_input).p1.health == s.p1.health,
        spec_move_players(s, p1_input, p2_input).p2.health == s.p2.health,
        spec_move_players(s, p1_input, p2_input).p1.guard_meter == s.p1.guard_meter,
        spec_move_players(s, p1_input, p2_input).p2.guard_meter == s.p2.guard_meter,
        spec_move_players(s, p1_input, p2_input).round_phase == s.round_phase,
        spec_move_players(s, p1_input, p2_input).timer_frames == s.timer_frames,
        spec_move_players(s, p1_input, p2_input).p1_rounds_won == s.p1_rounds_won,
        spec_move_players(s, p1_input, p2_input).p2_rounds_won == s.p2_rounds_won,
        spec_move_players(s, p1_input, p2_input).round_number == s.round_number,
        spec_move_players(s, p1_input, p2_input).frame_number == s.frame_number,
{
    lemma_act_and_move_ok(s.p1, p1_input, fp);
    lemma_act_and_move_ok(s.p2, p2_input, fp);
}

proof fn lemma_leave_stun_ok(s: GameState, fp: int)
    requires
        bounds_at(s, fp),
    ensures
        bounds_at(spec_leave_stun(s), fp),
        spec_leave_stun(s).p1.health == s.p1.health,
        spec_leave_stun(s).p2.health == s.p2.health,
        spec_leave_stun(s).p1.guard_meter == s.p1.guard_meter,
        spec_leave_stun(s).p2.guard_meter == s.p2.guard_meter,
        spec_leave_stun(s).round_phase == s.round_phase,
        spec_leave_stun(s).timer_frames == s.timer_frames,
        spec_leave_stun(s).p1_rounds_won == s.p1_rounds_won,
        spec_leave_stun(s).p2_rounds_won == s.p2_rounds_won,
        spec_leave_stun(s).round_number == s.round_number,
        spec_leave_stun(s).frame_number == s.frame_number,
{
}

proof fn lemma_combat_ok(att: PlayerState, def: PlayerState, combo: u8, scale: u8, fp: int)
    requires
        player_ok(att, fp),
        player_ok(def, fp),
        standing(def),
        0 <= fp <= GameState::TIMER_INITIAL,
        combo < 7,
        20 <= scale <= 100,
    ensures
        combat_req(att, def, scale),
        ({
            let (a, d, c, sc) = spec_combat(att, def, combo, scale);
            &&& player_ok(a, fp)
            &&& player_ok(d, fp)
            &&& c < 7
            &&& 20 <= sc <= 100
            &&& a.health == att.health
            &&& a.guard_meter == att.guard_meter
        }),
{
    lemma_frame_data_bounds(att.action, att.action_frame);
    lemma_frame_data_bounds(def.action, def.action_frame);
    let afd = spec_frame_data(att.action, att.action_frame);
    lemma_combo_scaling_bounds(afd.damage, scale);
}

/// Scaled damage is no more than the damage and never negative.
proof fn lemma_combo_scaling_bounds(damage: i32, scale: u8)
    requires
        0 <= damage <= 1000,
        scale <= 100,
    ensures
        0 <= crate::simulation::spec_combo_scaling(damage, scale) <= damage,
{
    assert(0 <= damage * scale <= damage * 100) by (nonlinear_arith)
        requires
            0 <= damage,
            scale <= 100,
    ;
}

/// A state that play can reach from `GameState::initial()`.
pub open spec fn game_ok(s: GameState) -> bool {
    &&& s.timer_frames <= GameState::TIMER_INITIAL
    &&& bounds_at(s, frames_played(s))
    &&& match s.round_phase {
        RoundPhase::Intro | RoundPhase::Fighting => {
            &&& standing(s.p1)
            &&& standing(s.p2)
            &&& s.p1_rounds_won <= 1
            &&& s.p2_rounds_won <= 1
            &&& s.round_number <= 1 + s.p1_rounds_won + s.p2_rounds_won
        },
        RoundPhase::KO | RoundPhase::RoundEnd => {
            &&& s.p1_rounds_won <= 1
            &&& s.p2_rounds_won <= 1
            &&& s.round_number <= s.p1_rounds_won + s.p2_rounds_won
        },
        RoundPhase::MatchEnd => {
            &&& s.p1_rounds_won <= 2
            &&& s.p2_rounds_won <= 2
            &&& s.p1_rounds_won == 2 || s.p2_rounds_won == 2
        },
    }
}

proof fn lemma_resolve_ok(s: GameState, p1_is_attacker: bool, fp: int)
    requires
        bounds_at(s, fp),
        0 <= fp <= GameState::TIMER_INITIAL,
        p1_is_attacker ==> standing(s.p2),
        !p1_is_attacker ==> standing(s.p1),
    ensures
        resolve_combat_req(s, p1_is_attacker),
        bounds_at(spec_resolve_combat(s, p1_is_attacker), fp),
        p1_is_attacker ==> spec_resolve_combat(s, p1_is_attacker).p1.health == s.p1.health,
        p1_is_attacker ==> spec_resolve_combat(s, p1_is_attacker).p1.guard_meter
            == s.p1.guard_meter,
        spec_resolve_combat(s, p1_is_attacker).round_phase == s.round_phase,
        spec_resolve_combat(s, p1_is_attacker).timer_frames == s.timer_frames,
        spec_resolve_combat(s, p1_is_attacker).p1_rounds_won == s.p1_rounds_won,
        spec_resolve_combat(s, p1_is_attacker).p2_rounds_won == s.p2_rounds_won,
        spec_resolve_combat(s, p1_is_attacker).round_number == s.round_number,
        spec_resolve_combat(s, p1_is_attacker).frame_number == s.frame_number,
{
    if p1_is_attacker {
        lemma_combat_ok(s.p1, s.p2, s.combo_hit_count, s.hitstun_scale_num, fp);
    } else {
        lemma_combat_ok(s.p2, s.p1, s.combo_hit_count, s.hitstun_scale_num, fp);
    }
}

proof fn lemma_check_win_ok(s: GameState)
    requires
        s.timer_frames <= GameState::TIMER_INITIAL,
        bounds_at(s, frames_played(s)),
        s.round_phase == RoundPhase::Fighting,
        s.p1_rounds_won <= 1,
        s.p2_rounds_won <= 1,
        s.round_number <= 1 + s.p1_rounds_won + s.p2_rounds_won,
    ensures
        crate::simulation::check_win_req(s),
        game_ok(spec_check_win(s)),
        spec_check_win(s).frame_number == s.frame_number,
{
}

#[verifier::rlimit(40)]
proof fn lemma_fight_ok(s: GameState, p1_input: InputFrame, p2_input: InputFrame)
    requires
        game_ok(s),
        s.round_phase == RoundPhase::Fighting,
        after_timer(s).timer_frames != 0,
        s.frame_number < u64::MAX,
    ensures
        fight_req(after_timer(s), p1_input, p2_input),
        game_ok(spec_fight(after_timer(s), p1_input, p2_input)),
{
    let s0 = after_timer(s);
    let fp = frames_played(s0);
    assert(fp == frames_played(s) + 1);
    lemma_move_players_ok(s0, p1_input, p2_input, fp);
    let m = spec_move_players(s0, p1_input, p2_input);
    lemma_leave_stun_ok(m, fp);
    let s1 = spec_leave_stun(m);
    lemma_resolve_ok(s1, true, fp);
    let r1 = spec_resolve_combat(s1, true);
    lemma_resolve_ok(r1, false, fp);
    let s2 = spec_resolve_combat(r1, false);
    lemma_check_win_ok(s2);
}

/// The state after the fighting part of a frame keeps the frame counter of
/// its start, plus one.
proof fn lemma_fight_frame(s: GameState, p1_input: InputFrame, p2_input: InputFrame)
    requires
        game_ok(s),
        s.round_phase == RoundPhase::Fighting,
        after_timer(s).timer_frames != 0,
        s.frame_number < u64::MAX,
    ensures
        spec_fight(after_timer(s), p1_input, p2_input).frame_number == s.frame_number + 1,
        spec_fight(after_timer(s), p1_input, p2_input).timer_frames == s.timer_frames - 1,
{
    let s0 = after_timer(s);
    let fp = frames_played(s0);
    lemma_move_players_ok(s0, p1_input, p2_input, fp);
    let m = spec_move_players(s0, p1_input, p2_input);
    lemma_leave_stun_ok(m, fp);
    let s1 = spec_leave_stun(m);
    lemma_resolve_ok(s1, true, fp);
    let r1 = spec_resolve_combat(s1, true);
    lemma_resolve_ok(r1, false, fp);
}

/// A player on the stage, on or above the floor, with energy in `0..=100`.
pub open spec fn on_stage(p: PlayerState) -> bool {
    &&& 0 <= p.pos_x.0 <= STAGE_X_MAX
    &&& 0 <= p.pos_y.0
    &&& 0 <= p.energy <= 100
}

/// Both players on the stage, a combo shorter than the knockdown threshold
/// and a hitstun scale in `20..=100` percent.
pub open spec fn arena_bounds(s: GameState) -> bool {
    &&& on_stage(s.p1)
    &&& on_stage(s.p2)
    &&& s.combo_hit_count < crate::simulation::KNOCKDOWN_THRESHOLD
    &&& 20 <= s.hitstun_scale_num <= 100
}

proof fn lemma_move_on_stage(p: PlayerState, input: InputFrame)
    requires
        on_stage(p),
        ({
            let q = spec_process_input(spec_carry_hit_flag(p), input);
            apply_gravity_req(q) && update_position_req(spec_apply_gravity(q))
        }),
    ensures
        on_stage(spec_update_position(spec_apply_gravity(spec_process_input(spec_carry_hit_flag(p), input)))),
{
}

proof fn lemma_combat_on_stage(att: PlayerState, def: PlayerState, combo: u8, scale: u8)
    requires
        on_stage(att),
        on_stage(def),
        combo < 7,
        20 <= scale <= 100,
    ensures
        ({
            let (a, d, c, sc) = spec_combat(att, def, combo, scale);
            &&& on_stage(a)
            &&& on_stage(d)
            &&& c < 7
            &&& 20 <= sc <= 100
        }),
{
    lemma_frame_data_bounds(att.action, att.action_frame);
}

proof fn lemma_move_players_bounds(s: GameState, p1_input: InputFrame, p2_input: InputFrame)
    requires
        arena_bounds(s),
        move_players_req(s, p1_input, p2_input),
    ensures
        arena_bounds(spec_move_players(s, p1_input, p2_input)),
{
    lemma_move_on_stage(s.p1, p1_input);
    lemma_move_on_stage(s.p2, p2_input);
}

proof fn lemma_resolve_bounds(s: GameState, p1_is_attacker: bool)
    requires
        arena_bounds(s),
    ensures
        arena_bounds(spec_resolve_combat(s, p1_is_attacker)),
{
    if p1_is_attacker {
        lemma_combat_on_stage(s.p1, s.p2, s.combo_hit_count, s.hitstun_scale_num);
    } else {
        lemma_combat_on_stage(s.p2, s.p1, s.combo_hit_count, s.hitstun_scale_num);
    }
}

proof fn lemma_fight_bounds(s: GameState, p1_input: InputFrame, p2_input: InputFrame)
    requires
        arena_bounds(s),
        fight_req(s, p1_input, p2_input),
    ensures
        arena_bounds(spec_fight(s, p1_input, p2_input)),
{
    lemma_move_players_bounds(s, p1_input, p2_input);
    let m = spec_move_players(s, p1_input, p2_input);
    let s1 = spec_leave_stun(m);
    assert(arena_bounds(s1));
    lemma_resolve_bounds(s1, true);
    let r1 = spec_resolve_combat(s1, true);
    lemma_resolve_bounds(r1, false);
    let s2 = spec_resolve_combat(r1, false);
    assert(arena_bounds(spec_check_win(s2)));
}

/// Whatever the state's history, a tick that can run without overflow keeps
/// both players on the stage with energy in `0..=100`, the combo below the
/// knockdown threshold and the hitstun scale in `20..=100` percent.
pub proof fn law_tick_keeps_arena_bounds(s: GameState, p1_input: InputFrame, p2_input: InputFrame)
    requires
        arena_bounds(s),
        tick_req(s, p1_input, p2_input),
    ensures
        arena_bounds(spec_tick(s, p1_input, p2_input)),
{
    if s.round_phase == RoundPhase::Fighting && after_timer(s).timer_frames != 0 {
        lemma_fight_bounds(after_timer(s), p1_input, p2_input);
    }
}

/// The game starts in a reachable state.
pub proof fn law_initial_ok()
    ensures
        game_ok(spec_initial()),
{
}

/// From every reachable state a tick can run with any inputs without
/// overflow, and it leads to a reachable state again (while the frame
/// counter has room to count).
pub proof fn law_tick_keeps_game_ok(s: GameState, p1_input: InputFrame, p2_input: InputFrame)
    requires
        game_ok(s),
        s.frame_number < u64::MAX,
    ensures
        tick_req(s, p1_input, p2_input),
        game_ok(spec_tick(s, p1_input, p2_input)),
{
    if s.round_phase == RoundPhase::Fighting && after_timer(s).timer_frames != 0 {
        lemma_fight_ok(s, p1_input, p2_input);
    } else if s.round_phase == RoundPhase::Fighting {
        lemma_player_ok_mono(s.p1, frames_played(s), GameState::TIMER_INITIAL as int);
        lemma_player_ok_mono(s.p2, frames_played(s), GameState::TIMER_INITIAL as int);
    }
}

/// In every reachable state both players are on the stage with energy in
/// `0..=100` and health at most 1000, a combo has fewer hits than the
/// knockdown threshold, and the hitstun scale lies in `20..=100` percent.
pub proof fn law_bounds(s: GameState)
    requires
        game_ok(s),
    ensures
        0 <= s.p1.pos_x.0 <= STAGE_X_MAX && 0 <= s.p2.pos_x.0 <= STAGE_X_MAX,
        0 <= s.p1.pos_y.0 && 0 <= s.p2.pos_y.0,
        0 <= s.p1.energy <= 100 && 0 <= s.p2.energy <= 100,
        s.p1.health <= 1000 && s.p2.health <= 1000,
        s.combo_hit_count < crate::simulation::KNOCKDOWN_THRESHOLD,
        20 <= s.hitstun_scale_num <= 100,
{
}

/// Every tick advances the frame counter by one; while a round is fought the
/// clock runs down by one per tick, and the tick that empties it ends the
/// round.
pub proof fn law_tick_clock(s: GameState, p1_input: InputFrame, p2_input: InputFrame)
    requires
        game_ok(s),
        s.frame_number < u64::MAX,
    ensures
        spec_tick(s, p1_input, p2_input).frame_number == s.frame_number + 1,
        s.round_phase == RoundPhase::Fighting && spec_tick(s, p1_input, p2_input).round_phase
            == RoundPhase::Fighting ==> spec_tick(s, p1_input, p2_input).timer_frames
            == s.timer_frames - 1,
        s.round_phase == RoundPhase::Fighting && s.timer_frames <= 1 ==> spec_tick(
            s,
            p1_input,
            p2_input,
        ).round_phase != RoundPhase::Fighting,
{
    if s.round_phase == RoundPhase::Fighting && after_timer(s).timer_frames != 0 {
        lemma_fight_frame(s, p1_input, p2_input);
    }
}

/// A finished match stays finished: a tick only counts the frame.
pub proof fn law_match_end(s: GameState, p1_input: InputFrame, p2_input: InputFrame)
    requires
        s.round_phase == RoundPhase::MatchEnd,
        s.frame_number < u64::MAX,
    ensures
        spec_tick(s, p1_input, p2_input) == (GameState {
            frame_number: (s.frame_number + 1) as u64,
            ..s
        }),
{
}

fn check_player(p: &PlayerState, fp: i64) -> (r: bool)
    requires
        0 <= fp <= GameState::TIMER_INITIAL,
    ensures
        r == player_ok(*p, fp as int),
{
    (p.facing == 1 || p.facing == -1) && 0 <= p.pos_x.0 && p.pos_x.0 <= STAGE_X_MAX && 0
        <= p.pos_y.0 && p.pos_y.0 as i64 <= 12000 * fp && -8000 <= p.vel_x.0 && p.vel_x.0
        <= 8000 && -4000 - 600 * fp <= p.vel_y.0 as i64 && p.vel_y.0 <= 12000 && -1000
        <= p.health && p.health <= 1000 && 0 <= p.energy && p.energy <= 100 && -1000
        <= p.guard_meter && p.guard_meter <= 100
}

fn is_standing(p: &PlayerState) -> (r: bool)
    ensures
        r == standing(*p),
{
    p.health >= 1 && p.guard_meter >= 1
}

/// Whether a state is one that play can reach, as `game_ok` describes it:
/// a state for which `tick` may be called (given room in the frame counter).
pub fn is_reachable(s: &GameState) -> (r: bool)
    ensures
        r == game_ok(*s),
{
    if s.timer_frames > GameState::TIMER_INITIAL {
        return false;
    }
    let fp: i64 = GameState::TIMER_INITIAL as i64 - s.timer_frames as i64;
    let bounds = check_player(&s.p1, fp) && check_player(&s.p2, fp) && s.combo_hit_count < 7
        && 20 <= s.hitstun_scale_num && s.hitstun_scale_num <= 100;
    let w1 = s.p1_rounds_won as u32;
    let w2 = s.p2_rounds_won as u32;
    let rn = s.round_number as u32;
    let phase = match s.round_phase {
        RoundPhase::Intro | RoundPhase::Fighting => is_standing(&s.p1) && is_standing(&s.p2)
            && w1 <= 1 && w2 <= 1 && rn <= 1 + w1 + w2,
        RoundPhase::KO | RoundPhase::RoundEnd => w1 <= 1 && w2 <= 1 && rn <= w1 + w2,
        RoundPhase::MatchEnd => w1 <= 2 && w2 <= 2 && (w1 == 2 || w2 == 2),
    };
    bounds && phase
}

/// When the clock runs out, the round goes to the player with more health
/// (to both on a tie), no other score changes, nobody moves, and two rounds
/// win the match.
pub proof fn law_timeout_awards_round(s: GameState, p1_input: InputFrame, p2_input: InputFrame)
    requires
        s.round_phase == RoundPhase::Fighting,
        s.timer_frames <= 1,
        s.p1_rounds_won < 255,
        s.p2_rounds_won < 255,
        s.frame_number < u64::MAX,
    ensures
        tick_req(s, p1_input, p2_input),
        ({
            let t = spec_tick(s, p1_input, p2_input);
            &&& s.p1.health > s.p2.health ==> t.p1_rounds_won == s.p1_rounds_won + 1
                && t.p2_rounds_won == s.p2_rounds_won
            &&& s.p2.health > s.p1.health ==> t.p2_rounds_won == s.p2_rounds_won + 1
                && t.p1_rounds_won == s.p1_rounds_won
            &&& s.p1.health == s.p2.health ==> t.p1_rounds_won == s.p1_rounds_won + 1
                && t.p2_rounds_won == s.p2_rounds_won + 1
            &&& t.round_phase == if t.p1_rounds_won >= 2 || t.p2_rounds_won >= 2 {
                RoundPhase::MatchEnd
            } else {
                RoundPhase::RoundEnd
            }
            &&& t.p1 == s.p1
            &&& t.p2 == s.p2
            &&& t.timer_frames == 0
            &&& t.frame_number == s.frame_number + 1
        }),
{
}

/// Attacks move nobody and turn nobody around.
proof fn lemma_resolve_keeps_places(s: GameState, p1_is_attacker: bool)
    ensures
        spec_resolve_combat(s, p1_is_attacker).p1.pos_x == s.p1.pos_x,
        spec_resolve_combat(s, p1_is_attacker).p2.pos_x == s.p2.pos_x,
        spec_resolve_combat(s, p1_is_attacker).p1.facing == s.p1.facing,
        spec_resolve_combat(s, p1_is_attacker).p2.facing == s.p2.facing,
{
}

/// After moving, each player faces the other.
proof fn lemma_move_faces(s: GameState, p1_input: InputFrame, p2_input: InputFrame)
    ensures
        ({
            let m = spec_move_players(s, p1_input, p2_input);
            &&& m.p1.pos_x.0 < m.p2.pos_x.0 ==> m.p1.facing == 1 && m.p2.facing == -1
            &&& m.p1.pos_x.0 > m.p2.pos_x.0 ==> m.p1.facing == -1 && m.p2.facing == 1
        }),
{
}

/// After a tick of fighting, each player faces the other (equal positions
/// keep the facings they had).
pub proof fn law_players_face_each_other(s: GameState, p1_input: InputFrame, p2_input: InputFrame)
    requires
        s.round_phase == RoundPhase::Fighting,
        s.timer_frames >= 2,
    ensures
        ({
            let t = spec_tick(s, p1_input, p2_input);
            &&& t.p1.pos_x.0 < t.p2.pos_x.0 ==> t.p1.facing == 1 && t.p2.facing == -1
            &&& t.p1.pos_x.0 > t.p2.pos_x.0 ==> t.p1.facing == -1 && t.p2.facing == 1
        }),
{
    let s0 = after_timer(s);
    let m = spec_move_players(s0, p1_input, p2_input);
    lemma_move_faces(s0, p1_input, p2_input);
    let s1 = spec_leave_stun(m);
    lemma_resolve_keeps_places(s1, true);
    let r1 = spec_resolve_combat(s1, true);
    lemma_resolve_keeps_places(r1, false);
    let s2 = spec_resolve_combat(r1, false);
    assert(spec_check_win(s2).p1 == s2.p1 && spec_check_win(s2).p2 == s2.p2);
    assert(spec_fight(s0, p1_input, p2_input).p1 == s2.p1);
    assert(spec_fight(s0, p1_input, p2_input).p2 == s2.p2);
}

/// A knock-out ends the round: after a tick of fighting, a player with no
/// health or no guard left gives the round to the other (player 1 is
/// checked first), no other score changes, and two rounds win the match;
/// while nobody is down, the fight goes on with the scores unchanged.
pub proof fn law_knockout_awards_round(s: GameState, p1_input: InputFrame, p2_input: InputFrame)
    requires
        s.round_phase == RoundPhase::Fighting,
        s.timer_frames >= 2,
        tick_req(s, p1_input, p2_input),
    ensures
        ({
            let t = spec_tick(s, p1_input, p2_input);
            let p1_down = t.p1.health <= 0 || t.p1.guard_meter <= 0;
            let p2_down = t.p2.health <= 0 || t.p2.guard_meter <= 0;
            &&& p1_down ==> t.p2_rounds_won == s.p2_rounds_won + 1 && t.p1_rounds_won
                == s.p1_rounds_won
            &&& !p1_down && p2_down ==> t.p1_rounds_won == s.p1_rounds_won + 1
                && t.p2_rounds_won == s.p2_rounds_won
            &&& (p1_down || p2_down) ==> t.round_phase == if t.p1_rounds_won >= 2
                || t.p2_rounds_won >= 2 {
                RoundPhase::MatchEnd
            } else {
                RoundPhase::KO
            }
            &&& !p1_down && !p2_down ==> t.round_phase == RoundPhase::Fighting
                && t.p1_rounds_won == s.p1_rounds_won && t.p2_rounds_won == s.p2_rounds_won
            &&& t.timer_frames == s.timer_frames - 1
            &&& t.frame_number == s.frame_number + 1
        }),
{
}

} // verus!
