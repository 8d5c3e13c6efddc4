use vstd::prelude::*;

use crate::game_sim::constants::{
    MAX_ENERGY, MAX_HEALTH, PROJECTILE_LIFETIME, ROUND_TICKS, STAGE_WIDTH,
};
use crate::game_sim::fixed::FixedPoint;
use crate::game_sim::input::Input;
use crate::game_sim::player::{
    apply_input_req, ground, spec_apply_input, spec_take_hit, spec_tick_physics, take_hit_req,
    tick_physics_req, PlayerAction, PlayerState,
};
use crate::game_sim::state::{
    stage_inputs, stage_inputs_req, stage_move, stage_move_req, stage_physics,
    stage_physics_req, stage_spawn, stage_spawn_req, GamePhase, GameState, Projectile,
    spawn_for, spawn_req, spec_move_projectile, move_projectile_req, first_inactive_from,
    lemma_first_inactive_in_range, projectile_hit, projectile_hit_req, projectile_hits_upto,
    projectile_hits_req_upto, gain_energy, melee_hit, melee_hit_req, stage_melee,
    stage_melee_req, stage_projectile_hits, stage_reset, reset_for, stage_round,
    stage_round_req, spec_fighting_tick, fighting_tick_req, spec_tick, tick_req, spec_new_round,
    spec_new_game,
};

verus! {

/// Frames since take-off of a jump whose vertical speed is now `vy`.
pub open spec fn jump_step(vy: int) -> int {
    (vy + 12000) / 500
}

/// Height (fixed-point, y grows downward) reached `k` frames after take-off.
pub open spec fn jump_height(k: int) -> int {
    500000 - 11750 * k + 250 * k * k
}

/// A player on the ground stands still vertically at ground level; a player
/// in the air follows the arc of a jump that has not landed yet.
pub open spec fn on_ground_or_arc(p: PlayerState) -> bool {
    if p.is_grounded {
        p.y.0 == ground() && p.vy.0 == 0
    } else {
        let k = jump_step(p.vy.0 as int);
        &&& p.vy.0 + 12000 == 500 * k
        &&& 0 <= k <= 46
        &&& p.y.0 == jump_height(k)
    }
}

/// Stun counters never run below zero.
pub open spec fn stun_ok(a: PlayerAction) -> bool {
    match a {
        PlayerAction::Hitstun { frames_remaining } => frames_remaining >= 0,
        PlayerAction::Blockstun { frames_remaining } => frames_remaining >= 0,
        PlayerAction::Knockdown { frames_remaining } => frames_remaining >= 0,
        _ => true,
    }
}

/// What holds of every player in a reachable game state.
pub open spec fn player_ok(p: PlayerState) -> bool {
    &&& p.facing == 1 || p.facing == -1
    &&& 0 <= p.x.0 <= STAGE_WIDTH * 1000
    &&& -8000 <= p.vx.0 <= 8000
    &&& on_ground_or_arc(p)
    &&& 0 <= p.health <= MAX_HEALTH
    &&& 0 <= p.energy <= MAX_ENERGY
    &&& 0 <= p.action_frame <= 24
    &&& stun_ok(p.action)
}

proof fn lemma_jump_height_bounds(k: int)
    requires
        0 <= k <= 46,
    ensures
        -40500 <= jump_height(k) <= 500000,
        k >= 1 ==> jump_height(k) < 500000,
{
    assert(0 <= k * k <= 46 * k) by (nonlinear_arith)
        requires
            0 <= k <= 46,
    ;
    assert(250 * k * k == 250 * (k * k)) by (nonlinear_arith);
}

proof fn lemma_jump_next(k: int)
    ensures
        jump_height(k) + (500 * k - 12000) + 500 == jump_height(k + 1),
{
    assert(250 * (k + 1) * (k + 1) == 250 * k * k + 500 * k + 250) by (nonlinear_arith);
}

/// A player's position stays where the stage and the jump arc allow.
proof fn lemma_player_ok_bounds(p: PlayerState)
    requires
        player_ok(p),
    ensures
        -40500 <= p.y.0 <= 500000,
        -12000 <= p.vy.0 <= 11000,
{
    if !p.is_grounded {
        lemma_jump_height_bounds(jump_step(p.vy.0 as int));
    }
}

pub proof fn lemma_apply_input_ok(p: PlayerState, input: Input, opponent_x: FixedPoint)
    requires
        player_ok(p),
    ensures
        apply_input_req(p),
        player_ok(spec_apply_input(p, input, opponent_x)),
        spec_apply_input(p, input, opponent_x).x == p.x,
        spec_apply_input(p, input, opponent_x).guard_meter == p.guard_meter,
{
}

pub proof fn lemma_tick_physics_ok(p: PlayerState)
    requires
        player_ok(p),
    ensures
        tick_physics_req(p),
        player_ok(spec_tick_physics(p)),
        spec_tick_physics(p).guard_meter == p.guard_meter,
{
    lemma_player_ok_bounds(p);
    if !p.is_grounded {
        let k = jump_step(p.vy.0 as int);
        lemma_jump_next(k);
        if k + 1 <= 46 {
            lemma_jump_height_bounds(k + 1);
        }
        assert(jump_step(p.vy.0 + 500) == k + 1);
    }
}

pub proof fn lemma_take_hit_ok(p: PlayerState, damage: i32, hitstun: i32)
    requires
        player_ok(p),
        0 <= damage <= 100,
        0 <= hitstun,
        p.guard_meter >= i32::MIN + 10,
    ensures
        take_hit_req(p, damage),
        player_ok(spec_take_hit(p, damage, hitstun)),
        spec_take_hit(p, damage, hitstun).guard_meter >= p.guard_meter - 10,
        spec_take_hit(p, damage, hitstun).x == p.x,
        spec_take_hit(p, damage, hitstun).y == p.y,
        spec_take_hit(p, damage, hitstun).energy == p.energy,
{
}

/// What holds of every projectile slot: a live projectile belongs to a
/// player, is near the stage and has a bounded speed, life and strength.
pub open spec fn projectile_ok(p: Projectile) -> bool {
    p.active ==> {
        &&& p.owner < 2
        &&& -100000 <= p.x.0 <= 1300000
        &&& -100000 <= p.y.0 <= 500000
        &&& -8000 <= p.vx.0 <= 8000
        &&& 1 <= p.lifetime <= PROJECTILE_LIFETIME
        &&& 0 <= p.damage <= 100
        &&& 0 <= p.hitstun
    }
}

/// Frames of the current round that have been played.
pub open spec fn frames_played(s: GameState) -> int {
    ROUND_TICKS - s.round_timer
}

/// The bounds on players, projectiles and counters, allowing `c` more combo
/// hits and `g` more guard loss than the frames played so far would allow
/// (the room that one frame uses before its clock runs down).
pub open spec fn bounds_with(s: GameState, c: int, g: int) -> bool {
    &&& player_ok(s.players[0])
    &&& player_ok(s.players[1])
    &&& forall|k: int| 0 <= k < 4 ==> projectile_ok(#[trigger] s.projectiles[k])
    &&& 0 <= s.round_timer <= ROUND_TICKS
    &&& 0 <= s.combo[0].hit_count <= frames_played(s) + c
    &&& 0 <= s.combo[1].hit_count <= frames_played(s) + c
    &&& s.players[0].guard_meter >= 100 - 60 * frames_played(s) - g
    &&& s.players[1].guard_meter >= 100 - 60 * frames_played(s) - g
}

/// The phase agrees with the clock and the scores: a round in progress has
/// time left, and nobody has two rounds before the match is over.
pub open spec fn phase_ok(s: GameState) -> bool {
    match s.phase {
        GamePhase::Fighting => {
            &&& 1 <= s.round_timer
            &&& 0 <= s.round_scores[0] <= 1
            &&& 0 <= s.round_scores[1] <= 1
        },
        GamePhase::RoundEnd { countdown, .. } => {
            &&& 0 <= countdown <= 120
            &&& 0 <= s.round_scores[0] <= 1
            &&& 0 <= s.round_scores[1] <= 1
        },
        GamePhase::MatchEnd { .. } => {
            &&& 0 <= s.round_scores[0] <= 2
            &&& 0 <= s.round_scores[1] <= 2
            &&& s.round_scores[0] == 2 || s.round_scores[1] == 2
        },
    }
}

/// A game state that play can reach from a new game.
pub open spec fn game_ok(s: GameState) -> bool {
    bounds_with(s, 0, 0) && phase_ok(s)
}

proof fn lemma_stage_inputs_ok(s: GameState, p1_input: Input, p2_input: Input)
    requires
        bounds_with(s, 0, 0),
    ensures
        stage_inputs_req(s),
        bounds_with(stage_inputs(s, p1_input, p2_input), 0, 0),
        stage_inputs(s, p1_input, p2_input).round_timer == s.round_timer,
        stage_inputs(s, p1_input, p2_input).phase == s.phase,
        stage_inputs(s, p1_input, p2_input).round_scores == s.round_scores,
{
    lemma_apply_input_ok(s.players[0], p1_input, s.players[1].x);
    lemma_apply_input_ok(s.players[1], p2_input, s.players[0].x);
    let r = stage_inputs(s, p1_input, p2_input);
    assert forall|k: int| 0 <= k < 4 implies projectile_ok(#[trigger] r.projectiles[k]) by {
        assert(r.projectiles[k] == s.projectiles[k]);
    }
}

proof fn lemma_stage_physics_ok(s: GameState)
    requires
        bounds_with(s, 0, 0),
    ensures
        stage_physics_req(s),
        bounds_with(stage_physics(s), 0, 0),
        stage_physics(s).round_timer == s.round_timer,
        stage_physics(s).phase == s.phase,
        stage_physics(s).round_scores == s.round_scores,
{
    lemma_tick_physics_ok(s.players[0]);
    lemma_tick_physics_ok(s.players[1]);
    let r = stage_physics(s);
    assert forall|k: int| 0 <= k < 4 implies projectile_ok(#[trigger] r.projectiles[k]) by {
        assert(r.projectiles[k] == s.projectiles[k]);
    }
}

proof fn lemma_spawn_ok(s: GameState, i: int)
    requires
        0 <= i < 2,
        bounds_with(s, 0, 0),
    ensures
        spawn_req(s, i),
        bounds_with(spawn_for(s, i), 0, 0),
        spawn_for(s, i).players == s.players,
        spawn_for(s, i).round_timer == s.round_timer,
        spawn_for(s, i).phase == s.phase,
        spawn_for(s, i).round_scores == s.round_scores,
        spawn_for(s, i).combo == s.combo,
{
    lemma_player_ok_bounds(s.players[i]);
    lemma_first_inactive_in_range(s.projectiles, 0);
    let r = spawn_for(s, i);
    assert forall|k: int| 0 <= k < 4 implies projectile_ok(#[trigger] r.projectiles[k]) by {
        if r.projectiles[k] != s.projectiles[k] {
            let p = s.players[i];
            assert(p.facing == 1 || p.facing == -1);
        }
    }
}

proof fn lemma_stage_spawn_ok(s: GameState)
    requires
        bounds_with(s, 0, 0),
    ensures
        stage_spawn_req(s),
        bounds_with(stage_spawn(s), 0, 0),
        stage_spawn(s).players == s.players,
        stage_spawn(s).round_timer == s.round_timer,
        stage_spawn(s).phase == s.phase,
        stage_spawn(s).round_scores == s.round_scores,
        stage_spawn(s).combo == s.combo,
{
    lemma_spawn_ok(s, 0);
    lemma_spawn_ok(spawn_for(s, 0), 1);
}

proof fn lemma_move_projectile_ok(p: Projectile)
    requires
        projectile_ok(p),
    ensures
        move_projectile_req(p),
        projectile_ok(spec_move_projectile(p)),
        spec_move_projectile(p).active ==> 0 <= spec_move_projectile(p).x.0 <= STAGE_WIDTH
            * 1000,
{
}

proof fn lemma_stage_move_ok(s: GameState)
    requires
        bounds_with(s, 0, 0),
    ensures
        stage_move_req(s),
        bounds_with(stage_move(s), 0, 0),
        stage_move(s).players == s.players,
        stage_move(s).round_timer == s.round_timer,
        stage_move(s).phase == s.phase,
        stage_move(s).round_scores == s.round_scores,
        stage_move(s).combo == s.combo,
{
    let r = stage_move(s);
    assert forall|k: int| 0 <= k < 4 implies move_projectile_req(#[trigger] s.projectiles[k])
        && projectile_ok(r.projectiles[k]) by {
        lemma_move_projectile_ok(s.projectiles[k]);
    }
    assert forall|k: int| 0 <= k < 4 implies projectile_ok(#[trigger] r.projectiles[k]) by {
        lemma_move_projectile_ok(s.projectiles[k]);
    }
}

proof fn lemma_gain_energy_ok(p: PlayerState)
    requires
        player_ok(p),
    ensures
        player_ok(gain_energy(p)),
        gain_energy(p).guard_meter == p.guard_meter,
{
}

proof fn lemma_projectile_hit_ok(s: GameState, k: int, g: int)
    requires
        0 <= k < 4,
        0 <= g <= 40,
        bounds_with(s, 0, g),
    ensures
        projectile_hit_req(s, k),
        bounds_with(projectile_hit(s, k), 0, g + 10),
        projectile_hit(s, k).round_timer == s.round_timer,
        projectile_hit(s, k).phase == s.phase,
        projectile_hit(s, k).round_scores == s.round_scores,
        projectile_hit(s, k).combo == s.combo,
        projectile_hit(s, k).frame_number == s.frame_number,
{
    let p = s.projectiles[k];
    if p.active {
        let d = 1 - p.owner;
        let a = p.owner as int;
        lemma_player_ok_bounds(s.players[d]);
        lemma_take_hit_ok(s.players[d], p.damage, p.hitstun);
        lemma_gain_energy_ok(s.players[a]);
        let r = projectile_hit(s, k);
        assert forall|j: int| 0 <= j < 4 implies projectile_ok(#[trigger] r.projectiles[j]) by {
            assert(projectile_ok(s.projectiles[j]));
        }
    }
}

proof fn lemma_projectile_hits_ok(s: GameState, n: int)
    requires
        0 <= n <= 4,
        bounds_with(s, 0, 0),
    ensures
        projectile_hits_req_upto(s, n),
        bounds_with(projectile_hits_upto(s, n), 0, 10 * n),
        projectile_hits_upto(s, n).round_timer == s.round_timer,
        projectile_hits_upto(s, n).phase == s.phase,
        projectile_hits_upto(s, n).round_scores == s.round_scores,
        projectile_hits_upto(s, n).combo == s.combo,
        projectile_hits_upto(s, n).frame_number == s.frame_number,
    decreases n,
{
    if n > 0 {
        lemma_projectile_hits_ok(s, n - 1);
        lemma_projectile_hit_ok(projectile_hits_upto(s, n - 1), n - 1, 10 * (n - 1));
    }
}

proof fn lemma_melee_hit_ok(s: GameState, a: int, c: int, g: int)
    requires
        0 <= a < 2,
        0 <= c <= 1,
        0 <= g <= 50,
        bounds_with(s, c, g),
    ensures
        melee_hit_req(s, a),
        bounds_with(melee_hit(s, a), c + 1, g + 10),
        melee_hit(s, a).combo[1 - a] == s.combo[1 - a],
        melee_hit(s, a).combo[a].hit_count <= s.combo[a].hit_count + 1,
        melee_hit(s, a).round_timer == s.round_timer,
        melee_hit(s, a).phase == s.phase,
        melee_hit(s, a).round_scores == s.round_scores,
        melee_hit(s, a).frame_number == s.frame_number,
        melee_hit(s, a).projectiles == s.projectiles,
{
    let d = 1 - a;
    lemma_player_ok_bounds(s.players[a]);
    lemma_player_ok_bounds(s.players[d]);
    let action = s.players[a].action;
    let n = s.combo[a].hit_count + 1;
    let hs = crate::game_sim::state::scaled_hitstun(
        crate::game_sim::player::spec_attack_hitstun(action),
        crate::game_sim::combo::combo_scale(n),
    );
    lemma_take_hit_ok(
        s.players[d],
        crate::game_sim::player::spec_attack_damage(action),
        hs as i32,
    );
    lemma_gain_energy_ok(
        spec_take_hit(s.players[d], crate::game_sim::player::spec_attack_damage(action), hs as i32),
    );
    lemma_gain_energy_ok(s.players[a]);
}

proof fn lemma_stage_melee_ok(s: GameState)
    requires
        bounds_with(s, 0, 40),
    ensures
        stage_melee_req(s),
        bounds_with(stage_melee(s), 1, 60),
        stage_melee(s).round_timer == s.round_timer,
        stage_melee(s).phase == s.phase,
        stage_melee(s).round_scores == s.round_scores,
        stage_melee(s).frame_number == s.frame_number,
{
    lemma_melee_hit_ok(s, 0, 0, 40);
    let s1 = melee_hit(s, 0);
    lemma_melee_hit_ok(s1, 1, 1, 50);
    let s2 = melee_hit(s1, 1);
    assert(s2.combo[0] == s1.combo[0]);
}

proof fn lemma_stage_reset_ok(s: GameState)
    requires
        bounds_with(s, 1, 60),
    ensures
        bounds_with(stage_reset(s), 1, 60),
        stage_reset(s).round_timer == s.round_timer,
        stage_reset(s).phase == s.phase,
        stage_reset(s).round_scores == s.round_scores,
        stage_reset(s).frame_number == s.frame_number,
{
    let s1 = reset_for(s, 0);
    let s2 = reset_for(s1, 1);
    assert(s1.players == s.players && s1.projectiles == s.projectiles);
    assert(s2.players == s.players && s2.projectiles == s.projectiles);
}

proof fn lemma_stage_round_ok(s: GameState)
    requires
        bounds_with(s, 1, 60),
        phase_ok(s),
        s.phase == GamePhase::Fighting,
    ensures
        stage_round_req(s),
        bounds_with(stage_round(s), 0, 0),
        phase_ok(stage_round(s)),
        stage_round(s).round_timer == s.round_timer - 1,
        stage_round(s).round_timer <= 0 ==> stage_round(s).phase != GamePhase::Fighting,
        stage_round(s).frame_number == s.frame_number,
{
    let r = stage_round(s);
    assert(r.players == s.players && r.projectiles == s.projectiles && r.combo == s.combo);
}

proof fn lemma_fighting_tick_ok(s: GameState, p1_input: Input, p2_input: Input)
    requires
        game_ok(s),
        s.phase == GamePhase::Fighting,
        s.frame_number < u64::MAX,
    ensures
        fighting_tick_req(s, p1_input, p2_input),
        game_ok(spec_fighting_tick(s, p1_input, p2_input)),
        spec_fighting_tick(s, p1_input, p2_input).round_timer == s.round_timer - 1,
{
    lemma_stage_inputs_ok(s, p1_input, p2_input);
    let s1 = stage_inputs(s, p1_input, p2_input);
    lemma_stage_physics_ok(s1);
    let s2 = stage_physics(s1);
    lemma_stage_spawn_ok(s2);
    let s3 = stage_spawn(s2);
    lemma_stage_move_ok(s3);
    let s4 = stage_move(s3);
    lemma_projectile_hits_ok(s4, 4);
    let s5 = stage_projectile_hits(s4);
    lemma_stage_melee_ok(s5);
    let s6 = stage_melee(s5);
    lemma_stage_reset_ok(s6);
    let s7 = stage_reset(s6);
    lemma_stage_round_ok(s7);
}

/// The state after playing the frames of `inputs` in order, each a pair of
/// player 1's and player 2's input.
pub open spec fn play(s: GameState, inputs: Seq<(Input, Input)>) -> GameState
    decreases inputs.len(),
{
    if inputs.len() == 0 {
        s
    } else {
        play(spec_tick(s, inputs[0].0, inputs[0].1), inputs.drop_first())
    }
}

/// Every frame of `inputs`, played in order from `s`, can be ticked without
/// overflow.
pub open spec fn playable(s: GameState, inputs: Seq<(Input, Input)>) -> bool
    decreases inputs.len(),
{
    if inputs.len() == 0 {
        true
    } else {
        tick_req(s, inputs[0].0, inputs[0].1) && playable(
            spec_tick(s, inputs[0].0, inputs[0].1),
            inputs.drop_first(),
        )
    }
}

/// A new game is a reachable state: both players stand on the ground with
/// full health, the clock is full and no projectile flies.
pub proof fn law_new_game_ok(p1_element: crate::game_sim::player::Element, p2_element: crate::game_sim::player::Element)
    ensures
        game_ok(spec_new_game(p1_element, p2_element)),
{
    let s = spec_new_game(p1_element, p2_element);
    assert forall|k: int| 0 <= k < 4 implies projectile_ok(#[trigger] s.projectiles[k]) by {}
}

/// From every reachable state a frame can be played with any inputs without
/// overflow, and it leads to a reachable state again (as long as the frame
/// and round counters have room to count).
pub proof fn law_tick_keeps_game_ok(s: GameState, p1_input: Input, p2_input: Input)
    requires
        game_ok(s),
        s.frame_number < u64::MAX,
        s.round_number < i32::MAX,
    ensures
        tick_req(s, p1_input, p2_input),
        game_ok(spec_tick(s, p1_input, p2_input)),
{
    reveal(spec_tick);
    match s.phase {
        GamePhase::Fighting => {
            lemma_fighting_tick_ok(s, p1_input, p2_input);
        },
        GamePhase::RoundEnd { winner, countdown } => {
            let r = spec_tick(s, p1_input, p2_input);
            if countdown <= 0 {
                assert forall|k: int| 0 <= k < 4 implies projectile_ok(
                    #[trigger] r.projectiles[k],
                ) by {}
            } else {
                assert(r.players == s.players && r.projectiles == s.projectiles);
            }
        },
        GamePhase::MatchEnd { .. } => {},
    }
}

/// In every reachable state each player's health lies in `0..=MAX_HEALTH`
/// and energy in `0..=MAX_ENERGY`, and no combo is longer than the frames
/// played in the round.
pub proof fn law_meters_bounded(s: GameState)
    requires
        game_ok(s),
    ensures
        forall|i: int|
            0 <= i < 2 ==> {
                &&& 0 <= #[trigger] s.players[i].health <= MAX_HEALTH
                &&& 0 <= s.players[i].energy <= MAX_ENERGY
                &&& 0 <= s.combo[i].hit_count <= ROUND_TICKS - s.round_timer
            },
{
}

/// During a round the clock runs down by one each frame, and the frame that
/// takes the last tick of the clock ends the round.
pub proof fn law_round_clock(s: GameState, p1_input: Input, p2_input: Input)
    requires
        game_ok(s),
        s.phase == GamePhase::Fighting,
        s.frame_number < u64::MAX,
    ensures
        spec_tick(s, p1_input, p2_input).round_timer == s.round_timer - 1,
        s.round_timer == 1 ==> spec_tick(s, p1_input, p2_input).phase != GamePhase::Fighting,
{
    reveal(spec_tick);
    lemma_fighting_tick_ok(s, p1_input, p2_input);
    let s1 = stage_inputs(s, p1_input, p2_input);
    let s2 = stage_physics(s1);
    let s3 = stage_spawn(s2);
    let s4 = stage_move(s3);
    let s5 = stage_projectile_hits(s4);
    let s6 = stage_melee(s5);
    let s7 = stage_reset(s6);
    lemma_stage_inputs_ok(s, p1_input, p2_input);
    lemma_stage_physics_ok(s1);
    lemma_stage_spawn_ok(s2);
    lemma_stage_move_ok(s3);
    lemma_projectile_hits_ok(s4, 4);
    lemma_stage_melee_ok(s5);
    lemma_stage_reset_ok(s6);
    lemma_stage_round_ok(s7);
}

/// A match is over only once a player has won two rounds, and from then on
/// no frame changes anything.
pub proof fn law_match_end(s: GameState, p1_input: Input, p2_input: Input)
    requires
        game_ok(s),
        s.phase is MatchEnd,
    ensures
        s.round_scores[0] == 2 || s.round_scores[1] == 2,
        spec_tick(s, p1_input, p2_input) == s,
{
    reveal(spec_tick);
}

/// Checking projectiles leaves the round counter alone.
proof fn lemma_projectile_hits_keep_round(s: GameState, n: int)
    ensures
        projectile_hits_upto(s, n).round_number == s.round_number,
    decreases n,
{
    if n > 0 {
        lemma_projectile_hits_keep_round(s, n - 1);
    }
}

/// Each frame counts one frame, and at most one new round.
pub proof fn law_tick_counters(s: GameState, p1_input: Input, p2_input: Input)
    requires
        game_ok(s),
        s.frame_number < u64::MAX,
        s.round_number < i32::MAX,
    ensures
        spec_tick(s, p1_input, p2_input).frame_number <= s.frame_number + 1,
        s.round_number <= spec_tick(s, p1_input, p2_input).round_number <= s.round_number + 1,
{
    reveal(spec_tick);
    if s.phase == GamePhase::Fighting {
        lemma_fighting_step(s, p1_input, p2_input);
        let s1 = stage_inputs(s, p1_input, p2_input);
        let s2 = stage_physics(s1);
        let s3 = stage_spawn(s2);
        let s4 = stage_move(s3);
        lemma_projectile_hits_keep_round(s4, 4);
    }
}

/// From a reachable state any finite run of frames can be played without
/// overflow (given room in the frame and round counters) and ends in a
/// reachable state.
pub proof fn law_play_keeps_game_ok(s: GameState, inputs: Seq<(Input, Input)>)
    requires
        game_ok(s),
        s.frame_number + inputs.len() <= u64::MAX,
        s.round_number + inputs.len() < i32::MAX,
    ensures
        playable(s, inputs),
        game_ok(play(s, inputs)),
    decreases inputs.len(),
{
    if inputs.len() > 0 {
        let (a, b) = inputs[0];
        law_tick_keeps_game_ok(s, a, b);
        law_tick_counters(s, a, b);
        law_play_keeps_game_ok(spec_tick(s, a, b), inputs.drop_first());
    }
}

/// Whatever the players do, every frame of a game started by
/// `GameState::new` can be played, and after any number of frames each
/// player's health stays in `0..=MAX_HEALTH` and energy in `0..=MAX_ENERGY`
/// (for fewer frames than the round counter can count).
pub proof fn law_new_game_meters(
    p1_element: crate::game_sim::player::Element,
    p2_element: crate::game_sim::player::Element,
    inputs: Seq<(Input, Input)>,
)
    requires
        inputs.len() < i32::MAX - 1,
    ensures
        playable(spec_new_game(p1_element, p2_element), inputs),
        forall|i: int|
            0 <= i < 2 ==> {
                &&& 0 <= #[trigger] play(spec_new_game(p1_element, p2_element), inputs).players[i].health
                    <= MAX_HEALTH
                &&& 0 <= play(spec_new_game(p1_element, p2_element), inputs).players[i].energy
                    <= MAX_ENERGY
            },
{
    law_new_game_ok(p1_element, p2_element);
    law_play_keeps_game_ok(spec_new_game(p1_element, p2_element), inputs);
}

/// The first round of a game started by `GameState::new` is over within
/// 90 * 60 = 5400 frames, whatever the players do.
pub proof fn law_first_round_ends(
    p1_element: crate::game_sim::player::Element,
    p2_element: crate::game_sim::player::Element,
    inputs: Seq<(Input, Input)>,
)
    requires
        inputs.len() >= ROUND_TICKS,
    ensures
        exists|j: int|
            1 <= j <= ROUND_TICKS && #[trigger] play(
                spec_new_game(p1_element, p2_element),
                inputs.take(j),
            ).phase != GamePhase::Fighting,
{
    law_new_game_ok(p1_element, p2_element);
    law_round_ends(spec_new_game(p1_element, p2_element), inputs);
}

/// One frame of a round in progress, summed up.
proof fn lemma_fighting_step(s: GameState, p1_input: Input, p2_input: Input)
    requires
        game_ok(s),
        s.phase == GamePhase::Fighting,
        s.frame_number < u64::MAX,
    ensures
        game_ok(spec_tick(s, p1_input, p2_input)),
        spec_tick(s, p1_input, p2_input).round_timer == s.round_timer - 1,
        spec_tick(s, p1_input, p2_input).frame_number == s.frame_number + 1,
        s.round_timer == 1 ==> spec_tick(s, p1_input, p2_input).phase != GamePhase::Fighting,
{
    reveal(spec_tick);
    law_round_clock(s, p1_input, p2_input);
    lemma_fighting_tick_ok(s, p1_input, p2_input);
    crate::game_sim::state::lemma_fighting_stages_keep_frame(s, p1_input, p2_input);
}

/// Playing a first frame, then the rest.
proof fn lemma_play_take(s: GameState, inputs: Seq<(Input, Input)>, j: int)
    requires
        1 <= j <= inputs.len(),
    ensures
        play(s, inputs.take(j)) == play(
            spec_tick(s, inputs[0].0, inputs[0].1),
            inputs.drop_first().take(j - 1),
        ),
{
    assert(inputs.take(j).drop_first() =~= inputs.drop_first().take(j - 1));
    assert(inputs.take(j)[0] == inputs[0]);
}

/// Every round ends: whatever the players do, a round in progress is over
/// (a knock-out or the end of time) within the frames left on its clock.
pub proof fn law_round_ends(s: GameState, inputs: Seq<(Input, Input)>)
    requires
        game_ok(s),
        s.phase == GamePhase::Fighting,
        inputs.len() >= s.round_timer,
        s.frame_number + s.round_timer <= u64::MAX,
    ensures
        exists|j: int|
            1 <= j <= s.round_timer && #[trigger] play(s, inputs.take(j)).phase
                != GamePhase::Fighting,
    decreases s.round_timer,
{
    let t = spec_tick(s, inputs[0].0, inputs[0].1);
    lemma_fighting_step(s, inputs[0].0, inputs[0].1);
    lemma_play_take(s, inputs, 1);
    assert(inputs.drop_first().take(0) =~= Seq::<(Input, Input)>::empty());
    if t.phase != GamePhase::Fighting {
        assert(play(s, inputs.take(1)).phase != GamePhase::Fighting);
    } else {
        let rest = inputs.drop_first();
        law_round_ends(t, rest);
        let j0 = choose|j: int|
            1 <= j <= t.round_timer && #[trigger] play(t, rest.take(j)).phase
                != GamePhase::Fighting;
        lemma_play_take(s, inputs, j0 + 1);
        assert(play(s, inputs.take(j0 + 1)).phase != GamePhase::Fighting);
    }
}

fn check_player(p: &PlayerState) -> (r: bool)
    ensures
        r == player_ok(*p),
{
    let arc_ok = if p.is_grounded {
        p.y.0 == 500000 && p.vy.0 == 0
    } else {
        let t: i64 = p.vy.0 as i64 + 12000;
        if t < 0 || t % 500 != 0 {
            false
        } else {
            let k: i64 = t / 500;
            if k > 46 {
                false
            } else {
                proof {
                    assert(0 <= 250 * k * k <= 250 * 46 * 46) by (nonlinear_arith)
                        requires
                            0 <= k <= 46,
                    ;
                    assert(0 <= 250 * k <= 250 * 46);
                }
                p.y.0 as i64 == 500000 - 11750 * k + 250 * k * k
            }
        }
    };
    proof {
        if !p.is_grounded {
            let t = p.vy.0 + 12000;
            if t < 0 {
                assert(jump_step(p.vy.0 as int) < 0);
            }
        }
    }
    let stun = match p.action {
        PlayerAction::Hitstun { frames_remaining } => frames_remaining >= 0,
        PlayerAction::Blockstun { frames_remaining } => frames_remaining >= 0,
        PlayerAction::Knockdown { frames_remaining } => frames_remaining >= 0,
        _ => true,
    };
    (p.facing == 1 || p.facing == -1) && 0 <= p.x.0 && p.x.0 <= STAGE_WIDTH * 1000 && -8000
        <= p.vx.0 && p.vx.0 <= 8000 && arc_ok && 0 <= p.health && p.health <= MAX_HEALTH && 0
        <= p.energy && p.energy <= MAX_ENERGY && 0 <= p.action_frame && p.action_frame <= 24
        && stun
}

fn check_projectile(p: &Projectile) -> (r: bool)
    ensures
        r == projectile_ok(*p),
{
    !p.active || (p.owner < 2 && -100000 <= p.x.0 && p.x.0 <= 1300000 && -100000 <= p.y.0
        && p.y.0 <= 500000 && -8000 <= p.vx.0 && p.vx.0 <= 8000 && 1 <= p.lifetime
        && p.lifetime <= PROJECTILE_LIFETIME && 0 <= p.damage && p.damage <= 100 && 0
        <= p.hitstun)
}

/// Whether a state is one that play can reach, as `game_ok` describes it:
/// a state for which `GameState::tick` may be called (given room in the
/// frame and round counters).
pub fn is_reachable(s: &GameState) -> (r: bool)
    ensures
        r == game_ok(*s),
{
    if !(0 <= s.round_timer && s.round_timer <= ROUND_TICKS) {
        return false;
    }
    let played: i64 = ROUND_TICKS as i64 - s.round_timer as i64;
    let projectiles_ok = check_projectile(&s.projectiles[0]) && check_projectile(
        &s.projectiles[1],
    ) && check_projectile(&s.projectiles[2]) && check_projectile(&s.projectiles[3]);
    proof {
        if projectiles_ok {
            assert forall|k: int| 0 <= k < 4 implies projectile_ok(#[trigger] s.projectiles[k]) by {
                if k == 0 {
                } else if k == 1 {
                } else if k == 2 {
                } else {
                }
            }
        }
    }
    let bounds = check_player(&s.players[0]) && check_player(&s.players[1]) && projectiles_ok
        && 0 <= s.combo[0].hit_count && s.combo[0].hit_count as i64 <= played && 0
        <= s.combo[1].hit_count && s.combo[1].hit_count as i64 <= played
        && s.players[0].guard_meter as i64 >= 100 - 60 * played && s.players[1].guard_meter
        as i64 >= 100 - 60 * played;
    let phase = match s.phase {
        GamePhase::Fighting => 1 <= s.round_timer && 0 <= s.round_scores[0]
            && s.round_scores[0] <= 1 && 0 <= s.round_scores[1] && s.round_scores[1] <= 1,
        GamePhase::RoundEnd { countdown, .. } => 0 <= countdown && countdown <= 120 && 0
            <= s.round_scores[0] && s.round_scores[0] <= 1 && 0 <= s.round_scores[1]
            && s.round_scores[1] <= 1,
        GamePhase::MatchEnd { .. } => 0 <= s.round_scores[0] && s.round_scores[0] <= 2 && 0
            <= s.round_scores[1] && s.round_scores[1] <= 2 && (s.round_scores[0] == 2
            || s.round_scores[1] == 2),
    };
    bounds && phase
}

} // verus!
