use vstd::prelude::*;
use vstd::array::spec_array_update;

use crate::game_sim::collision::{check_hit, overlaps, spec_any_hit, spec_overlaps, AABB};
use crate::game_sim::combo::{combo_scale, ComboState};
use crate::game_sim::crc32::{crc32, crc32_of_values, values_bytes};
use crate::game_sim::constants::{
    ENERGY_PER_HIT, MAX_ENERGY, PROJECTILE_DAMAGE, PROJECTILE_HITSTUN, PROJECTILE_LIFETIME,
    PROJECTILE_SPEED, ROUND_TIME_SECONDS, STAGE_WIDTH, TICKS_PER_SECOND,
};
use crate::game_sim::fixed::{div_toward_zero, FixedPoint};
use crate::game_sim::input::Input;
use crate::game_sim::player::{
    apply_input_req, attack_damage, attack_hitstun, hitbox_active, spec_apply_input,
    spec_attack_damage, spec_attack_hitstun, spec_hitboxes, spec_hurtboxes, spec_new_player,
    spec_take_hit, spec_tick_physics, take_hit_req, tick_physics_req, Element, PlayerAction,
    PlayerState,
};

verus! {

pub const MAX_PROJECTILES: usize = 4;

#[derive(Debug, Clone, Copy)]
pub struct Projectile {
    pub active: bool,
    pub x: FixedPoint,
    pub y: FixedPoint,
    pub vx: FixedPoint,
    pub owner: usize,
    pub damage: i32,
    pub hitstun: i32,
    pub lifetime: i32,
    pub element: Element,
}

pub open spec fn spec_empty_projectile() -> Projectile {
    Projectile {
        active: false,
        x: FixedPoint(0),
        y: FixedPoint(0),
        vx: FixedPoint(0),
        owner: 0,
        damage: 0,
        hitstun: 0,
        lifetime: 0,
        element: Element::Fire,
    }
}

impl Projectile {
    pub fn empty() -> (r: Self)
        ensures
            r == spec_empty_projectile(),
    {
        Projectile {
            active: false,
            x: FixedPoint(0),
            y: FixedPoint(0),
            vx: FixedPoint(0),
            owner: 0,
            damage: 0,
            hitstun: 0,
            lifetime: 0,
            element: Element::Fire,
        }
    }
}

#[derive(Debug, Clone, Copy, PartialEq, Eq, Structural)]
pub enum GamePhase {
    Fighting,
    RoundEnd { winner: i32, countdown: i32 },
    MatchEnd { winner: i32 },
}

#[derive(Debug, Clone, Copy)]
pub struct GameState {
    pub players: [PlayerState; 2],
    pub combo: [ComboState; 2],
    pub projectiles: [Projectile; MAX_PROJECTILES],
    pub round_timer: i32,
    pub round_number: i32,
    pub round_scores: [i32; 2],
    pub frame_number: u64,
    pub phase: GamePhase,
    /// Which player landed a hit during the current frame (scratch state of `tick`).
    pub hit_this_frame: [bool; 2],
}

// ---------------------------------------------------------------------------
// Small state updates used by the model of a frame.

pub open spec fn with_player(s: GameState, i: int, p: PlayerState) -> GameState {
    GameState { players: spec_array_update(s.players, i, p), ..s }
}

pub open spec fn with_combo(s: GameState, i: int, c: ComboState) -> GameState {
    GameState { combo: spec_array_update(s.combo, i, c), ..s }
}

pub open spec fn with_projectile(s: GameState, i: int, p: Projectile) -> GameState {
    GameState { projectiles: spec_array_update(s.projectiles, i, p), ..s }
}

pub open spec fn with_hit(s: GameState, i: int) -> GameState {
    GameState { hit_this_frame: spec_array_update(s.hit_this_frame, i, true), ..s }
}

/// Ticks in a round.
pub open spec fn round_ticks() -> int {
    ROUND_TIME_SECONDS * TICKS_PER_SECOND
}

/// A fresh combo counter.
pub open spec fn spec_new_combo() -> ComboState {
    ComboState { hit_count: 0, hitstun_scale: FixedPoint(1000) }
}

/// Player 2's starting state: at x = 900 px, facing left.
pub open spec fn spec_new_player2(element: Element) -> PlayerState {
    PlayerState { facing: -1i8, ..spec_new_player(FixedPoint(900000), element) }
}

pub open spec fn spec_new_game(p1_element: Element, p2_element: Element) -> GameState {
    GameState {
        players: [spec_new_player(FixedPoint(300000), p1_element), spec_new_player2(p2_element)],
        combo: [spec_new_combo(), spec_new_combo()],
        projectiles: [
            spec_empty_projectile(),
            spec_empty_projectile(),
            spec_empty_projectile(),
            spec_empty_projectile(),
        ],
        round_timer: round_ticks() as i32,
        round_number: 1,
        round_scores: [0, 0],
        frame_number: 0,
        phase: GamePhase::Fighting,
        hit_this_frame: [false, false],
    }
}

// ---------------------------------------------------------------------------
// The model of one frame, stage by stage.

/// Both players read their input (each sees the other's position).
pub open spec fn stage_inputs(s: GameState, p1_input: Input, p2_input: Input) -> GameState {
    let p0 = spec_apply_input(s.players[0], p1_input, s.players[1].x);
    let p1 = spec_apply_input(s.players[1], p2_input, s.players[0].x);
    with_player(with_player(s, 0, p0), 1, p1)
}

pub open spec fn stage_inputs_req(s: GameState) -> bool {
    apply_input_req(s.players[0]) && apply_input_req(s.players[1])
}

/// Both players move; the per-frame hit flags are cleared.
pub open spec fn stage_physics(s: GameState) -> GameState {
    GameState {
        hit_this_frame: [false, false],
        ..with_player(
            with_player(s, 0, spec_tick_physics(s.players[0])),
            1,
            spec_tick_physics(s.players[1]),
        )
    }
}

pub open spec fn stage_physics_req(s: GameState) -> bool {
    tick_physics_req(s.players[0]) && tick_physics_req(s.players[1])
}

/// A player releases a fireball on frame 8 of its Fireball action.
pub open spec fn casts_fireball(p: PlayerState) -> bool {
    p.action == PlayerAction::Fireball && p.action_frame == 8
}

/// The first inactive projectile slot at or after `k`.
pub open spec fn first_inactive_from(ps: [Projectile; 4], k: int) -> Option<int>
    decreases 4 - k,
{
    if k >= 4 || k < 0 {
        None
    } else if !ps[k].active {
        Some(k)
    } else {
        first_inactive_from(ps, k + 1)
    }
}

/// The projectile that player `i` releases.
pub open spec fn spec_new_projectile(p: PlayerState, i: usize) -> Projectile {
    Projectile {
        active: true,
        x: FixedPoint((p.x.0 + 30 * p.facing * 1000) as i32),
        y: FixedPoint((p.y.0 - 50000) as i32),
        vx: FixedPoint((PROJECTILE_SPEED * p.facing * 1000) as i32),
        owner: i,
        damage: PROJECTILE_DAMAGE,
        hitstun: PROJECTILE_HITSTUN,
        lifetime: PROJECTILE_LIFETIME,
        element: p.element,
    }
}

/// Player `i` casts its fireball into the first free slot, if there is one.
pub open spec fn spawn_for(s: GameState, i: int) -> GameState {
    if casts_fireball(s.players[i]) {
        match first_inactive_from(s.projectiles, 0) {
            Some(k) => with_projectile(s, k, spec_new_projectile(s.players[i], i as usize)),
            None => s,
        }
    } else {
        s
    }
}

pub open spec fn spawn_req(s: GameState, i: int) -> bool {
    casts_fireball(s.players[i]) ==> {
        &&& i32::MIN <= s.players[i].x.0 + 30 * s.players[i].facing * 1000 <= i32::MAX
        &&& s.players[i].y.0 - 50000 >= i32::MIN
    }
}

pub open spec fn stage_spawn(s: GameState) -> GameState {
    spawn_for(spawn_for(s, 0), 1)
}

pub open spec fn stage_spawn_req(s: GameState) -> bool {
    spawn_req(s, 0) && spawn_req(spawn_for(s, 0), 1)
}

/// An active projectile flies on and fades at the end of its life or off stage.
pub open spec fn spec_move_projectile(p: Projectile) -> Projectile {
    if !p.active {
        p
    } else {
        let x = p.x.0 + p.vx.0;
        let l = p.lifetime - 1;
        Projectile {
            x: FixedPoint(x as i32),
            lifetime: l as i32,
            active: !(l <= 0 || x < 0 || x > STAGE_WIDTH * 1000),
            ..p
        }
    }
}

pub open spec fn move_projectile_req(p: Projectile) -> bool {
    p.active ==> (i32::MIN <= p.x.0 + p.vx.0 <= i32::MAX && p.lifetime > i32::MIN)
}

pub open spec fn stage_move(s: GameState) -> GameState {
    GameState {
        projectiles: [
            spec_move_projectile(s.projectiles[0]),
            spec_move_projectile(s.projectiles[1]),
            spec_move_projectile(s.projectiles[2]),
            spec_move_projectile(s.projectiles[3]),
        ],
        ..s
    }
}

pub open spec fn stage_move_req(s: GameState) -> bool {
    forall|k: int| 0 <= k < 4 ==> move_projectile_req(#[trigger] s.projectiles[k])
}

/// The box a projectile hits with: 20 px square around its position.
pub open spec fn spec_projectile_box(p: Projectile) -> AABB {
    AABB {
        x: FixedPoint((p.x.0 - 10000) as i32),
        y: FixedPoint((p.y.0 - 10000) as i32),
        w: FixedPoint(20000),
        h: FixedPoint(20000),
    }
}

/// The box overlaps one of the present boxes.
pub open spec fn box_hits_any(b: AABB, hurts: [Option<AABB>; 4]) -> bool {
    exists|j: int| 0 <= j < 4 && #[trigger] hurts[j] is Some && spec_overlaps(b, hurts[j]->0)
}

/// The attacker's energy after landing a hit.
pub open spec fn gain_energy(p: PlayerState) -> PlayerState {
    PlayerState {
        energy: (if p.energy + ENERGY_PER_HIT < MAX_ENERGY {
            p.energy + ENERGY_PER_HIT
        } else {
            MAX_ENERGY as int
        }) as i32,
        ..p
    }
}

/// Whether projectile `k` is active and hits its owner's opponent.
pub open spec fn projectile_connects(s: GameState, k: int) -> bool {
    let p = s.projectiles[k];
    p.active && box_hits_any(spec_projectile_box(p), spec_hurtboxes(s.players[1 - p.owner]))
}

/// Projectile `k`, if it connects, hits the opponent, feeds its owner's
/// energy and disappears.
pub open spec fn projectile_hit(s: GameState, k: int) -> GameState {
    let p = s.projectiles[k];
    if projectile_connects(s, k) {
        let d = 1 - p.owner;
        let a = p.owner as int;
        let s1 = with_player(s, d, spec_take_hit(s.players[d], p.damage, p.hitstun));
        let s2 = with_hit(s1, a);
        let s3 = with_player(s2, a, gain_energy(s2.players[a]));
        with_projectile(s3, k, Projectile { active: false, ..p })
    } else {
        s
    }
}

/// The hurtboxes of a player can be computed and compared without overflow.
pub open spec fn hurtboxes_usable(p: PlayerState) -> bool {
    !(p.action is Knockdown) ==> (i32::MIN + 20000 <= p.x.0 <= i32::MAX - 20000 && p.y.0
        >= i32::MIN + 100000)
}

/// The hitboxes of a player can be computed and compared without overflow.
pub open spec fn hitboxes_usable(p: PlayerState) -> bool {
    hitbox_active(p) ==> (i32::MIN + 80000 <= p.x.0 <= i32::MAX - 80000 && p.y.0 >= i32::MIN
        + 80000)
}

pub open spec fn projectile_hit_req(s: GameState, k: int) -> bool {
    let p = s.projectiles[k];
    p.active ==> {
        &&& p.owner < 2
        &&& i32::MIN + 10000 <= p.x.0 <= i32::MAX - 10000
        &&& i32::MIN + 10000 <= p.y.0 <= i32::MAX - 10000
        &&& hurtboxes_usable(s.players[1 - p.owner])
        &&& projectile_connects(s, k) ==> {
            &&& take_hit_req(s.players[1 - p.owner], p.damage)
            &&& s.players[p.owner as int].energy + ENERGY_PER_HIT <= i32::MAX
        }
    }
}

/// The state after projectiles `0..n` have been checked against the players.
pub open spec fn projectile_hits_upto(s: GameState, n: int) -> GameState
    decreases n,
{
    if n <= 0 {
        s
    } else {
        projectile_hit(projectile_hits_upto(s, n - 1), n - 1)
    }
}

pub open spec fn projectile_hits_req_upto(s: GameState, n: int) -> bool
    decreases n,
{
    if n <= 0 {
        true
    } else {
        projectile_hits_req_upto(s, n - 1) && projectile_hit_req(
            projectile_hits_upto(s, n - 1),
            n - 1,
        )
    }
}

pub open spec fn stage_projectile_hits(s: GameState) -> GameState {
    projectile_hits_upto(s, 4)
}

/// Whether attacker `a`'s active hitbox touches the opponent's hurtboxes.
pub open spec fn melee_connects(s: GameState, a: int) -> bool {
    spec_any_hit(spec_hitboxes(s.players[a])@, spec_hurtboxes(s.players[1 - a])@)
}

/// Hitstun of a melee hit after combo scaling: at least 4 frames.
pub open spec fn scaled_hitstun(base: i32, scale: int) -> int {
    let h = div_toward_zero(base * scale, 1000);
    if h < 4 {
        4
    } else {
        h
    }
}

/// Attacker `a`, if its hitbox connects, extends its combo and hits the opponent.
pub open spec fn melee_hit(s: GameState, a: int) -> GameState {
    if melee_connects(s, a) {
        let d = 1 - a;
        let action = s.players[a].action;
        let n = s.combo[a].hit_count + 1;
        let c = ComboState { hit_count: n as i32, hitstun_scale: FixedPoint(combo_scale(n) as i32) };
        let s1 = with_combo(s, a, c);
        let hs = scaled_hitstun(spec_attack_hitstun(action), combo_scale(n));
        let s2 = with_player(
            s1,
            d,
            spec_take_hit(s1.players[d], spec_attack_damage(action), hs as i32),
        );
        let s3 = with_hit(s2, a);
        with_player(s3, a, gain_energy(s3.players[a]))
    } else {
        s
    }
}

pub open spec fn melee_hit_req(s: GameState, a: int) -> bool {
    &&& hitboxes_usable(s.players[a])
    &&& hurtboxes_usable(s.players[1 - a])
    &&& melee_connects(s, a) ==> {
        &&& -2147483 <= s.combo[a].hit_count <= 2147483
        &&& take_hit_req(s.players[1 - a], spec_attack_damage(s.players[a].action))
        &&& s.players[a].energy + ENERGY_PER_HIT <= i32::MAX
    }
}

pub open spec fn stage_melee(s: GameState) -> GameState {
    melee_hit(melee_hit(s, 0), 1)
}

pub open spec fn stage_melee_req(s: GameState) -> bool {
    melee_hit_req(s, 0) && melee_hit_req(melee_hit(s, 0), 1)
}

/// Actions in which a player is free again, which ends the combo against it.
pub open spec fn actionable(a: PlayerAction) -> bool {
    match a {
        PlayerAction::Idle | PlayerAction::WalkForward | PlayerAction::WalkBack
        | PlayerAction::Jump | PlayerAction::Crouch => true,
        _ => false,
    }
}

/// Player `i`'s combo ends when it did not hit this frame and its opponent can act.
pub open spec fn reset_for(s: GameState, i: int) -> GameState {
    if !s.hit_this_frame[i] && actionable(s.players[1 - i].action) {
        with_combo(s, i, spec_new_combo())
    } else {
        s
    }
}

pub open spec fn stage_reset(s: GameState) -> GameState {
    reset_for(reset_for(s, 0), 1)
}

/// The timer runs down; a knock-out or the end of time closes the round.
pub open spec fn stage_round(s: GameState) -> GameState {
    let t = (s.round_timer - 1) as i32;
    let p1_dead = s.players[0].health <= 0;
    let p2_dead = s.players[1].health <= 0;
    let time_up = t <= 0;
    if p1_dead || p2_dead || time_up {
        let sc = s.round_scores;
        let (winner, sc0, sc1) = if p1_dead && p2_dead {
            (0i32, sc[0] as int, sc[1] as int)
        } else if p2_dead {
            (0i32, sc[0] + 1, sc[1] as int)
        } else if p1_dead {
            (1i32, sc[0] as int, sc[1] + 1)
        } else if s.players[0].health >= s.players[1].health {
            (0i32, sc[0] + 1, sc[1] as int)
        } else {
            (1i32, sc[0] as int, sc[1] + 1)
        };
        GameState {
            round_timer: t,
            round_scores: [sc0 as i32, sc1 as i32],
            phase: if sc0 >= 2 || sc1 >= 2 {
                GamePhase::MatchEnd { winner }
            } else {
                GamePhase::RoundEnd { winner, countdown: 120 }
            },
            ..s
        }
    } else {
        GameState { round_timer: t, ..s }
    }
}

pub open spec fn stage_round_req(s: GameState) -> bool {
    &&& s.round_timer > i32::MIN
    &&& s.round_scores[0] < i32::MAX
    &&& s.round_scores[1] < i32::MAX
}

/// One frame of fighting.
pub open spec fn spec_fighting_tick(s: GameState, p1_input: Input, p2_input: Input) -> GameState {
    let s1 = stage_inputs(s, p1_input, p2_input);
    let s2 = stage_physics(s1);
    let s3 = stage_spawn(s2);
    let s4 = stage_move(s3);
    let s5 = stage_projectile_hits(s4);
    let s6 = stage_melee(s5);
    let s7 = stage_reset(s6);
    let s8 = stage_round(s7);
    GameState { frame_number: (s8.frame_number + 1) as u64, ..s8 }
}

/// One frame of fighting cannot overflow or index out of bounds.
pub open spec fn fighting_tick_req(s: GameState, p1_input: Input, p2_input: Input) -> bool {
    let s1 = stage_inputs(s, p1_input, p2_input);
    let s2 = stage_physics(s1);
    let s3 = stage_spawn(s2);
    let s4 = stage_move(s3);
    let s5 = stage_projectile_hits(s4);
    let s6 = stage_melee(s5);
    let s7 = stage_reset(s6);
    &&& stage_inputs_req(s)
    &&& stage_physics_req(s1)
    &&& stage_spawn_req(s2)
    &&& stage_move_req(s3)
    &&& projectile_hits_req_upto(s4, 4)
    &&& stage_melee_req(s5)
    &&& stage_round_req(s7)
    &&& s.frame_number < u64::MAX
}

/// A new round: both players back at their starting spots, combos and
/// projectiles cleared, the clock reset.
pub open spec fn spec_new_round(s: GameState) -> GameState {
    GameState {
        players: [
            spec_new_player(FixedPoint(300000), s.players[0].element),
            spec_new_player2(s.players[1].element),
        ],
        combo: [spec_new_combo(), spec_new_combo()],
        projectiles: [
            spec_empty_projectile(),
            spec_empty_projectile(),
            spec_empty_projectile(),
            spec_empty_projectile(),
        ],
        round_timer: round_ticks() as i32,
        round_number: (s.round_number + 1) as i32,
        phase: GamePhase::Fighting,
        hit_this_frame: [false, false],
        ..s
    }
}

/// The whole game advanced by one frame.
#[verifier::opaque]
pub open spec fn spec_tick(s: GameState, p1_input: Input, p2_input: Input) -> GameState {
    match s.phase {
        GamePhase::MatchEnd { .. } => s,
        GamePhase::RoundEnd { winner, countdown } => {
            let s1 = if countdown <= 0 {
                spec_new_round(s)
            } else {
                GameState { phase: GamePhase::RoundEnd { winner, countdown: (countdown - 1) as i32 }, ..s }
            };
            GameState { frame_number: (s1.frame_number + 1) as u64, ..s1 }
        },
        GamePhase::Fighting => spec_fighting_tick(s, p1_input, p2_input),
    }
}

/// Advancing one frame cannot overflow or index out of bounds.
pub open spec fn tick_req(s: GameState, p1_input: Input, p2_input: Input) -> bool {
    match s.phase {
        GamePhase::MatchEnd { .. } => true,
        GamePhase::RoundEnd { countdown, .. } => {
            &&& s.frame_number < u64::MAX
            &&& countdown <= 0 ==> s.round_number < i32::MAX
        },
        GamePhase::Fighting => fighting_tick_req(s, p1_input, p2_input),
    }
}


impl GameState {
    pub fn new(p1_element: Element, p2_element: Element) -> (r: Self)
        ensures
            r == spec_new_game(p1_element, p2_element),
    {
        let p1 = PlayerState::new(FixedPoint(300000), p1_element);
        let mut p2 = PlayerState::new(FixedPoint(900000), p2_element);
        p2.facing = -1;
        GameState {
            players: [p1, p2],
            combo: [ComboState::new(), ComboState::new()],
            projectiles: [
                Projectile::empty(),
                Projectile::empty(),
                Projectile::empty(),
                Projectile::empty(),
            ],
            round_timer: ROUND_TIME_SECONDS * TICKS_PER_SECOND,
            round_number: 1,
            round_scores: [0, 0],
            frame_number: 0,
            phase: GamePhase::Fighting,
            hit_this_frame: [false, false],
        }
    }

    pub fn tick(&mut self, p1_input: Input, p2_input: Input)
        requires
            tick_req(*old(self), p1_input, p2_input),
        ensures
            *final(self) == spec_tick(*old(self), p1_input, p2_input),
    {
        proof {
            reveal(spec_tick);
        }
        match self.phase {
            GamePhase::MatchEnd { .. } => {
                return ;
            },
            GamePhase::RoundEnd { countdown, winner } => {
                if countdown <= 0 {
                    self.start_new_round();
                } else {
                    self.phase = GamePhase::RoundEnd { winner, countdown: countdown - 1 };
                }
                self.frame_number += 1;
                return ;
            },
            GamePhase::Fighting => {},
        }
        self.apply_inputs(p1_input, p2_input);
        self.run_physics();
        self.spawn_projectiles();
        self.move_projectiles();
        self.resolve_projectile_hits();
        self.resolve_melee();
        self.reset_combos();
        self.run_clock();
        proof {
            lemma_fighting_stages_keep_frame(*old(self), p1_input, p2_input);
        }
        self.frame_number += 1;
    }

    fn apply_inputs(&mut self, p1_input: Input, p2_input: Input)
        requires
            stage_inputs_req(*old(self)),
        ensures
            *final(self) == stage_inputs(*old(self), p1_input, p2_input),
    {
        let opp_x_0 = self.players[1].x;
        let opp_x_1 = self.players[0].x;
        let mut p0 = self.players[0];
        p0.apply_input(p1_input, opp_x_0);
        self.players[0] = p0;
        let mut p1 = self.players[1];
        p1.apply_input(p2_input, opp_x_1);
        self.players[1] = p1;
    }

    fn run_physics(&mut self)
        requires
            stage_physics_req(*old(self)),
        ensures
            *final(self) == stage_physics(*old(self)),
    {
        let mut p0 = self.players[0];
        p0.tick_physics();
        self.players[0] = p0;
        let mut p1 = self.players[1];
        p1.tick_physics();
        self.players[1] = p1;
        self.hit_this_frame = [false, false];
    }

    /// The first inactive projectile slot, if any.
    fn free_projectile_slot(&self) -> (r: Option<usize>)
        ensures
            r matches Some(k) ==> first_inactive_from(self.projectiles, 0) == Some(k as int),
            r is None ==> first_inactive_from(self.projectiles, 0) is None,
    {
        let mut k: usize = 0;
        while k < MAX_PROJECTILES
            invariant
                k <= 4,
                first_inactive_from(self.projectiles, 0) == first_inactive_from(
                    self.projectiles,
                    k as int,
                ),
            decreases 4 - k,
        {
            if !self.projectiles[k].active {
                return Some(k);
            }
            k += 1;
        }
        None
    }

    fn spawn_one(&mut self, i: usize)
        requires
            i < 2,
            spawn_req(*old(self), i as int),
        ensures
            *final(self) == spawn_for(*old(self), i as int),
    {
        if self.players[i].action == PlayerAction::Fireball && self.players[i].action_frame == 8 {
            proof {
                lemma_first_inactive_in_range(self.projectiles, 0);
            }
            if let Some(slot) = self.free_projectile_slot() {
                let facing = self.players[i].facing as i32;
                self.projectiles[slot] = Projectile {
                    active: true,
                    x: FixedPoint(self.players[i].x.0 + 30 * facing * 1000),
                    y: FixedPoint(self.players[i].y.0 - 50000),
                    vx: FixedPoint(PROJECTILE_SPEED * facing * 1000),
                    owner: i,
                    damage: PROJECTILE_DAMAGE,
                    hitstun: PROJECTILE_HITSTUN,
                    lifetime: PROJECTILE_LIFETIME,
                    element: self.players[i].element,
                };
            }
        }
    }

    fn spawn_projectiles(&mut self)
        requires
            stage_spawn_req(*old(self)),
        ensures
            *final(self) == stage_spawn(*old(self)),
    {
        self.spawn_one(0);
        self.spawn_one(1);
    }

    fn moved_projectile(p: Projectile) -> (r: Projectile)
        requires
            move_projectile_req(p),
        ensures
            r == spec_move_projectile(p),
    {
        let mut proj = p;
        if !proj.active {
            return proj;
        }
        proj.x = FixedPoint(proj.x.0 + proj.vx.0);
        proj.lifetime -= 1;
        if proj.lifetime <= 0 || proj.x.0 < 0 || proj.x.0 > STAGE_WIDTH * 1000 {
            proj.active = false;
        }
        proj
    }

    fn move_projectiles(&mut self)
        requires
            stage_move_req(*old(self)),
        ensures
            *final(self) == stage_move(*old(self)),
    {
        let p0 = Self::moved_projectile(self.projectiles[0]);
        let p1 = Self::moved_projectile(self.projectiles[1]);
        let p2 = Self::moved_projectile(self.projectiles[2]);
        let p3 = Self::moved_projectile(self.projectiles[3]);
        self.projectiles = [p0, p1, p2, p3];
    }

    fn projectile_hit_one(&mut self, k: usize)
        requires
            k < 4,
            projectile_hit_req(*old(self), k as int),
        ensures
            *final(self) == projectile_hit(*old(self), k as int),
    {
        if !self.projectiles[k].active {
            return ;
        }
        let defender_idx = 1 - self.projectiles[k].owner;
        let proj_box = AABB::new(
            FixedPoint(self.projectiles[k].x.0 - 10000),
            FixedPoint(self.projectiles[k].y.0 - 10000),
            FixedPoint(20000),
            FixedPoint(20000),
        );
        let hurtboxes = self.players[defender_idx].get_hurtboxes();
        let mut hit = false;
        let mut j: usize = 0;
        while j < 4
            invariant
                j <= 4,
                hurtboxes == spec_hurtboxes(self.players[defender_idx as int]),
                hurtboxes_usable(self.players[defender_idx as int]),
                proj_box == spec_projectile_box(self.projectiles[k as int]),
                proj_box.edges_fit(),
                hit == exists|m: int|
                    0 <= m < j && #[trigger] hurtboxes[m] is Some && spec_overlaps(
                        proj_box,
                        hurtboxes[m]->0,
                    ),
            decreases 4 - j,
        {
            if let Some(hb) = &hurtboxes[j] {
                assert(hurtboxes[j as int] is Some);
                if overlaps(&proj_box, hb) {
                    hit = true;
                }
            }
            j += 1;
        }
        if hit {
            let element = self.projectiles[k].element;
            let damage = self.projectiles[k].damage;
            let hitstun = self.projectiles[k].hitstun;
            let attacker_idx = self.projectiles[k].owner;
            let mut defender = self.players[defender_idx];
            defender.take_hit(damage, hitstun, element);
            self.players[defender_idx] = defender;
            self.hit_this_frame[attacker_idx] = true;
            let mut attacker = self.players[attacker_idx];
            attacker.energy = if attacker.energy + ENERGY_PER_HIT < MAX_ENERGY {
                attacker.energy + ENERGY_PER_HIT
            } else {
                MAX_ENERGY
            };
            self.players[attacker_idx] = attacker;
            let mut proj = self.projectiles[k];
            proj.active = false;
            self.projectiles[k] = proj;
        }
    }

    fn resolve_projectile_hits(&mut self)
        requires
            projectile_hits_req_upto(*old(self), 4),
        ensures
            *final(self) == stage_projectile_hits(*old(self)),
    {
        let ghost s0 = *self;
        let mut pi: usize = 0;
        while pi < MAX_PROJECTILES
            invariant
                pi <= 4,
                *self == projectile_hits_upto(s0, pi as int),
                projectile_hits_req_upto(s0, 4),
            decreases 4 - pi,
        {
            proof {
                lemma_projectile_hits_req_prefix(s0, pi as int + 1, 4);
            }
            self.projectile_hit_one(pi);
            pi += 1;
        }
    }

    fn melee_one(&mut self, attacker_idx: usize)
        requires
            attacker_idx < 2,
            melee_hit_req(*old(self), attacker_idx as int),
        ensures
            *final(self) == melee_hit(*old(self), attacker_idx as int),
    {
        let defender_idx = 1 - attacker_idx;
        let hitboxes = self.players[attacker_idx].get_hitboxes();
        let hurtboxes = self.players[defender_idx].get_hurtboxes();
        proof {
            lemma_hitboxes_fit(self.players[attacker_idx as int]);
            lemma_hurtboxes_fit(self.players[defender_idx as int]);
        }
        if check_hit(&hitboxes, &hurtboxes) {
            let action = self.players[attacker_idx].action;
            let damage = attack_damage(&action);
            let base_hitstun = attack_hitstun(&action);
            // Apply combo scaling
            let mut combo = self.combo[attacker_idx];
            let scale = combo.register_hit();
            self.combo[attacker_idx] = combo;
            proof {
                crate::game_sim::fixed::lemma_i32_product_fits(base_hitstun, scale.0);
            }
            let product: i64 = base_hitstun as i64 * scale.raw() as i64;
            let scaled: i64 = product / 1000;
            assert(scaled == div_toward_zero(base_hitstun * scale.0, 1000));
            let scaled_hitstun: i32 = if scaled < 4 {
                4
            } else {
                scaled as i32
            };
            let element = self.players[attacker_idx].element;
            let mut defender = self.players[defender_idx];
            defender.take_hit(damage, scaled_hitstun, element);
            self.players[defender_idx] = defender;
            self.hit_this_frame[attacker_idx] = true;
            // Energy gain for attacker
            let mut attacker = self.players[attacker_idx];
            attacker.energy = if attacker.energy + ENERGY_PER_HIT < MAX_ENERGY {
                attacker.energy + ENERGY_PER_HIT
            } else {
                MAX_ENERGY
            };
            self.players[attacker_idx] = attacker;
        }
    }

    fn resolve_melee(&mut self)
        requires
            stage_melee_req(*old(self)),
        ensures
            *final(self) == stage_melee(*old(self)),
    {
        self.melee_one(0);
        self.melee_one(1);
    }

    fn reset_one(&mut self, i: usize)
        requires
            i < 2,
        ensures
            *final(self) == reset_for(*old(self), i as int),
    {
        let defender = 1 - i;
        if !self.hit_this_frame[i] {
            let defender_action = self.players[defender].action;
            if matches!(
                defender_action,
                PlayerAction::Idle | PlayerAction::WalkForward | PlayerAction::WalkBack
                    | PlayerAction::Jump | PlayerAction::Crouch
            ) {
                let mut c = self.combo[i];
                c.reset();
                self.combo[i] = c;
            }
        }
    }

    fn reset_combos(&mut self)
        ensures
            *final(self) == stage_reset(*old(self)),
    {
        self.reset_one(0);
        self.reset_one(1);
    }

    fn run_clock(&mut self)
        requires
            stage_round_req(*old(self)),
        ensures
            *final(self) == stage_round(*old(self)),
    {
        self.round_timer -= 1;
        let p1_dead = self.players[0].health <= 0;
        let p2_dead = self.players[1].health <= 0;
        let time_up = self.round_timer <= 0;
        if p1_dead || p2_dead || time_up {
            let mut sc0 = self.round_scores[0];
            let mut sc1 = self.round_scores[1];
            let winner: i32 = if p1_dead && p2_dead {
                0  // draw, no score
            } else if p2_dead {
                sc0 += 1;
                0
            } else if p1_dead {
                sc1 += 1;
                1
            } else {
                // time up — higher health wins
                if self.players[0].health >= self.players[1].health {
                    sc0 += 1;
                    0
                } else {
                    sc1 += 1;
                    1
                }
            };
            self.round_scores = [sc0, sc1];
            // Best of 3: first to 2 rounds
            if sc0 >= 2 || sc1 >= 2 {
                self.phase = GamePhase::MatchEnd { winner };
            } else {
                self.phase = GamePhase::RoundEnd { winner, countdown: 120 };
            }
        }
    }

    fn start_new_round(&mut self)
        requires
            old(self).round_number < i32::MAX,
        ensures
            *final(self) == spec_new_round(*old(self)),
    {
        let p1 = PlayerState::new(FixedPoint(300000), self.players[0].element);
        let mut p2 = PlayerState::new(FixedPoint(900000), self.players[1].element);
        p2.facing = -1;
        self.players = [p1, p2];
        self.combo = [ComboState::new(), ComboState::new()];
        self.projectiles = [
            Projectile::empty(),
            Projectile::empty(),
            Projectile::empty(),
            Projectile::empty(),
        ];
        self.round_timer = ROUND_TIME_SECONDS * TICKS_PER_SECOND;
        self.round_number += 1;
        self.phase = GamePhase::Fighting;
        self.hit_this_frame = [false, false];
    }

    /// CRC32 checksum of the whole game state (every field) for desync
    /// detection.
    pub fn checksum(&self) -> (r: u32)
        ensures
            r == crc32(values_bytes(checksum_values(*self))),
    {
        let mut vals: Vec<i32> = Vec::new();
        let mut i: usize = 0;
        while i < 2
            invariant
                i <= 2,
                vals@ =~= player_values_upto(*self, i as int),
            decreases 2 - i,
        {
            push_player_values(&mut vals, &self.players[i]);
            i += 1;
        }
        vals.push(self.combo[0].hit_count);
        vals.push(self.combo[0].hitstun_scale.raw());
        vals.push(self.combo[1].hit_count);
        vals.push(self.combo[1].hitstun_scale.raw());
        let ghost head = vals@;
        let mut k: usize = 0;
        while k < MAX_PROJECTILES
            invariant
                k <= 4,
                vals@ =~= head + projectile_values_upto(*self, k as int),
            decreases 4 - k,
        {
            push_projectile_values(&mut vals, &self.projectiles[k]);
            k += 1;
        }
        let ghost mid = vals@;
        push_round_values(&mut vals, self);
        assert(vals@ =~= checksum_values(*self));
        crc32_of_values(&vals)
    }

    pub fn save_snapshot(&self) -> (r: GameState)
        ensures
            r == *self,
    {
        *self
    }

    pub fn restore_snapshot(&mut self, snapshot: GameState)
        ensures
            *final(self) == snapshot,
    {
        *self = snapshot;
    }
}

/// The requirements for checking projectiles `0..n` include those for `0..m`, m <= n.
pub(crate) proof fn lemma_projectile_hits_req_prefix(s: GameState, m: int, n: int)
    requires
        0 <= m <= n,
        projectile_hits_req_upto(s, n),
    ensures
        projectile_hits_req_upto(s, m),
        m > 0 ==> projectile_hit_req(projectile_hits_upto(s, m - 1), m - 1),
    decreases n - m,
{
    if m < n {
        lemma_projectile_hits_req_prefix(s, m, n - 1);
    }
}

/// A number for each action, and the counter that some actions carry (0 for
/// the others).
pub open spec fn action_values(a: PlayerAction) -> (i32, i32) {
    match a {
        PlayerAction::Idle => (0i32, 0i32),
        PlayerAction::WalkForward => (1i32, 0i32),
        PlayerAction::WalkBack => (2i32, 0i32),
        PlayerAction::Jump => (3i32, 0i32),
        PlayerAction::Crouch => (4i32, 0i32),
        PlayerAction::LightAttack1 => (5i32, 0i32),
        PlayerAction::LightAttack2 => (6i32, 0i32),
        PlayerAction::LightAttack3 => (7i32, 0i32),
        PlayerAction::HeavyAttack => (8i32, 0i32),
        PlayerAction::Uppercut => (9i32, 0i32),
        PlayerAction::AerialAttack => (10i32, 0i32),
        PlayerAction::Block => (11i32, 0i32),
        PlayerAction::Fireball => (12i32, 0i32),
        PlayerAction::DashStrike => (13i32, 0i32),
        PlayerAction::Hitstun { frames_remaining } => (14i32, frames_remaining),
        PlayerAction::Blockstun { frames_remaining } => (15i32, frames_remaining),
        PlayerAction::Knockdown { frames_remaining } => (16i32, frames_remaining),
        PlayerAction::Getup => (17i32, 0i32),
    }
}

fn action_values_of(a: &PlayerAction) -> (r: (i32, i32))
    ensures
        r == action_values(*a),
{
    match a {
        PlayerAction::Idle => (0, 0),
        PlayerAction::WalkForward => (1, 0),
        PlayerAction::WalkBack => (2, 0),
        PlayerAction::Jump => (3, 0),
        PlayerAction::Crouch => (4, 0),
        PlayerAction::LightAttack1 => (5, 0),
        PlayerAction::LightAttack2 => (6, 0),
        PlayerAction::LightAttack3 => (7, 0),
        PlayerAction::HeavyAttack => (8, 0),
        PlayerAction::Uppercut => (9, 0),
        PlayerAction::AerialAttack => (10, 0),
        PlayerAction::Block => (11, 0),
        PlayerAction::Fireball => (12, 0),
        PlayerAction::DashStrike => (13, 0),
        PlayerAction::Hitstun { frames_remaining } => (14, *frames_remaining),
        PlayerAction::Blockstun { frames_remaining } => (15, *frames_remaining),
        PlayerAction::Knockdown { frames_remaining } => (16, *frames_remaining),
        PlayerAction::Getup => (17, 0),
    }
}

/// A number for each element.
pub open spec fn element_value(e: Element) -> i32 {
    match e {
        Element::Fire => 0,
        Element::Lightning => 1,
        Element::DarkMagic => 2,
        Element::Ice => 3,
    }
}

fn element_value_of(e: Element) -> (r: i32)
    ensures
        r == element_value(e),
{
    match e {
        Element::Fire => 0,
        Element::Lightning => 1,
        Element::DarkMagic => 2,
        Element::Ice => 3,
    }
}

/// 1 for true, 0 for false.
pub open spec fn flag_value(b: bool) -> i32 {
    if b {
        1
    } else {
        0
    }
}

/// A number for the phase, then its winner and countdown (0 where absent).
pub open spec fn phase_values(ph: GamePhase) -> Seq<i32> {
    match ph {
        GamePhase::Fighting => seq![0i32, 0i32, 0i32],
        GamePhase::RoundEnd { winner, countdown } => seq![1i32, winner, countdown],
        GamePhase::MatchEnd { winner } => seq![2i32, winner, 0i32],
    }
}

fn push_player_values(vals: &mut Vec<i32>, p: &PlayerState)
    ensures
        final(vals)@ == old(vals)@ + player_values(*p),
{
    let (code, counter) = action_values_of(&p.action);
    vals.push(p.x.raw());
    vals.push(p.y.raw());
    vals.push(p.vx.raw());
    vals.push(p.vy.raw());
    vals.push(p.facing as i32);
    vals.push(p.health);
    vals.push(p.energy);
    vals.push(p.guard_meter);
    vals.push(code);
    vals.push(counter);
    vals.push(p.action_frame);
    vals.push(if p.is_grounded { 1 } else { 0 });
    vals.push(element_value_of(p.element));
    assert(final(vals)@ =~= old(vals)@ + player_values(*p));
}

fn push_projectile_values(vals: &mut Vec<i32>, proj: &Projectile)
    ensures
        final(vals)@ == old(vals)@ + projectile_values(*proj),
{
    vals.push(if proj.active { 1 } else { 0 });
    vals.push(proj.x.raw());
    vals.push(proj.y.raw());
    vals.push(proj.vx.raw());
    vals.push(#[verifier::truncate] (proj.owner as i32));
    vals.push(proj.damage);
    vals.push(proj.hitstun);
    vals.push(proj.lifetime);
    vals.push(element_value_of(proj.element));
    assert(final(vals)@ =~= old(vals)@ + projectile_values(*proj));
}

/// The values after the projectiles: clock, round, scores, phase, frame
/// number and hit flags.
pub open spec fn round_values(s: GameState) -> Seq<i32> {
    seq![s.round_timer, s.round_number, s.round_scores[0], s.round_scores[1]] + phase_values(
        s.phase,
    ) + seq![
        s.frame_number as i32,
        (s.frame_number >> 32u64) as i32,
        flag_value(s.hit_this_frame[0]),
        flag_value(s.hit_this_frame[1]),
    ]
}

fn push_round_values(vals: &mut Vec<i32>, s: &GameState)
    ensures
        final(vals)@ == old(vals)@ + round_values(*s),
{
    vals.push(s.round_timer);
    vals.push(s.round_number);
    vals.push(s.round_scores[0]);
    vals.push(s.round_scores[1]);
    match s.phase {
        GamePhase::Fighting => {
            vals.push(0);
            vals.push(0);
            vals.push(0);
        },
        GamePhase::RoundEnd { winner, countdown } => {
            vals.push(1);
            vals.push(winner);
            vals.push(countdown);
        },
        GamePhase::MatchEnd { winner } => {
            vals.push(2);
            vals.push(winner);
            vals.push(0);
        },
    }
    vals.push(#[verifier::truncate] (s.frame_number as i32));
    vals.push(#[verifier::truncate] ((s.frame_number >> 32u64) as i32));
    vals.push(if s.hit_this_frame[0] { 1 } else { 0 });
    vals.push(if s.hit_this_frame[1] { 1 } else { 0 });
    assert(final(vals)@ =~= old(vals)@ + round_values(*s));
}

/// Every field of a player, as it enters the checksum.
pub open spec fn player_values(p: PlayerState) -> Seq<i32> {
    seq![
        p.x.0,
        p.y.0,
        p.vx.0,
        p.vy.0,
        p.facing as i32,
        p.health,
        p.energy,
        p.guard_meter,
        action_values(p.action).0,
        action_values(p.action).1,
        p.action_frame,
        flag_value(p.is_grounded),
        element_value(p.element),
    ]
}

/// Every field of a projectile, as it enters the checksum (the owner's slot
/// cut to 32 bits).
pub open spec fn projectile_values(p: Projectile) -> Seq<i32> {
    seq![
        flag_value(p.active),
        p.x.0,
        p.y.0,
        p.vx.0,
        p.owner as i32,
        p.damage,
        p.hitstun,
        p.lifetime,
        element_value(p.element),
    ]
}

pub open spec fn player_values_upto(s: GameState, n: int) -> Seq<i32>
    decreases n,
{
    if n <= 0 {
        Seq::empty()
    } else {
        player_values_upto(s, n - 1) + player_values(s.players[n - 1])
    }
}

pub open spec fn projectile_values_upto(s: GameState, n: int) -> Seq<i32>
    decreases n,
{
    if n <= 0 {
        Seq::empty()
    } else {
        projectile_values_upto(s, n - 1) + projectile_values(s.projectiles[n - 1])
    }
}

/// The values whose little-endian bytes the checksum covers, in order: every
/// field of each player, each combo's hit count and scale, every field of
/// each projectile, then the round timer, round number, both scores, the
/// phase, the frame number (low then high 32 bits) and both hit flags.
pub open spec fn checksum_values(s: GameState) -> Seq<i32> {
    player_values_upto(s, 2) + seq![
        s.combo[0].hit_count,
        s.combo[0].hitstun_scale.0,
        s.combo[1].hit_count,
        s.combo[1].hitstun_scale.0,
    ] + projectile_values_upto(s, 4) + round_values(s)
}

/// The first free slot, when there is one, is a valid index at or after `k`.
pub(crate) proof fn lemma_first_inactive_in_range(ps: [Projectile; 4], k: int)
    ensures
        first_inactive_from(ps, k) matches Some(j) ==> k <= j < 4 && !ps[j].active,
    decreases 4 - k,
{
    if 0 <= k < 4 && ps[k].active {
        lemma_first_inactive_in_range(ps, k + 1);
    }
}

/// Checking projectiles leaves the frame counter alone.
proof fn lemma_projectile_hits_keep_frame(s: GameState, n: int)
    ensures
        projectile_hits_upto(s, n).frame_number == s.frame_number,
    decreases n,
{
    if n > 0 {
        lemma_projectile_hits_keep_frame(s, n - 1);
    }
}

/// The stages of a fighting frame leave the frame counter alone.
pub(crate) proof fn lemma_fighting_stages_keep_frame(s: GameState, p1_input: Input, p2_input: Input)
    ensures
        ({
            let s1 = stage_inputs(s, p1_input, p2_input);
            let s2 = stage_physics(s1);
            let s3 = stage_spawn(s2);
            let s4 = stage_move(s3);
            let s5 = stage_projectile_hits(s4);
            let s6 = stage_melee(s5);
            let s7 = stage_reset(s6);
            stage_round(s7).frame_number == s.frame_number
        }),
{
    let s1 = stage_inputs(s, p1_input, p2_input);
    let s2 = stage_physics(s1);
    let s3 = stage_spawn(s2);
    let s4 = stage_move(s3);
    lemma_projectile_hits_keep_frame(s4, 4);
}

/// Usable hurtboxes have computable edges.
proof fn lemma_hurtboxes_fit(p: PlayerState)
    requires
        hurtboxes_usable(p),
    ensures
        crate::game_sim::collision::boxes_fit(spec_hurtboxes(p)@),
{
}

/// Usable hitboxes have computable edges.
proof fn lemma_hitboxes_fit(p: PlayerState)
    requires
        hitboxes_usable(p),
    ensures
        crate::game_sim::collision::boxes_fit(spec_hitboxes(p)@),
{
}

/// Equal concatenations with equal-length first parts have equal parts.
proof fn lemma_concat_parts(a1: Seq<i32>, b1: Seq<i32>, a2: Seq<i32>, b2: Seq<i32>)
    requires
        a1 + b1 == a2 + b2,
        a1.len() == a2.len(),
    ensures
        a1 == a2,
        b1 == b2,
{
    assert(a1 =~= (a1 + b1).subrange(0, a1.len() as int));
    assert(a2 =~= (a2 + b2).subrange(0, a2.len() as int));
    assert(b1 =~= (a1 + b1).subrange(a1.len() as int, (a1 + b1).len() as int));
    assert(b2 =~= (a2 + b2).subrange(a2.len() as int, (a2 + b2).len() as int));
}

/// The two halves of the frame number give the frame number back.
proof fn lemma_frame_halves(f1: u64, f2: u64)
    requires
        f1 as i32 == f2 as i32,
        (f1 >> 32u64) as i32 == (f2 >> 32u64) as i32,
    ensures
        f1 == f2,
{
    assert(f1 as i32 == f2 as i32 && (f1 >> 32u64) as i32 == (f2 >> 32u64) as i32 ==> f1 == f2)
        by (bit_vector);
}

proof fn lemma_player_values_injective(p: PlayerState, q: PlayerState)
    requires
        player_values(p) == player_values(q),
    ensures
        p == q,
{
    let a = player_values(p);
    let b = player_values(q);
    assert(a[0] == b[0] && a[1] == b[1] && a[2] == b[2] && a[3] == b[3] && a[4] == b[4]);
    assert(a[5] == b[5] && a[6] == b[6] && a[7] == b[7] && a[8] == b[8] && a[9] == b[9]);
    assert(a[10] == b[10] && a[11] == b[11] && a[12] == b[12]);
    assert(p.action == q.action);
    assert(p.element == q.element);
}

proof fn lemma_projectile_values_injective(p: Projectile, q: Projectile)
    requires
        projectile_values(p) == projectile_values(q),
        p.owner < 0x8000_0000,
        q.owner < 0x8000_0000,
    ensures
        p == q,
{
    let a = projectile_values(p);
    let b = projectile_values(q);
    assert(a[0] == b[0] && a[1] == b[1] && a[2] == b[2] && a[3] == b[3] && a[4] == b[4]);
    assert(a[5] == b[5] && a[6] == b[6] && a[7] == b[7] && a[8] == b[8]);
    assert(p.element == q.element);
}

proof fn lemma_round_values_injective(s1: GameState, s2: GameState)
    requires
        round_values(s1) == round_values(s2),
    ensures
        s1.round_timer == s2.round_timer,
        s1.round_number == s2.round_number,
        s1.round_scores == s2.round_scores,
        s1.phase == s2.phase,
        s1.frame_number == s2.frame_number,
        s1.hit_this_frame == s2.hit_this_frame,
{
    let a = round_values(s1);
    let b = round_values(s2);
    assert(a[0] == b[0] && a[1] == b[1] && a[2] == b[2] && a[3] == b[3] && a[4] == b[4]);
    assert(a[5] == b[5] && a[6] == b[6] && a[7] == b[7] && a[8] == b[8] && a[9] == b[9]);
    assert(a[10] == b[10]);
    assert(s1.round_scores =~= s2.round_scores);
    assert(s1.hit_this_frame =~= s2.hit_this_frame);
    lemma_frame_halves(s1.frame_number, s2.frame_number);
}

/// Every field of the state enters the checksum: two states that feed the
/// CRC the same values are the same state (projectile owners being slot
/// numbers below 2^31, which the checksum's 32-bit values can tell apart).
pub proof fn law_checksum_covers_state(s1: GameState, s2: GameState)
    requires
        checksum_values(s1) == checksum_values(s2),
        forall|k: int| 0 <= k < 4 ==> (#[trigger] s1.projectiles[k]).owner < 0x8000_0000,
        forall|k: int| 0 <= k < 4 ==> (#[trigger] s2.projectiles[k]).owner < 0x8000_0000,
    ensures
        s1 == s2,
{
    let c1 = seq![
        s1.combo[0].hit_count,
        s1.combo[0].hitstun_scale.0,
        s1.combo[1].hit_count,
        s1.combo[1].hitstun_scale.0,
    ];
    let c2 = seq![
        s2.combo[0].hit_count,
        s2.combo[0].hitstun_scale.0,
        s2.combo[1].hit_count,
        s2.combo[1].hitstun_scale.0,
    ];
    let pl1 = player_values_upto(s1, 2);
    let pl2 = player_values_upto(s2, 2);
    let pr1 = projectile_values_upto(s1, 4);
    let pr2 = projectile_values_upto(s2, 4);
    assert(player_values_upto(s1, 0) =~= Seq::<i32>::empty());
    assert(player_values_upto(s2, 0) =~= Seq::<i32>::empty());
    assert(player_values_upto(s1, 1) =~= player_values(s1.players[0]));
    assert(player_values_upto(s2, 1) =~= player_values(s2.players[0]));
    assert(pl1.len() == 26 && pl2.len() == 26);
    lemma_projectile_values_len_upto(s1, 4);
    lemma_projectile_values_len_upto(s2, 4);
    assert(pr1.len() == 36 && pr2.len() == 36);
    assert(checksum_values(s1) =~= pl1 + (c1 + (pr1 + round_values(s1))));
    assert(checksum_values(s2) =~= pl2 + (c2 + (pr2 + round_values(s2))));
    lemma_concat_parts(pl1, c1 + (pr1 + round_values(s1)), pl2, c2 + (pr2 + round_values(s2)));
    lemma_concat_parts(c1, pr1 + round_values(s1), c2, pr2 + round_values(s2));
    lemma_concat_parts(pr1, round_values(s1), pr2, round_values(s2));
    // players
    lemma_concat_parts(
        player_values_upto(s1, 1),
        player_values(s1.players[1]),
        player_values_upto(s2, 1),
        player_values(s2.players[1]),
    );
    lemma_player_values_injective(s1.players[0], s2.players[0]);
    lemma_player_values_injective(s1.players[1], s2.players[1]);
    assert(s1.players =~= s2.players);
    // combos
    assert(c1[0] == c2[0] && c1[1] == c2[1] && c1[2] == c2[2] && c1[3] == c2[3]);
    assert(s1.combo[0] == s2.combo[0] && s1.combo[1] == s2.combo[1]);
    assert(s1.combo =~= s2.combo);
    // projectiles
    lemma_projectiles_upto_injective(s1, s2, 4);
    assert(s1.projectiles =~= s2.projectiles);
    lemma_round_values_injective(s1, s2);
}

proof fn lemma_projectiles_upto_injective(s1: GameState, s2: GameState, n: int)
    requires
        0 <= n <= 4,
        projectile_values_upto(s1, n) == projectile_values_upto(s2, n),
        forall|k: int| 0 <= k < 4 ==> (#[trigger] s1.projectiles[k]).owner < 0x8000_0000,
        forall|k: int| 0 <= k < 4 ==> (#[trigger] s2.projectiles[k]).owner < 0x8000_0000,
    ensures
        forall|k: int| 0 <= k < n ==> #[trigger] s1.projectiles[k] == s2.projectiles[k],
        projectile_values_upto(s1, n).len() == 9 * n,
    decreases n,
{
    if n > 0 {
        lemma_projectile_values_len_upto(s1, n - 1);
        lemma_projectile_values_len_upto(s2, n - 1);
        lemma_concat_parts(
            projectile_values_upto(s1, n - 1),
            projectile_values(s1.projectiles[n - 1]),
            projectile_values_upto(s2, n - 1),
            projectile_values(s2.projectiles[n - 1]),
        );
        lemma_projectiles_upto_injective(s1, s2, n - 1);
        lemma_projectile_values_injective(s1.projectiles[n - 1], s2.projectiles[n - 1]);
    }
}

proof fn lemma_projectile_values_len_upto(s: GameState, n: int)
    requires
        0 <= n,
    ensures
        projectile_values_upto(s, n).len() == 9 * n,
    decreases n,
{
    if n > 0 {
        lemma_projectile_values_len_upto(s, n - 1);
    }
}

} // verus!
