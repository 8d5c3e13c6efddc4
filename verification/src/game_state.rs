use vstd::prelude::*;

use crate::fixed_point::FixedPoint;

verus! {

/// All possible action states for a player.
#[derive(Clone, Copy, Debug, Default, PartialEq, Eq, Structural, Hash)]
pub enum ActionState {
    #[default]
    Idle,
    WalkForward,
    WalkBackward,
    Jump,
    Crouch,
    LightAttack,
    HeavyAttack,
    SpecialAttack,
    CrouchLight,
    CrouchHeavy,
    AirLight,
    AirHeavy,
    Hitstun,
    Blockstun,
    Knockdown,
    Getup,
}

/// Round phase.
#[derive(Clone, Copy, Debug, Default, PartialEq, Eq, Structural, Hash)]
pub enum RoundPhase {
    Intro,
    #[default]
    Fighting,
    KO,
    RoundEnd,
    MatchEnd,
}

/// Per-player state. No heap pointers, fully copyable.
#[derive(Clone, Copy, Debug, Default)]
pub struct PlayerState {
    pub pos_x: FixedPoint,
    pub pos_y: FixedPoint,
    pub vel_x: FixedPoint,
    pub vel_y: FixedPoint,
    pub facing: i8,
    pub health: i32,
    pub energy: i32,
    pub guard_meter: i32,
    pub action: ActionState,
    pub action_frame: u8,
    pub hitstun_frames: u8,
    pub blockstun_frames: u8,
    pub is_airborne: bool,
    pub juggle_count: u8,
    pub hit_this_frame: bool,
}

/// Flat game state — no heap pointers, fully copyable.
#[derive(Clone, Copy, Debug, Default)]
pub struct GameState {
    pub p1: PlayerState,
    pub p2: PlayerState,
    pub combo_hit_count: u8,
    pub hitstun_scale_num: u8,
    pub timer_frames: u32,
    pub round_number: u8,
    pub p1_rounds_won: u8,
    pub p2_rounds_won: u8,
    pub round_phase: RoundPhase,
    pub frame_number: u64,
}

/// A player at the start of a round: standing at `x` (raw units) facing
/// `facing`, full health and guard, no energy, everything else zero.
pub open spec fn spec_fresh_player(x: i32, facing: i8) -> PlayerState {
    PlayerState {
        pos_x: FixedPoint(x),
        pos_y: FixedPoint(0),
        vel_x: FixedPoint(0),
        vel_y: FixedPoint(0),
        facing,
        health: 1000,
        energy: 0,
        guard_meter: 100,
        action: ActionState::Idle,
        action_frame: 0,
        hitstun_frames: 0,
        blockstun_frames: 0,
        is_airborne: false,
        juggle_count: 0,
        hit_this_frame: false,
    }
}

/// The state of a new match.
pub open spec fn spec_initial() -> GameState {
    GameState {
        p1: spec_fresh_player(300000, 1i8),
        p2: spec_fresh_player(980000, -1i8),
        combo_hit_count: 0,
        hitstun_scale_num: 100,
        timer_frames: 5400,
        round_number: 1,
        p1_rounds_won: 0,
        p2_rounds_won: 0,
        round_phase: RoundPhase::Fighting,
        frame_number: 0,
    }
}

/// The determinism hash: every meaningful field, sign-extended to 64 bits,
/// shifted left by a field-specific amount and XOR-ed together.
pub open spec fn spec_hash_state(s: GameState) -> u64 {
    0u64 ^ (s.p1.pos_x.0 as u64) ^ (s.p1.pos_y.0 as u64).wrapping_shl(3) ^ (
    s.p1.vel_x.0 as u64).wrapping_shl(5) ^ (s.p1.vel_y.0 as u64).wrapping_shl(7) ^ (
    s.p1.health as u64).wrapping_shl(11) ^ (s.p1.energy as u64).wrapping_shl(13) ^ (
    s.p1.guard_meter as u64).wrapping_shl(17) ^ (s.p1.action_frame as u64).wrapping_shl(19) ^ (
    s.p1.hitstun_frames as u64).wrapping_shl(23) ^ (s.p1.facing as u64).wrapping_shl(29) ^ (
    s.p1.juggle_count as u64).wrapping_shl(31) ^ (s.p2.pos_x.0 as u64).wrapping_shl(1) ^ (
    s.p2.pos_y.0 as u64).wrapping_shl(4) ^ (s.p2.vel_x.0 as u64).wrapping_shl(6) ^ (
    s.p2.vel_y.0 as u64).wrapping_shl(8) ^ (s.p2.health as u64).wrapping_shl(12) ^ (
    s.p2.energy as u64).wrapping_shl(14) ^ (s.p2.guard_meter as u64).wrapping_shl(18) ^ (
    s.p2.action_frame as u64).wrapping_shl(20) ^ (s.p2.hitstun_frames as u64).wrapping_shl(24)
        ^ (s.p2.facing as u64).wrapping_shl(30) ^ (s.p2.juggle_count as u64).wrapping_shl(32) ^ (
    s.combo_hit_count as u64) ^ (s.hitstun_scale_num as u64).wrapping_shl(2) ^ (
    s.timer_frames as u64).wrapping_shl(9) ^ (s.round_number as u64).wrapping_shl(15) ^ (
    s.p1_rounds_won as u64).wrapping_shl(21) ^ (s.p2_rounds_won as u64).wrapping_shl(25)
        ^ s.frame_number.wrapping_shl(33)
}

impl GameState {
    /// 90 seconds at 60 fps.
    pub const TIMER_INITIAL: u32 = 90 * 60;

    pub fn initial() -> (r: Self)
        ensures
            r == spec_initial(),
    {
        Self {
            p1: PlayerState {
                pos_x: FixedPoint::from_pixels(300),
                pos_y: FixedPoint(0),
                vel_x: FixedPoint(0),
                vel_y: FixedPoint(0),
                facing: 1,
                health: 1000,
                energy: 0,
                guard_meter: 100,
                action: ActionState::Idle,
                action_frame: 0,
                hitstun_frames: 0,
                blockstun_frames: 0,
                is_airborne: false,
                juggle_count: 0,
                hit_this_frame: false,
            },
            p2: PlayerState {
                pos_x: FixedPoint::from_pixels(980),
                pos_y: FixedPoint(0),
                vel_x: FixedPoint(0),
                vel_y: FixedPoint(0),
                facing: -1,
                health: 1000,
                energy: 0,
                guard_meter: 100,
                action: ActionState::Idle,
                action_frame: 0,
                hitstun_frames: 0,
                blockstun_frames: 0,
                is_airborne: false,
                juggle_count: 0,
                hit_this_frame: false,
            },
            combo_hit_count: 0,
            hitstun_scale_num: 100,
            timer_frames: Self::TIMER_INITIAL,
            round_number: 1,
            p1_rounds_won: 0,
            p2_rounds_won: 0,
            round_phase: RoundPhase::Fighting,
            frame_number: 0,
        }
    }

    /// Simple XOR hash of all meaningful fields for determinism checks.
    pub fn hash_state(&self) -> (r: u64)
        ensures
            r == spec_hash_state(*self),
    {
        let mut h: u64 = 0;
        h ^= #[verifier::truncate] (self.p1.pos_x.0 as u64);
        h ^= (#[verifier::truncate] (self.p1.pos_y.0 as u64)).wrapping_shl(3);
        h ^= (#[verifier::truncate] (self.p1.vel_x.0 as u64)).wrapping_shl(5);
        h ^= (#[verifier::truncate] (self.p1.vel_y.0 as u64)).wrapping_shl(7);
        h ^= (#[verifier::truncate] (self.p1.health as u64)).wrapping_shl(11);
        h ^= (#[verifier::truncate] (self.p1.energy as u64)).wrapping_shl(13);
        h ^= (#[verifier::truncate] (self.p1.guard_meter as u64)).wrapping_shl(17);
        h ^= (self.p1.action_frame as u64).wrapping_shl(19);
        h ^= (self.p1.hitstun_frames as u64).wrapping_shl(23);
        h ^= (#[verifier::truncate] (self.p1.facing as u64)).wrapping_shl(29);
        h ^= (self.p1.juggle_count as u64).wrapping_shl(31);

        h ^= (#[verifier::truncate] (self.p2.pos_x.0 as u64)).wrapping_shl(1);
        h ^= (#[verifier::truncate] (self.p2.pos_y.0 as u64)).wrapping_shl(4);
        h ^= (#[verifier::truncate] (self.p2.vel_x.0 as u64)).wrapping_shl(6);
        h ^= (#[verifier::truncate] (self.p2.vel_y.0 as u64)).wrapping_shl(8);
        h ^= (#[verifier::truncate] (self.p2.health as u64)).wrapping_shl(12);
        h ^= (#[verifier::truncate] (self.p2.energy as u64)).wrapping_shl(14);
        h ^= (#[verifier::truncate] (self.p2.guard_meter as u64)).wrapping_shl(18);
        h ^= (self.p2.action_frame as u64).wrapping_shl(20);
        h ^= (self.p2.hitstun_frames as u64).wrapping_shl(24);
        h ^= (#[verifier::truncate] (self.p2.facing as u64)).wrapping_shl(30);
        h ^= (self.p2.juggle_count as u64).wrapping_shl(32);

        h ^= self.combo_hit_count as u64;
        h ^= (self.hitstun_scale_num as u64).wrapping_shl(2);
        h ^= (self.timer_frames as u64).wrapping_shl(9);
        h ^= (self.round_number as u64).wrapping_shl(15);
        h ^= (self.p1_rounds_won as u64).wrapping_shl(21);
        h ^= (self.p2_rounds_won as u64).wrapping_shl(25);
        h ^= self.frame_number.wrapping_shl(33);
        h
    }
}

/// The two states differ in exactly one of the fields the hash covers: a
/// player's position, velocity, health, energy, guard, action frame, hitstun,
/// facing or juggle count, the combo count or scale, the timer, the round
/// number, a round score, or the frame number (below 2^31, as the hash keeps
/// its low 31 bits).
pub open spec fn differ_in_one_hashed_field(s: GameState, t: GameState) -> bool {
    ||| t == (GameState { p1: PlayerState { pos_x: t.p1.pos_x, ..s.p1 }, ..s }) && t.p1.pos_x != s.p1.pos_x
        ||| t == (GameState { p1: PlayerState { pos_y: t.p1.pos_y, ..s.p1 }, ..s }) && t.p1.pos_y != s.p1.pos_y
        ||| t == (GameState { p1: PlayerState { vel_x: t.p1.vel_x, ..s.p1 }, ..s }) && t.p1.vel_x != s.p1.vel_x
        ||| t == (GameState { p1: PlayerState { vel_y: t.p1.vel_y, ..s.p1 }, ..s }) && t.p1.vel_y != s.p1.vel_y
        ||| t == (GameState { p1: PlayerState { health: t.p1.health, ..s.p1 }, ..s }) && t.p1.health != s.p1.health
        ||| t == (GameState { p1: PlayerState { energy: t.p1.energy, ..s.p1 }, ..s }) && t.p1.energy != s.p1.energy
        ||| t == (GameState { p1: PlayerState { guard_meter: t.p1.guard_meter, ..s.p1 }, ..s }) && t.p1.guard_meter != s.p1.guard_meter
        ||| t == (GameState { p1: PlayerState { action_frame: t.p1.action_frame, ..s.p1 }, ..s }) && t.p1.action_frame != s.p1.action_frame
        ||| t == (GameState { p1: PlayerState { hitstun_frames: t.p1.hitstun_frames, ..s.p1 }, ..s }) && t.p1.hitstun_frames != s.p1.hitstun_frames
        ||| t == (GameState { p1: PlayerState { juggle_count: t.p1.juggle_count, ..s.p1 }, ..s }) && t.p1.juggle_count != s.p1.juggle_count
        ||| t == (GameState { p1: PlayerState { facing: t.p1.facing, ..s.p1 }, ..s }) && t.p1.facing != s.p1.facing
        ||| t == (GameState { p2: PlayerState { pos_x: t.p2.pos_x, ..s.p2 }, ..s }) && t.p2.pos_x != s.p2.pos_x
        ||| t == (GameState { p2: PlayerState { pos_y: t.p2.pos_y, ..s.p2 }, ..s }) && t.p2.pos_y != s.p2.pos_y
        ||| t == (GameState { p2: PlayerState { vel_x: t.p2.vel_x, ..s.p2 }, ..s }) && t.p2.vel_x != s.p2.vel_x
        ||| t == (GameState { p2: PlayerState { vel_y: t.p2.vel_y, ..s.p2 }, ..s }) && t.p2.vel_y != s.p2.vel_y
        ||| t == (GameState { p2: PlayerState { health: t.p2.health, ..s.p2 }, ..s }) && t.p2.health != s.p2.health
        ||| t == (GameState { p2: PlayerState { energy: t.p2.energy, ..s.p2 }, ..s }) && t.p2.energy != s.p2.energy
        ||| t == (GameState { p2: PlayerState { guard_meter: t.p2.guard_meter, ..s.p2 }, ..s }) && t.p2.guard_meter != s.p2.guard_meter
        ||| t == (GameState { p2: PlayerState { action_frame: t.p2.action_frame, ..s.p2 }, ..s }) && t.p2.action_frame != s.p2.action_frame
        ||| t == (GameState { p2: PlayerState { hitstun_frames: t.p2.hitstun_frames, ..s.p2 }, ..s }) && t.p2.hitstun_frames != s.p2.hitstun_frames
        ||| t == (GameState { p2: PlayerState { juggle_count: t.p2.juggle_count, ..s.p2 }, ..s }) && t.p2.juggle_count != s.p2.juggle_count
        ||| t == (GameState { p2: PlayerState { facing: t.p2.facing, ..s.p2 }, ..s }) && t.p2.facing != s.p2.facing
        ||| t == (GameState { combo_hit_count: t.combo_hit_count, ..s }) && t.combo_hit_count != s.combo_hit_count
        ||| t == (GameState { hitstun_scale_num: t.hitstun_scale_num, ..s }) && t.hitstun_scale_num != s.hitstun_scale_num
        ||| t == (GameState { timer_frames: t.timer_frames, ..s }) && t.timer_frames != s.timer_frames
        ||| t == (GameState { round_number: t.round_number, ..s }) && t.round_number != s.round_number
        ||| t == (GameState { p1_rounds_won: t.p1_rounds_won, ..s }) && t.p1_rounds_won != s.p1_rounds_won
        ||| t == (GameState { p2_rounds_won: t.p2_rounds_won, ..s }) && t.p2_rounds_won != s.p2_rounds_won
        ||| t == (GameState { frame_number: t.frame_number, ..s }) && t.frame_number != s.frame_number && s.frame_number < 0x8000_0000 && t.frame_number < 0x8000_0000
}

/// XOR-ing the same value on both sides keeps values apart; shifting a
/// sign-extended 32-bit value (or a byte, or a 32-bit count) left by no more
/// than the room above it loses nothing.
proof fn lemma_hash_bits()
    ensures
        forall|x: u64, y: u64, c: u64| #![trigger (x ^ c), (y ^ c)] (x ^ c) == (y ^ c) ==> x == y,
        forall|x: u64, y: u64, c: u64| #![trigger (c ^ x), (c ^ y)] (c ^ x) == (c ^ y) ==> x == y,
        forall|x: i32, y: i32, k: u32|
            #![trigger ((x as u64) << k), ((y as u64) << k)]
            k <= 32 && ((x as u64) << k) == ((y as u64) << k) ==> x == y,
        forall|x: i8, y: i8, k: u32|
            #![trigger ((x as u64) << k), ((y as u64) << k)]
            k <= 56 && ((x as u64) << k) == ((y as u64) << k) ==> x == y,
        forall|x: u8, y: u8, k: u32|
            #![trigger ((x as u64) << k), ((y as u64) << k)]
            k <= 56 && ((x as u64) << k) == ((y as u64) << k) ==> x == y,
        forall|x: u32, y: u32, k: u32|
            #![trigger ((x as u64) << k), ((y as u64) << k)]
            k <= 32 && ((x as u64) << k) == ((y as u64) << k) ==> x == y,
        forall|x: u64, y: u64|
            #![trigger (x << 33u32), (y << 33u32)]
            x < 0x8000_0000 && y < 0x8000_0000 && (x << 33u32) == (y << 33u32) ==> x == y,
        forall|x: i32, y: i32| #![trigger (x as u64), (y as u64)] (x as u64) == (y as u64) ==> x == y,
        forall|x: u8, y: u8| #![trigger (x as u64), (y as u64)] (x as u64) == (y as u64) ==> x == y,
{
    assert(forall|x: u64, y: u64, c: u64| #![trigger (x ^ c), (y ^ c)] (x ^ c) == (y ^ c) ==> x
        == y) by (bit_vector);
    assert(forall|x: u64, y: u64, c: u64| #![trigger (c ^ x), (c ^ y)] (c ^ x) == (c ^ y) ==> x
        == y) by (bit_vector);
    assert(forall|x: i32, y: i32, k: u32|
        #![trigger ((x as u64) << k), ((y as u64) << k)]
        k <= 32 && ((x as u64) << k) == ((y as u64) << k) ==> x == y) by (bit_vector);
    assert(forall|x: i8, y: i8, k: u32|
        #![trigger ((x as u64) << k), ((y as u64) << k)]
        k <= 56 && ((x as u64) << k) == ((y as u64) << k) ==> x == y) by (bit_vector);
    assert(forall|x: u8, y: u8, k: u32|
        #![trigger ((x as u64) << k), ((y as u64) << k)]
        k <= 56 && ((x as u64) << k) == ((y as u64) << k) ==> x == y) by (bit_vector);
    assert(forall|x: u32, y: u32, k: u32|
        #![trigger ((x as u64) << k), ((y as u64) << k)]
        k <= 32 && ((x as u64) << k) == ((y as u64) << k) ==> x == y) by (bit_vector);
    assert(forall|x: u64, y: u64|
        #![trigger (x << 33u32), (y << 33u32)]
        x < 0x8000_0000 && y < 0x8000_0000 && (x << 33u32) == (y << 33u32) ==> x == y)
        by (bit_vector);
    assert(forall|x: i32, y: i32| #![trigger (x as u64), (y as u64)] (x as u64) == (y as u64)
        ==> x == y) by (bit_vector);
    assert(forall|x: u8, y: u8| #![trigger (x as u64), (y as u64)] (x as u64) == (y as u64)
        ==> x == y) by (bit_vector);
}

proof fn lemma_hash_field_0(s: GameState, t: GameState)
    requires
        t == (GameState { p1: PlayerState { pos_x: t.p1.pos_x, ..s.p1 }, ..s }) && t.p1.pos_x != s.p1.pos_x,
    ensures
        spec_hash_state(s) != spec_hash_state(t),
{
    lemma_hash_bits();
}

proof fn lemma_hash_field_1(s: GameState, t: GameState)
    requires
        t == (GameState { p1: PlayerState { pos_y: t.p1.pos_y, ..s.p1 }, ..s }) && t.p1.pos_y != s.p1.pos_y,
    ensures
        spec_hash_state(s) != spec_hash_state(t),
{
    lemma_hash_bits();
}

proof fn lemma_hash_field_2(s: GameState, t: GameState)
    requires
        t == (GameState { p1: PlayerState { vel_x: t.p1.vel_x, ..s.p1 }, ..s }) && t.p1.vel_x != s.p1.vel_x,
    ensures
        spec_hash_state(s) != spec_hash_state(t),
{
    lemma_hash_bits();
}

proof fn lemma_hash_field_3(s: GameState, t: GameState)
    requires
        t == (GameState { p1: PlayerState { vel_y: t.p1.vel_y, ..s.p1 }, ..s }) && t.p1.vel_y != s.p1.vel_y,
    ensures
        spec_hash_state(s) != spec_hash_state(t),
{
    lemma_hash_bits();
}

proof fn lemma_hash_field_4(s: GameState, t: GameState)
    requires
        t == (GameState { p1: PlayerState { health: t.p1.health, ..s.p1 }, ..s }) && t.p1.health != s.p1.health,
    ensures
        spec_hash_state(s) != spec_hash_state(t),
{
    lemma_hash_bits();
}

proof fn lemma_hash_field_5(s: GameState, t: GameState)
    requires
        t == (GameState { p1: PlayerState { energy: t.p1.energy, ..s.p1 }, ..s }) && t.p1.energy != s.p1.energy,
    ensures
        spec_hash_state(s) != spec_hash_state(t),
{
    lemma_hash_bits();
}

proof fn lemma_hash_field_6(s: GameState, t: GameState)
    requires
        t == (GameState { p1: PlayerState { guard_meter: t.p1.guard_meter, ..s.p1 }, ..s }) && t.p1.guard_meter != s.p1.guard_meter,
    ensures
        spec_hash_state(s) != spec_hash_state(t),
{
    lemma_hash_bits();
}

proof fn lemma_hash_field_7(s: GameState, t: GameState)
    requires
        t == (GameState { p1: PlayerState { action_frame: t.p1.action_frame, ..s.p1 }, ..s }) && t.p1.action_frame != s.p1.action_frame,
    ensures
        spec_hash_state(s) != spec_hash_state(t),
{
    lemma_hash_bits();
}

proof fn lemma_hash_field_8(s: GameState, t: GameState)
    requires
        t == (GameState { p1: PlayerState { hitstun_frames: t.p1.hitstun_frames, ..s.p1 }, ..s }) && t.p1.hitstun_frames != s.p1.hitstun_frames,
    ensures
        spec_hash_state(s) != spec_hash_state(t),
{
    lemma_hash_bits();
}

proof fn lemma_hash_field_9(s: GameState, t: GameState)
    requires
        t == (GameState { p1: PlayerState { juggle_count: t.p1.juggle_count, ..s.p1 }, ..s }) && t.p1.juggle_count != s.p1.juggle_count,
    ensures
        spec_hash_state(s) != spec_hash_state(t),
{
    lemma_hash_bits();
}

proof fn lemma_hash_field_10(s: GameState, t: GameState)
    requires
        t == (GameState { p1: PlayerState { facing: t.p1.facing, ..s.p1 }, ..s }) && t.p1.facing != s.p1.facing,
    ensures
        spec_hash_state(s) != spec_hash_state(t),
{
    lemma_hash_bits();
}

proof fn lemma_hash_field_11(s: GameState, t: GameState)
    requires
        t == (GameState { p2: PlayerState { pos_x: t.p2.pos_x, ..s.p2 }, ..s }) && t.p2.pos_x != s.p2.pos_x,
    ensures
        spec_hash_state(s) != spec_hash_state(t),
{
    lemma_hash_bits();
}

proof fn lemma_hash_field_12(s: GameState, t: GameState)
    requires
        t == (GameState { p2: PlayerState { pos_y: t.p2.pos_y, ..s.p2 }, ..s }) && t.p2.pos_y != s.p2.pos_y,
    ensures
        spec_hash_state(s) != spec_hash_state(t),
{
    lemma_hash_bits();
}

proof fn lemma_hash_field_13(s: GameState, t: GameState)
    requires
        t == (GameState { p2: PlayerState { vel_x: t.p2.vel_x, ..s.p2 }, ..s }) && t.p2.vel_x != s.p2.vel_x,
    ensures
        spec_hash_state(s) != spec_hash_state(t),
{
    lemma_hash_bits();
}

proof fn lemma_hash_field_14(s: GameState, t: GameState)
    requires
        t == (GameState { p2: PlayerState { vel_y: t.p2.vel_y, ..s.p2 }, ..s }) && t.p2.vel_y != s.p2.vel_y,
    ensures
        spec_hash_state(s) != spec_hash_state(t),
{
    lemma_hash_bits();
}

proof fn lemma_hash_field_15(s: GameState, t: GameState)
    requires
        t == (GameState { p2: PlayerState { health: t.p2.health, ..s.p2 }, ..s }) && t.p2.health != s.p2.health,
    ensures
        spec_hash_state(s) != spec_hash_state(t),
{
    lemma_hash_bits();
}

proof fn lemma_hash_field_16(s: GameState, t: GameState)
    requires
        t == (GameState { p2: PlayerState { energy: t.p2.energy, ..s.p2 }, ..s }) && t.p2.energy != s.p2.energy,
    ensures
        spec_hash_state(s) != spec_hash_state(t),
{
    lemma_hash_bits();
}

proof fn lemma_hash_field_17(s: GameState, t: GameState)
    requires
        t == (GameState { p2: PlayerState { guard_meter: t.p2.guard_meter, ..s.p2 }, ..s }) && t.p2.guard_meter != s.p2.guard_meter,
    ensures
        spec_hash_state(s) != spec_hash_state(t),
{
    lemma_hash_bits();
}

proof fn lemma_hash_field_18(s: GameState, t: GameState)
    requires
        t == (GameState { p2: PlayerState { action_frame: t.p2.action_frame, ..s.p2 }, ..s }) && t.p2.action_frame != s.p2.action_frame,
    ensures
        spec_hash_state(s) != spec_hash_state(t),
{
    lemma_hash_bits();
}

proof fn lemma_hash_field_19(s: GameState, t: GameState)
    requires
        t == (GameState { p2: PlayerState { hitstun_frames: t.p2.hitstun_frames, ..s.p2 }, ..s }) && t.p2.hitstun_frames != s.p2.hitstun_frames,
    ensures
        spec_hash_state(s) != spec_hash_state(t),
{
    lemma_hash_bits();
}

proof fn lemma_hash_field_20(s: GameState, t: GameState)
    requires
        t == (GameState { p2: PlayerState { juggle_count: t.p2.juggle_count, ..s.p2 }, ..s }) && t.p2.juggle_count != s.p2.juggle_count,
    ensures
        spec_hash_state(s) != spec_hash_state(t),
{
    lemma_hash_bits();
}

proof fn lemma_hash_field_21(s: GameState, t: GameState)
    requires
        t == (GameState { p2: PlayerState { facing: t.p2.facing, ..s.p2 }, ..s }) && t.p2.facing != s.p2.facing,
    ensures
        spec_hash_state(s) != spec_hash_state(t),
{
    lemma_hash_bits();
}

proof fn lemma_hash_field_22(s: GameState, t: GameState)
    requires
        t == (GameState { combo_hit_count: t.combo_hit_count, ..s }) && t.combo_hit_count != s.combo_hit_count,
    ensures
        spec_hash_state(s) != spec_hash_state(t),
{
    lemma_hash_bits();
}

proof fn lemma_hash_field_23(s: GameState, t: GameState)
    requires
        t == (GameState { hitstun_scale_num: t.hitstun_scale_num, ..s }) && t.hitstun_scale_num != s.hitstun_scale_num,
    ensures
        spec_hash_state(s) != spec_hash_state(t),
{
    lemma_hash_bits();
}

proof fn lemma_hash_field_24(s: GameState, t: GameState)
    requires
        t == (GameState { timer_frames: t.timer_frames, ..s }) && t.timer_frames != s.timer_frames,
    ensures
        spec_hash_state(s) != spec_hash_state(t),
{
    lemma_hash_bits();
}

proof fn lemma_hash_field_25(s: GameState, t: GameState)
    requires
        t == (GameState { round_number: t.round_number, ..s }) && t.round_number != s.round_number,
    ensures
        spec_hash_state(s) != spec_hash_state(t),
{
    lemma_hash_bits();
}

proof fn lemma_hash_field_26(s: GameState, t: GameState)
    requires
        t == (GameState { p1_rounds_won: t.p1_rounds_won, ..s }) && t.p1_rounds_won != s.p1_rounds_won,
    ensures
        spec_hash_state(s) != spec_hash_state(t),
{
    lemma_hash_bits();
}

proof fn lemma_hash_field_27(s: GameState, t: GameState)
    requires
        t == (GameState { p2_rounds_won: t.p2_rounds_won, ..s }) && t.p2_rounds_won != s.p2_rounds_won,
    ensures
        spec_hash_state(s) != spec_hash_state(t),
{
    lemma_hash_bits();
}

proof fn lemma_hash_field_28(s: GameState, t: GameState)
    requires
        t == (GameState { frame_number: t.frame_number, ..s }) && t.frame_number != s.frame_number && s.frame_number < 0x8000_0000 && t.frame_number < 0x8000_0000,
    ensures
        spec_hash_state(s) != spec_hash_state(t),
{
    lemma_hash_bits();
}

/// The hash sees every field it covers: two states that differ in just one
/// of them hash differently, so such a desync is always detected.
pub proof fn law_hash_sees_each_field(s: GameState, t: GameState)
    requires
        differ_in_one_hashed_field(s, t),
    ensures
        spec_hash_state(s) != spec_hash_state(t),
{
    if t == (GameState { p1: PlayerState { pos_x: t.p1.pos_x, ..s.p1 }, ..s }) && t.p1.pos_x != s.p1.pos_x {
        lemma_hash_field_0(s, t);
    }
    if t == (GameState { p1: PlayerState { pos_y: t.p1.pos_y, ..s.p1 }, ..s }) && t.p1.pos_y != s.p1.pos_y {
        lemma_hash_field_1(s, t);
    }
    if t == (GameState { p1: PlayerState { vel_x: t.p1.vel_x, ..s.p1 }, ..s }) && t.p1.vel_x != s.p1.vel_x {
        lemma_hash_field_2(s, t);
    }
    if t == (GameState { p1: PlayerState { vel_y: t.p1.vel_y, ..s.p1 }, ..s }) && t.p1.vel_y != s.p1.vel_y {
        lemma_hash_field_3(s, t);
    }
    if t == (GameState { p1: PlayerState { health: t.p1.health, ..s.p1 }, ..s }) && t.p1.health != s.p1.health {
        lemma_hash_field_4(s, t);
    }
    if t == (GameState { p1: PlayerState { energy: t.p1.energy, ..s.p1 }, ..s }) && t.p1.energy != s.p1.energy {
        lemma_hash_field_5(s, t);
    }
    if t == (GameState { p1: PlayerState { guard_meter: t.p1.guard_meter, ..s.p1 }, ..s }) && t.p1.guard_meter != s.p1.guard_meter {
        lemma_hash_field_6(s, t);
    }
    if t == (GameState { p1: PlayerState { action_frame: t.p1.action_frame, ..s.p1 }, ..s }) && t.p1.action_frame != s.p1.action_frame {
        lemma_hash_field_7(s, t);
    }
    if t == (GameState { p1: PlayerState { hitstun_frames: t.p1.hitstun_frames, ..s.p1 }, ..s }) && t.p1.hitstun_frames != s.p1.hitstun_frames {
        lemma_hash_field_8(s, t);
    }
    if t == (GameState { p1: PlayerState { juggle_count: t.p1.juggle_count, ..s.p1 }, ..s }) && t.p1.juggle_count != s.p1.juggle_count {
        lemma_hash_field_9(s, t);
    }
    if t == (GameState { p1: PlayerState { facing: t.p1.facing, ..s.p1 }, ..s }) && t.p1.facing != s.p1.facing {
        lemma_hash_field_10(s, t);
    }
    if t == (GameState { p2: PlayerState { pos_x: t.p2.pos_x, ..s.p2 }, ..s }) && t.p2.pos_x != s.p2.pos_x {
        lemma_hash_field_11(s, t);
    }
    if t == (GameState { p2: PlayerState { pos_y: t.p2.pos_y, ..s.p2 }, ..s }) && t.p2.pos_y != s.p2.pos_y {
        lemma_hash_field_12(s, t);
    }
    if t == (GameState { p2: PlayerState { vel_x: t.p2.vel_x, ..s.p2 }, ..s }) && t.p2.vel_x != s.p2.vel_x {
        lemma_hash_field_13(s, t);
    }
    if t == (GameState { p2: PlayerState { vel_y: t.p2.vel_y, ..s.p2 }, ..s }) && t.p2.vel_y != s.p2.vel_y {
        lemma_hash_field_14(s, t);
    }
    if t == (GameState { p2: PlayerState { health: t.p2.health, ..s.p2 }, ..s }) && t.p2.health != s.p2.health {
        lemma_hash_field_15(s, t);
    }
    if t == (GameState { p2: PlayerState { energy: t.p2.energy, ..s.p2 }, ..s }) && t.p2.energy != s.p2.energy {
        lemma_hash_field_16(s, t);
    }
    if t == (GameState { p2: PlayerState { guard_meter: t.p2.guard_meter, ..s.p2 }, ..s }) && t.p2.guard_meter != s.p2.guard_meter {
        lemma_hash_field_17(s, t);
    }
    if t == (GameState { p2: PlayerState { action_frame: t.p2.action_frame, ..s.p2 }, ..s }) && t.p2.action_frame != s.p2.action_frame {
        lemma_hash_field_18(s, t);
    }
    if t == (GameState { p2: PlayerState { hitstun_frames: t.p2.hitstun_frames, ..s.p2 }, ..s }) && t.p2.hitstun_frames != s.p2.hitstun_frames {
        lemma_hash_field_19(s, t);
    }
    if t == (GameState { p2: PlayerState { juggle_count: t.p2.juggle_count, ..s.p2 }, ..s }) && t.p2.juggle_count != s.p2.juggle_count {
        lemma_hash_field_20(s, t);
    }
    if t == (GameState { p2: PlayerState { facing: t.p2.facing, ..s.p2 }, ..s }) && t.p2.facing != s.p2.facing {
        lemma_hash_field_21(s, t);
    }
    if t == (GameState { combo_hit_count: t.combo_hit_count, ..s }) && t.combo_hit_count != s.combo_hit_count {
        lemma_hash_field_22(s, t);
    }
    if t == (GameState { hitstun_scale_num: t.hitstun_scale_num, ..s }) && t.hitstun_scale_num != s.hitstun_scale_num {
        lemma_hash_field_23(s, t);
    }
    if t == (GameState { timer_frames: t.timer_frames, ..s }) && t.timer_frames != s.timer_frames {
        lemma_hash_field_24(s, t);
    }
    if t == (GameState { round_number: t.round_number, ..s }) && t.round_number != s.round_number {
        lemma_hash_field_25(s, t);
    }
    if t == (GameState { p1_rounds_won: t.p1_rounds_won, ..s }) && t.p1_rounds_won != s.p1_rounds_won {
        lemma_hash_field_26(s, t);
    }
    if t == (GameState { p2_rounds_won: t.p2_rounds_won, ..s }) && t.p2_rounds_won != s.p2_rounds_won {
        lemma_hash_field_27(s, t);
    }
    if t == (GameState { frame_number: t.frame_number, ..s }) && t.frame_number != s.frame_number && s.frame_number < 0x8000_0000 && t.frame_number < 0x8000_0000 {
        lemma_hash_field_28(s, t);
    }
}

} // verus!
