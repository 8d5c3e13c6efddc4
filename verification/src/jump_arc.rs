use vstd::prelude::*;

use crate::fixed_point::FixedPoint;
use crate::game_state::{spec_initial, ActionState, GameState, PlayerState};
use crate::input::{InputFrame, BTN_JUMP};
use crate::simulation::{spec_tick, tick_req};

verus! {

/// Height (fixed point) of a jump `n` ticks after take-off: 12 px/tick up,
/// 0.6 px/tick² down.
pub open spec fn jump_height(n: int) -> int {
    11700 * n - 300 * n * n
}

/// The match `n` ticks after player 1 jumped from the start position while
/// nobody pressed anything else.
pub open spec fn mid_jump(n: int) -> GameState {
    let s = spec_initial();
    GameState {
        p1: PlayerState {
            pos_y: FixedPoint(jump_height(n) as i32),
            vel_y: FixedPoint((12000 - 600 * n) as i32),
            is_airborne: true,
            action: ActionState::Jump,
            action_frame: n as u8,
            ..s.p1
        },
        p2: PlayerState { action_frame: n as u8, ..s.p2 },
        timer_frames: (5400 - n) as u32,
        frame_number: n as u64,
        ..s
    }
}

/// The state after `k` ticks in which both players send `idle`.
pub open spec fn idle_ticks(s: GameState, idle: InputFrame, k: nat) -> GameState
    decreases k,
{
    if k == 0 {
        s
    } else {
        let t = idle_ticks(s, idle, (k - 1) as nat);
        spec_tick(t, idle, idle)
    }
}

proof fn lemma_jump_height(n: int)
    requires
        1 <= n <= 38,
    ensures
        0 < jump_height(n) <= 114075,
        jump_height(n + 1) == jump_height(n) + 12000 - 600 * (n + 1),
        n + 1 <= 38 ==> jump_height(n + 1) > 0,
        n + 1 == 39 ==> jump_height(n + 1) == 0,
{
    assert(300 * (n + 1) * (n + 1) == 300 * n * n + 600 * n + 300) by (nonlinear_arith);
    assert(0 < 11700 * n - 300 * n * n <= 114075) by (nonlinear_arith)
        requires
            1 <= n <= 38,
    ;
    assert(n + 1 <= 38 ==> 11700 * (n + 1) - 300 * (n + 1) * (n + 1) > 0) by (nonlinear_arith)
        requires
            1 <= n <= 38,
    ;
}

/// No button is held in an input with no bits set.
proof fn lemma_no_buttons()
    ensures
        forall|b: u8| #[trigger] (0u8 & b) == 0u8,
{
    assert(forall|b: u8| #[trigger] (0u8 & b) == 0u8) by (bit_vector);
}

/// One idle tick in mid-air: the arc goes on.
proof fn lemma_jump_step(n: int, idle: InputFrame)
    requires
        1 <= n <= 37,
        idle.buttons == 0,
    ensures
        tick_req(mid_jump(n), idle, idle),
        spec_tick(mid_jump(n), idle, idle) == mid_jump(n + 1),
{
    lemma_jump_height(n);
    lemma_no_buttons();
    let r = spec_tick(mid_jump(n), idle, idle);
    let m = mid_jump(n + 1);
    assert(r.p1 == m.p1);
    assert(r.p2 == m.p2);
}

/// The jump input from the start position takes player 1 off the floor.
proof fn lemma_take_off(jump: InputFrame, idle: InputFrame)
    requires
        jump.buttons == BTN_JUMP,
        idle.buttons == 0,
    ensures
        tick_req(spec_initial(), jump, idle),
        spec_tick(spec_initial(), jump, idle) == mid_jump(1),
{
    lemma_no_buttons();
    assert((1u8 << 0u8) == 1u8 && (1u8 << 1u8) == 2u8 && (1u8 << 2u8) == 4u8 && (1u8 << 3u8)
        == 8u8 && (1u8 << 4u8) == 16u8 && (1u8 << 5u8) == 32u8 && (1u8 << 6u8) == 64u8)
        by (bit_vector);
    assert(4u8 & 64u8 == 0u8 && 4u8 & 32u8 == 0u8 && 4u8 & 16u8 == 0u8 && 4u8 & 4u8 != 0u8
        && 4u8 & 8u8 == 0u8 && 4u8 & 1u8 == 0u8 && 4u8 & 2u8 == 0u8) by (bit_vector);
    lemma_jump_height(1);
    let r = spec_tick(spec_initial(), jump, idle);
    let m = mid_jump(1);
    assert(r.p1 == m.p1);
    assert(r.p2 == m.p2);
}

/// The idle tick at the top of the count brings player 1 down to the floor.
proof fn lemma_touch_down(idle: InputFrame)
    requires
        idle.buttons == 0,
    ensures
        tick_req(mid_jump(38), idle, idle),
        !spec_tick(mid_jump(38), idle, idle).p1.is_airborne,
        spec_tick(mid_jump(38), idle, idle).p1.pos_y.0 == 0,
{
    lemma_no_buttons();
    lemma_jump_height(38);
}

proof fn lemma_idle_arc(idle: InputFrame, k: nat)
    requires
        idle.buttons == 0,
        k <= 37,
    ensures
        idle_ticks(mid_jump(1), idle, k) == mid_jump(1 + k as int),
    decreases k,
{
    if k > 0 {
        lemma_idle_arc(idle, (k - 1) as nat);
        lemma_jump_step(k as int, idle);
    }
}

/// A jump lands: from the start position, after player 1 jumps and both
/// players then hold nothing, every tick can run, and 38 ticks later player 1
/// stands on the floor again.
pub proof fn law_jump_lands(jump: InputFrame, idle: InputFrame)
    requires
        jump.buttons == BTN_JUMP,
        idle.buttons == 0,
    ensures
        tick_req(spec_initial(), jump, idle),
        spec_tick(spec_initial(), jump, idle).p1.is_airborne,
        forall|k: nat|
            k < 38 ==> tick_req(
                #[trigger] idle_ticks(spec_tick(spec_initial(), jump, idle), idle, k),
                idle,
                idle,
            ),
        !idle_ticks(spec_tick(spec_initial(), jump, idle), idle, 38).p1.is_airborne,
        idle_ticks(spec_tick(spec_initial(), jump, idle), idle, 38).p1.pos_y.0 == 0,
{
    lemma_take_off(jump, idle);
    assert forall|k: nat| k < 38 implies tick_req(
        #[trigger] idle_ticks(spec_tick(spec_initial(), jump, idle), idle, k),
        idle,
        idle,
    ) by {
        if k <= 36 {
            lemma_idle_arc(idle, k);
            lemma_jump_step(1 + k as int, idle);
        } else {
            lemma_idle_arc(idle, 37);
            lemma_touch_down(idle);
        }
    }
    lemma_idle_arc(idle, 37);
    lemma_touch_down(idle);
}

} // verus!
