use shadowstrike::animation::get_frame_data;
use shadowstrike::collision::Aabb;
use shadowstrike::fixed_point::FixedPoint;
use shadowstrike::game_state::{ActionState, GameState};
use shadowstrike::input::{
    InputFrame, InputHistory, BTN_BLOCK, BTN_CROUCH, BTN_HEAVY, BTN_JUMP, BTN_LEFT, BTN_LIGHT,
    BTN_RIGHT,
};
use shadowstrike::rollback::{RingBuffer, SnapshotBuffer};
use shadowstrike::simulation::{apply_combo_scaling, tick};

fn empty_input(frame: u32) -> InputFrame {
    InputFrame::new(frame, 0)
}

#[test]
fn light_attack_active_frames() {
    for f in 0..12 {
        let data = get_frame_data(ActionState::LightAttack, f);
        if (3..=5).contains(&f) {
            assert_eq!(data.boxes.hitbox_count, 1, "frame {} should be active", f);
        } else {
            assert_eq!(data.boxes.hitbox_count, 0, "frame {} should be inactive", f);
        }
    }
}

#[test]
fn heavy_attack_damage() {
    let data = get_frame_data(ActionState::HeavyAttack, 6);
    assert_eq!(data.damage, 100);
    assert_eq!(data.hitstun, 22);
}

#[test]
fn aabb_overlap() {
    let a = Aabb::new(0, 0, 10_000, 10_000);
    let b = Aabb::new(5_000, 5_000, 15_000, 15_000);
    assert!(a.overlaps(&b));
    assert!(b.overlaps(&a));

    let c = Aabb::new(20_000, 0, 30_000, 10_000);
    assert!(!a.overlaps(&c));
}

#[test]
fn aabb_no_overlap_edge() {
    let a = Aabb::new(0, 0, 10_000, 10_000);
    let b = Aabb::new(10_000, 0, 20_000, 10_000);
    assert!(!a.overlaps(&b));
}

#[test]
fn world_transform_facing_right() {
    let local = Aabb::new(5_000, 0, 20_000, 30_000);
    let world = local.to_world(FixedPoint::from_pixels(100), FixedPoint(0), 1);
    assert_eq!(world.x_min.0, 105_000);
    assert_eq!(world.x_max.0, 120_000);
}

#[test]
fn world_transform_facing_left() {
    let local = Aabb::new(5_000, 0, 20_000, 30_000);
    let world = local.to_world(FixedPoint::from_pixels(100), FixedPoint(0), -1);
    assert_eq!(world.x_min.0, 80_000);
    assert_eq!(world.x_max.0, 95_000);
}

#[test]
fn world_transform_moves_vertically() {
    let local = Aabb::new(5_000, 2_000, 20_000, 30_000);
    let world = local.to_world(FixedPoint::from_pixels(10), FixedPoint::from_pixels(3), 1);
    assert_eq!(world.y_min.0, 5_000);
    assert_eq!(world.y_max.0, 33_000);
}

#[test]
fn pixel_roundtrip() {
    let fp = FixedPoint::from_pixels(42);
    assert_eq!(fp.to_pixels(), 42);
    assert_eq!(fp.to_raw(), 42_000);
}

#[test]
fn pixels_round_toward_zero() {
    assert_eq!(FixedPoint::raw(1_999).to_pixels(), 1);
    assert_eq!(FixedPoint::raw(-1_999).to_pixels(), -1);
}

#[test]
fn arithmetic() {
    let a = FixedPoint::from_pixels(10);
    let b = FixedPoint::from_pixels(3);
    assert_eq!((a + b).to_pixels(), 13);
    assert_eq!((a - b).to_pixels(), 7);
    assert_eq!((-a).to_pixels(), -10);
}

#[test]
fn mul_fixed() {
    let a = FixedPoint::from_pixels(6);
    let b = FixedPoint::raw(500);
    let result = a * b;
    assert_eq!(result.to_raw(), 3000);
}

#[test]
fn ordering() {
    let a = FixedPoint::from_pixels(5);
    let b = FixedPoint::from_pixels(10);
    assert!(a < b);
    assert!(b > a);
    assert_eq!(a, a);
}

#[test]
fn game_state_is_copy() {
    let a = GameState::initial();
    let b = a;
    assert_eq!(a.p1.health, b.p1.health);
}

#[test]
fn hash_deterministic() {
    let a = GameState::initial();
    let b = GameState::initial();
    assert_eq!(a.hash_state(), b.hash_state());
}

#[test]
fn hash_sees_health() {
    let a = GameState::initial();
    let mut b = GameState::initial();
    b.p2.health = 999;
    assert_ne!(a.hash_state(), b.hash_state());
}

#[test]
fn game_state_size() {
    let size = core::mem::size_of::<GameState>();
    assert!(size <= 512, "GameState is {} bytes, must be <= 512", size);
}

#[test]
fn input_frame_size() {
    assert_eq!(core::mem::size_of::<InputFrame>(), 8);
}

#[test]
fn input_history_push_get() {
    let mut hist = InputHistory::new();
    for i in 0..5 {
        hist.push(InputFrame::new(i, i as u8));
    }
    assert_eq!(hist.get_recent(0).unwrap().frame_num, 4);
    assert_eq!(hist.get_recent(4).unwrap().frame_num, 0);
    assert!(hist.get_recent(5).is_none());
}

#[test]
fn input_history_wraps() {
    let mut hist = InputHistory::new();
    for i in 0..130u32 {
        hist.push(InputFrame::new(i, 0));
    }
    assert_eq!(hist.count, 120);
    assert_eq!(hist.get_recent(0).unwrap().frame_num, 129);
    assert_eq!(hist.get_recent(119).unwrap().frame_num, 10);
}

#[test]
fn button_pressed() {
    let f = InputFrame::new(0, BTN_JUMP | BTN_LIGHT);
    assert!(f.pressed(BTN_JUMP));
    assert!(f.pressed(BTN_LIGHT));
    assert!(!f.pressed(BTN_HEAVY));
}

#[test]
fn ring_buffer_basic() {
    let mut rb = RingBuffer::<u32, 4>::new();
    rb.push(10);
    rb.push(20);
    rb.push(30);
    assert_eq!(*rb.get_recent(0).unwrap(), 30);
    assert_eq!(*rb.get_recent(2).unwrap(), 10);
    assert!(rb.get_recent(3).is_none());
}

#[test]
fn ring_buffer_wrap() {
    let mut rb = RingBuffer::<u32, 3>::new();
    for i in 0..10u32 {
        rb.push(i);
    }
    assert_eq!(rb.len(), 3);
    assert_eq!(*rb.get_recent(0).unwrap(), 9);
    assert_eq!(*rb.get_recent(1).unwrap(), 8);
    assert_eq!(*rb.get_recent(2).unwrap(), 7);
}

#[test]
fn ring_buffer_empty() {
    let rb = RingBuffer::<u32, 3>::new();
    assert!(rb.is_empty());
    assert_eq!(rb.len(), 0);
    assert!(rb.get_recent(0).is_none());
}

#[test]
fn snapshot_buffer_stores_gamestate() {
    let mut sb = SnapshotBuffer::new();
    let gs = GameState::initial();
    sb.push(gs);
    assert_eq!(sb.get_recent(0).unwrap().p1.health, 1000);
}

#[test]
fn tick_advances_frame() {
    let s = GameState::initial();
    let s2 = tick(&s, empty_input(0), empty_input(0));
    assert_eq!(s2.frame_number, 1);
}

#[test]
fn tick_decrements_timer() {
    let s = GameState::initial();
    let s2 = tick(&s, empty_input(0), empty_input(0));
    assert_eq!(s2.timer_frames, GameState::TIMER_INITIAL - 1);
}

#[test]
fn walk_right() {
    let s = GameState::initial();
    let input = InputFrame::new(0, BTN_RIGHT);
    let s2 = tick(&s, input, empty_input(0));
    assert!(s2.p1.pos_x > s.p1.pos_x);
}

#[test]
fn jump_and_land() {
    let s = GameState::initial();
    let jump_input = InputFrame::new(0, BTN_JUMP);
    let empty = empty_input(0);

    let mut state = tick(&s, jump_input, empty);
    assert!(state.p1.is_airborne);

    for _ in 0..100 {
        state = tick(&state, empty, empty);
        if !state.p1.is_airborne {
            break;
        }
    }
    assert!(!state.p1.is_airborne);
    assert_eq!(state.p1.pos_y.0, 0);
}

#[test]
fn light_attack_deals_damage() {
    let mut s = GameState::initial();
    s.p1.pos_x = FixedPoint::from_pixels(100);
    s.p2.pos_x = FixedPoint::from_pixels(140);

    let light = InputFrame::new(0, BTN_LIGHT);
    let empty = empty_input(0);

    let mut state = s;
    for _ in 0..15 {
        state = tick(&state, light, empty);
    }
    assert!(state.p2.health < 1000);
}

#[test]
fn combo_scaling_reduces_damage() {
    assert_eq!(apply_combo_scaling(100, 100), 100);
    assert_eq!(apply_combo_scaling(100, 85), 85);
    assert_eq!(apply_combo_scaling(100, 70), 70);
}

#[test]
fn combo_scaling_rounds_down() {
    assert_eq!(apply_combo_scaling(33, 50), 16);
}

#[test]
fn determinism_test() {
    let mut inputs_p1 = [InputFrame::new(0, 0); 300];
    let mut inputs_p2 = [InputFrame::new(0, 0); 300];

    for i in 0..300u32 {
        let frame = i;
        let p1_buttons = match i % 20 {
            0..=4 => BTN_RIGHT,
            5..=7 => BTN_LIGHT,
            8..=12 => BTN_LEFT,
            13..=15 => BTN_HEAVY,
            16..=17 => BTN_JUMP,
            _ => 0,
        };
        let p2_buttons = match i % 16 {
            0..=3 => BTN_LEFT,
            4..=6 => BTN_BLOCK,
            7..=9 => BTN_CROUCH,
            10..=12 => BTN_LIGHT,
            _ => BTN_RIGHT,
        };
        inputs_p1[i as usize] = InputFrame::new(frame, p1_buttons);
        inputs_p2[i as usize] = InputFrame::new(frame, p2_buttons);
    }

    let mut state1 = GameState::initial();
    for i in 0..300 {
        state1 = tick(&state1, inputs_p1[i], inputs_p2[i]);
    }

    let mut state2 = GameState::initial();
    for i in 0..300 {
        state2 = tick(&state2, inputs_p1[i], inputs_p2[i]);
    }

    assert_eq!(
        state1.hash_state(),
        state2.hash_state(),
        "Determinism check failed: two identical runs produced different states"
    );
    assert_eq!(state1.p1.pos_x, state2.p1.pos_x);
    assert_eq!(state1.p2.pos_x, state2.p2.pos_x);
    assert_eq!(state1.p1.health, state2.p1.health);
    assert_eq!(state1.p2.health, state2.p2.health);
    assert_eq!(state1.frame_number, state2.frame_number);
    assert_eq!(state1.timer_frames, state2.timer_frames);
}

#[test]
fn timeout_awards_round() {
    let mut s = GameState::initial();
    s.timer_frames = 1;
    s.p1.health = 800;
    s.p2.health = 600;
    let s2 = tick(&s, empty_input(0), empty_input(0));
    assert_eq!(s2.p1_rounds_won, 1);
    assert_eq!(s2.p2_rounds_won, 0);
}

#[test]
fn knockdown_after_7_hits() {
    let mut s = GameState::initial();
    s.combo_hit_count = 6;
    s.p2.action = ActionState::Hitstun;
    s.p2.hitstun_frames = 10;
    s.p1.pos_x = FixedPoint::from_pixels(100);
    s.p2.pos_x = FixedPoint::from_pixels(140);

    let light = InputFrame::new(0, BTN_LIGHT);
    let empty = empty_input(0);

    let mut state = s;
    for _ in 0..15 {
        state = tick(&state, light, empty);
        if state.p2.action == ActionState::Knockdown {
            break;
        }
    }
    assert_eq!(state.p2.action, ActionState::Knockdown);
    assert_eq!(state.combo_hit_count, 0);
}

#[test]
fn stage_bounds() {
    let mut s = GameState::initial();
    s.p1.pos_x = FixedPoint::raw(0);
    s.p1.vel_x = FixedPoint::raw(-10_000);
    let empty = empty_input(0);
    let s2 = tick(&s, empty, empty);
    assert_eq!(s2.p1.pos_x.0, 0);
}

#[test]
fn auto_facing() {
    let mut s = GameState::initial();
    s.p1.pos_x = FixedPoint::from_pixels(900);
    s.p2.pos_x = FixedPoint::from_pixels(300);
    let empty = empty_input(0);
    let s2 = tick(&s, empty, empty);
    assert_eq!(s2.p1.facing, -1);
    assert_eq!(s2.p2.facing, 1);
}
