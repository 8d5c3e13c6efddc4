use shadowstrike::fixed_point::FixedPoint as PixelFixed;
use shadowstrike::game_sim::combo::ComboState;
use shadowstrike::game_sim::fixed::FixedPoint;
use shadowstrike::game_sim::input::Input;
use shadowstrike::game_sim::player::{attack_damage, Element, PlayerAction, PlayerState};
use shadowstrike::game_sim::reachable::is_reachable as sim_reachable;
use shadowstrike::game_sim::ring_buffer::RingBuffer as FrameBuffer;
use shadowstrike::game_sim::{GamePhase, GameState};
use shadowstrike::game_state::{ActionState, GameState as ArenaState, RoundPhase};
use shadowstrike::input::{InputFrame, InputHistory, BTN_HEAVY, BTN_JUMP, BTN_LIGHT, BTN_RIGHT};
use shadowstrike::reachable::is_reachable as arena_reachable;
use shadowstrike::rollback::RingBuffer;
use shadowstrike::simulation::{tick, try_tick};
use shadowstrike::client::json_scan::parse_u8;

struct Lcg(u32);

impl Lcg {
    fn next(&mut self) -> u32 {
        self.0 = self.0.wrapping_mul(1103515245).wrapping_add(12345);
        self.0
    }
}

#[test]
fn new_game_is_reachable_and_stays_so() {
    let mut rng = Lcg(2024);
    let mut s = GameState::new(Element::DarkMagic, Element::Ice);
    assert!(sim_reachable(&s));
    for _ in 0..3000 {
        let a = Input((rng.next() >> 16) as u8);
        let b = Input((rng.next() >> 16) as u8);
        s.tick(a, b);
        assert!(sim_reachable(&s), "left the reachable states at frame {}", s.frame_number);
    }
}

#[test]
fn clock_runs_down_by_one() {
    let mut s = GameState::new(Element::Fire, Element::Fire);
    let before = s.round_timer;
    s.tick(Input(0), Input(0));
    assert_eq!(s.round_timer, before - 1);
    assert_eq!(s.frame_number, 1);
}

#[test]
fn last_tick_of_the_clock_ends_the_round() {
    let mut s = GameState::new(Element::Fire, Element::Lightning);
    s.round_timer = 1;
    s.players[1].health = 500;
    s.tick(Input(0), Input(0));
    assert!(matches!(s.phase, GamePhase::RoundEnd { winner: 0, countdown: 120 }));
    assert_eq!(s.round_scores, [1, 0]);
}

#[test]
fn finished_match_does_not_move() {
    let mut s = GameState::new(Element::Fire, Element::Lightning);
    s.phase = GamePhase::MatchEnd { winner: 1 };
    s.round_scores = [0, 2];
    let before = s.checksum();
    s.tick(Input(0xff), Input(0xff));
    assert_eq!(s.checksum(), before);
    assert_eq!(s.frame_number, 0);
}

#[test]
fn unreachable_states_are_told_apart() {
    let mut s = GameState::new(Element::Fire, Element::Lightning);
    s.players[0].health = -5;
    assert!(!sim_reachable(&s));
    let mut t = GameState::new(Element::Fire, Element::Lightning);
    t.players[0].is_grounded = false;
    assert!(!sim_reachable(&t));
    t.players[0].vy = FixedPoint(-11500);
    t.players[0].y = FixedPoint(488500);
    assert!(sim_reachable(&t));
}

#[test]
fn arena_states_stay_reachable() {
    let mut s = ArenaState::initial();
    assert!(arena_reachable(&s));
    for i in 0..2000u32 {
        let b = match i % 9 {
            0..=3 => BTN_RIGHT,
            4 => BTN_LIGHT,
            _ => 0,
        };
        let before = s.frame_number;
        s = tick(&s, InputFrame::new(i, b), InputFrame::new(i, (i % 256) as u8));
        assert_eq!(s.frame_number, before + 1);
        assert!(arena_reachable(&s), "left the reachable states at frame {}", s.frame_number);
    }
}

#[test]
fn arena_out_of_bounds_state_is_not_reachable() {
    let mut s = ArenaState::initial();
    s.p1.vel_x = PixelFixed::raw(-10_000);
    assert!(!arena_reachable(&s));
}

#[test]
fn arena_match_end_only_counts_frames() {
    let mut s = ArenaState::initial();
    s.round_phase = RoundPhase::MatchEnd;
    s.p1_rounds_won = 2;
    let s2 = tick(&s, InputFrame::new(0, BTN_RIGHT), InputFrame::new(0, 0));
    assert_eq!(s2.frame_number, 1);
    assert_eq!(s2.p1.pos_x, s.p1.pos_x);
    assert_eq!(s2.round_phase, RoundPhase::MatchEnd);
}

#[test]
fn frame_buffer_read_after_write() {
    let mut b: FrameBuffer<u32, 4> = FrameBuffer::new(7);
    assert_eq!(b.read(u64::MAX), Some(&7));
    assert_eq!(b.read(0), None);
    b.write(5, 50);
    assert_eq!(b.read(5), Some(&50));
    b.write(6, 60);
    assert_eq!(b.read(5), Some(&50));
    b.write(9, 90);
    assert_eq!(b.read(5), None);
    assert_eq!(b.read(9), Some(&90));
    assert_eq!(b.read(6), Some(&60));
}

#[test]
fn defaults_are_empty() {
    let rb: RingBuffer<u32, 3> = RingBuffer::default();
    assert!(rb.is_empty());
    let h = InputHistory::default();
    assert_eq!(h.count, 0);
    let c = ComboState::default();
    assert_eq!(c.hit_count, 0);
    assert_eq!(c.hitstun_scale.raw(), 1000);
}

#[test]
fn fixed_point_conversions() {
    assert_eq!(PixelFixed::from(42).to_raw(), 42_000);
    assert_eq!(PixelFixed::from(-3).to_pixels(), -3);
    let mut a = FixedPoint::from_int(2);
    a += FixedPoint(500);
    assert_eq!(a.raw(), 2500);
    a -= FixedPoint::from_int(3);
    assert_eq!(a.raw(), -500);
}

#[test]
fn combo_scale_floors_at_thirty_percent() {
    let mut c = ComboState::new();
    assert_eq!(c.register_hit().raw(), 1000);
    assert_eq!(c.register_hit().raw(), 950);
    for _ in 0..20 {
        c.register_hit();
    }
    assert_eq!(c.hit_count, 22);
    assert_eq!(c.register_hit().raw(), 300);
}

#[test]
fn blocked_hit_costs_only_chip_damage() {
    let mut p = PlayerState::new(FixedPoint(300000), Element::Fire);
    p.health = 10;
    p.action = PlayerAction::Block;
    p.take_hit(100, 20, Element::Ice);
    assert_eq!(p.health, 0);
    assert_eq!(p.guard_meter, 90);
    let mut q = PlayerState::new(FixedPoint(300000), Element::Fire);
    q.action = PlayerAction::Block;
    q.take_hit(70, 20, Element::Ice);
    assert_eq!(q.health, 993);
    assert!(matches!(q.action, PlayerAction::Blockstun { frames_remaining: 12 }));
}

#[test]
fn light_chain_deals_85() {
    let total = attack_damage(&PlayerAction::LightAttack1)
        + attack_damage(&PlayerAction::LightAttack2)
        + attack_damage(&PlayerAction::LightAttack3);
    assert_eq!(total, 85);
}

#[test]
fn checksum_sees_every_field() {
    let base = GameState::new(Element::Fire, Element::Ice);
    let c = base.checksum();
    let mut s = base;
    s.round_scores[1] = 1;
    assert_ne!(s.checksum(), c);
    let mut s = base;
    s.phase = GamePhase::RoundEnd { winner: 0, countdown: 120 };
    assert_ne!(s.checksum(), c);
    let mut s = base;
    s.combo[0].hit_count = 1;
    assert_ne!(s.checksum(), c);
    let mut s = base;
    s.players[0].action = PlayerAction::Crouch;
    assert_ne!(s.checksum(), c);
    let mut s = base;
    s.players[1].element = Element::Lightning;
    assert_ne!(s.checksum(), c);
    let mut s = base;
    s.round_number = 2;
    assert_ne!(s.checksum(), c);
    let mut s = base;
    s.frame_number = 1u64 << 40;
    assert_ne!(s.checksum(), c);
    let mut s = base;
    s.projectiles[2].vx = FixedPoint(8000);
    assert_ne!(s.checksum(), c);
}

#[test]
fn light_attack_hits_once() {
    let mut s = ArenaState::initial();
    s.p1.pos_x = PixelFixed::from_pixels(100);
    s.p2.pos_x = PixelFixed::from_pixels(140);
    for _ in 0..5 {
        s = tick(&s, InputFrame::new(0, BTN_LIGHT), InputFrame::new(0, 0));
    }
    assert_eq!(s.p2.health, 940);
    assert_eq!(s.combo_hit_count, 1);
    assert_eq!(s.p1.energy, 5);
}

#[test]
fn parse_u8_reads_like_std() {
    for t in ["0", "7", "+7", "007", "255", "256", "-1", "", "+", " 1", "1 ", "12a", "99999999999", "+0", "++1"] {
        assert_eq!(parse_u8(t), t.parse::<u8>().ok(), "text {:?}", t);
    }
}

#[test]
fn array_pieces_trim_unicode_space() {
    let text = "{\"d\":[\u{3000}5\u{2003},\u{85}6\t, 7\u{200B}]}";
    let got = shadowstrike::client::json_scan::extract_json_array_u8(text, "d").unwrap();
    let expected: Vec<u8> = ["\u{3000}5\u{2003}", "\u{85}6\t", " 7\u{200B}"]
        .iter()
        .filter_map(|p| p.trim().parse::<u8>().ok())
        .collect();
    assert_eq!(got, expected);
    assert_eq!(got, vec![5, 6]);
}

#[test]
fn try_tick_matches_tick_and_refuses_overflow() {
    let s = ArenaState::initial();
    let a = InputFrame::new(0, BTN_RIGHT);
    let b = InputFrame::new(0, 0);
    let t = try_tick(&s, a, b).unwrap();
    assert_eq!(t.hash_state(), tick(&s, a, b).hash_state());
    let mut far = ArenaState::initial();
    far.p1.vel_x = PixelFixed::raw(-10_000);
    assert!(try_tick(&far, b, b).is_some());
    let mut over = ArenaState::initial();
    over.frame_number = u64::MAX;
    assert!(try_tick(&over, b, b).is_none());
    let mut up = ArenaState::initial();
    up.p1.pos_y = PixelFixed::raw(i32::MAX);
    up.p1.vel_y = PixelFixed::raw(1);
    assert!(try_tick(&up, b, b).is_none());
}

#[test]
fn a_landed_light_attack_cancels_into_heavy() {
    let mut s = ArenaState::initial();
    s.p1.pos_x = PixelFixed::from_pixels(100);
    s.p2.pos_x = PixelFixed::from_pixels(140);
    for _ in 0..3 {
        s = tick(&s, InputFrame::new(0, BTN_LIGHT), InputFrame::new(0, 0));
    }
    assert_eq!(s.p2.health, 940);
    s = tick(&s, InputFrame::new(0, BTN_HEAVY), InputFrame::new(0, 0));
    assert_eq!(s.p1.action, ActionState::HeavyAttack);
}

#[test]
fn a_light_attack_that_missed_cannot_cancel() {
    let mut s = ArenaState::initial();
    for _ in 0..3 {
        s = tick(&s, InputFrame::new(0, BTN_LIGHT), InputFrame::new(0, 0));
    }
    assert_eq!(s.p2.health, 1000);
    s = tick(&s, InputFrame::new(0, BTN_HEAVY), InputFrame::new(0, 0));
    assert_eq!(s.p1.action, ActionState::LightAttack);
}

#[test]
fn jump_lands_after_38_idle_ticks() {
    let idle = InputFrame::new(0, 0);
    let mut s = tick(&ArenaState::initial(), InputFrame::new(0, BTN_JUMP), idle);
    assert!(s.p1.is_airborne);
    assert_eq!(s.p1.pos_y.0, 11_400);
    for _ in 0..37 {
        s = tick(&s, idle, idle);
        assert!(s.p1.is_airborne);
    }
    s = tick(&s, idle, idle);
    assert!(!s.p1.is_airborne);
    assert_eq!(s.p1.pos_y.0, 0);
}
