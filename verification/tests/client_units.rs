use std::collections::HashSet;

use shadowstrike::client::animation::{parent, AnimId, JointId};
use shadowstrike::client::element_from_u8;
use shadowstrike::client::input_handler::{read_p1_input, read_p2_input};
use shadowstrike::client::json_scan::{
    extract_json_array_u8, extract_json_string, extract_nested_string, unescape_sdp,
};
use shadowstrike::client::networking::{NetEvent, NetState, NetworkMode};
use shadowstrike::client::particles::element_rgb;
use shadowstrike::client::renderer::{
    action_name, element_accent, element_glow, input_summary, timer_color, timer_seconds,
};
use shadowstrike::client::rollback::RollbackManager;
use shadowstrike::game_sim::input::Input;
use shadowstrike::game_sim::player::{Element, PlayerAction};
use shadowstrike::game_sim::GameState;

fn keys(names: &[&str]) -> HashSet<String> {
    names.iter().map(|s| s.to_string()).collect()
}

#[test]
fn anim_for_each_action() {
    assert_eq!(AnimId::from_action(&PlayerAction::Idle), AnimId::Idle);
    assert_eq!(AnimId::from_action(&PlayerAction::WalkBack), AnimId::WalkBack);
    assert_eq!(AnimId::from_action(&PlayerAction::DashStrike), AnimId::DashStrike);
    assert_eq!(
        AnimId::from_action(&PlayerAction::Hitstun { frames_remaining: 7 }),
        AnimId::Hitstun
    );
    assert_eq!(
        AnimId::from_action(&PlayerAction::Knockdown { frames_remaining: 1 }),
        AnimId::Knockdown
    );
    assert_eq!(AnimId::from_action(&PlayerAction::Getup), AnimId::Getup);
}

#[test]
fn joint_indices_and_parents() {
    assert_eq!(JointId::Hips.index(), 0);
    assert_eq!(JointId::Head.index(), 3);
    assert_eq!(JointId::RAnkle.index(), 13);
    assert_eq!(parent(0), 0);
    assert_eq!(parent(3), 2);
    assert_eq!(parent(5), 1);
    assert_eq!(parent(8), 6);
    assert_eq!(parent(11), 0);
    assert_eq!(parent(13), 11);
}

#[test]
fn element_numbers() {
    assert_eq!(element_from_u8(0), Element::Fire);
    assert_eq!(element_from_u8(1), Element::Lightning);
    assert_eq!(element_from_u8(2), Element::DarkMagic);
    assert_eq!(element_from_u8(3), Element::Ice);
    assert_eq!(element_from_u8(200), Element::Fire);
}

#[test]
fn element_colours() {
    assert_eq!(element_accent(Element::Fire), "#ff6600");
    assert_eq!(element_accent(Element::Ice), "#66eeff");
    assert_eq!(element_glow(Element::Lightning), "rgba(100,180,255,0.35)");
    assert_eq!(element_glow(Element::DarkMagic), "rgba(153,0,255,0.35)");
}

#[test]
fn p1_keys_to_bits() {
    assert_eq!(read_p1_input(&keys(&[])).0, 0);
    assert_eq!(read_p1_input(&keys(&["a"])).0, 0b0000_0001);
    assert_eq!(read_p1_input(&keys(&["D", "w"])).0, 0b0000_0110);
    assert_eq!(read_p1_input(&keys(&["s", "Z", "x", "c", "V"])).0, 0b1111_1000);
    assert_eq!(read_p1_input(&keys(&["ArrowLeft", "j"])).0, 0);
}

#[test]
fn p2_keys_to_bits() {
    assert_eq!(read_p2_input(&keys(&["ArrowLeft"])).0, 0b0000_0001);
    assert_eq!(read_p2_input(&keys(&["ArrowRight", "ArrowUp", "ArrowDown"])).0, 0b0000_1110);
    assert_eq!(read_p2_input(&keys(&["J", "k", "L", ";"])).0, 0b1111_0000);
    assert_eq!(read_p2_input(&keys(&["a", "z"])).0, 0);
}

#[test]
fn rollback_snapshots_and_prediction() {
    let g = GameState::new(Element::Fire, Element::Ice);
    let mut rm = RollbackManager::new(&g);
    assert!(rm.get_snapshot(0).is_none());
    assert!(rm.get_snapshot(u64::MAX).is_some());
    rm.save_snapshot(3, &g);
    assert_eq!(rm.get_snapshot(3).unwrap().frame_number, 0);
    rm.save_snapshot(11, &g);
    assert!(rm.get_snapshot(3).is_none());

    assert_eq!(rm.predict_remote_input(5).0, 0);
    rm.record_p2_input(4, Input(9));
    assert_eq!(rm.predict_remote_input(5).0, 9);
    rm.record_p2_input(2, Input(1));
    assert_eq!(rm.predict_remote_input(5).0, 9);
    assert!(!rm.needs_rollback(4, Input(9)));
    assert!(rm.needs_rollback(4, Input(8)));
    assert!(rm.needs_rollback(7, Input(9)));
}

#[test]
fn rollback_replays_frames() {
    let start = GameState::new(Element::Fire, Element::Lightning);
    let mut rm = RollbackManager::new(&start);
    rm.save_snapshot(0, &start);
    for f in 0..4u64 {
        rm.record_p1_input(f, Input(0b10));
    }
    let mut game = start;
    game.tick(Input(1), Input(1));
    rm.perform_rollback(&mut game, 0, 4, &[Input(0b10000), Input(0b10000)], Input(0b1));

    let mut expected = start;
    expected.tick(Input(0b10000), Input(0b1));
    expected.tick(Input(0b10000), Input(0));
    expected.tick(Input(0b10), Input(0));
    expected.tick(Input(0b10), Input(0));
    assert_eq!(game.checksum(), expected.checksum());
    assert_eq!(game.frame_number, 4);
    assert_eq!(rm.get_snapshot(4).unwrap().checksum(), expected.checksum());
    assert!(!rm.needs_rollback(0, Input(0b1)));
}

#[test]
fn net_state_polls_in_order() {
    let mut n = NetState::new();
    assert_eq!(n.mode(), 0);
    assert!(n.poll_input().is_none());
    n.connect_result(true);
    assert_eq!(n.mode(), 1);
    n.receive_input(0x0102_0304_0506_0708, 0x55);
    assert_eq!(n.mode(), 3);
    assert!(n.is_connected());
    assert!(!n.is_p2p());
    n.receive_input(9, 1);
    assert_eq!(n.poll_input().unwrap(), vec![1, 2, 3, 4, 5, 6, 7, 8, 0x55]);
    assert_eq!(n.poll_input().unwrap(), vec![0, 0, 0, 0, 0, 0, 0, 9, 1]);
    assert!(n.poll_input().is_none());
}

#[test]
fn net_state_modes() {
    let mut n = NetState::new();
    n.connect_result(false);
    assert_eq!(n.mode(), 4);
    n.set_mode(NetworkMode::WebRTCDirect);
    assert_eq!(n.mode(), 5);
    assert!(n.is_p2p());
    assert!(n.is_connected());
    n.set_mode(NetworkMode::WebRTCConnecting);
    assert_eq!(n.mode(), 2);
    n.on_open(true);
    assert_eq!(n.player_id(), 2);
    n.on_open(false);
    assert_eq!(n.player_id(), 1);
}

#[test]
fn server_room_created() {
    let mut n = NetState::new();
    let ev = n.handle_server_message(r#"{"type":"room_created","room_code":"AB12"}"#, None, None);
    assert!(matches!(ev, NetEvent::RoomCreated { ref code } if code == "AB12"));
    assert_eq!(n.room_code(), Some("AB12".to_string()));
    assert_eq!(n.player_id(), 1);
    assert_eq!(n.mode(), 3);
}

#[test]
fn server_room_joined() {
    let mut n = NetState::new();
    let ev = n.handle_server_message(r#"{"type":"room_joined","player_id":2}"#, Some(2), None);
    assert!(matches!(ev, NetEvent::RoomJoined { player_id: 2 }));
    assert_eq!(n.player_id(), 2);
    let mut m = NetState::new();
    let ev = m.handle_server_message(r#"{"type":"room_joined","player_id":"7"}"#, None, None);
    assert!(matches!(ev, NetEvent::RoomJoined { player_id: 7 }));
    let ev = m.handle_server_message(r#"{"type":"room_joined"}"#, None, None);
    assert!(matches!(ev, NetEvent::RoomJoined { player_id: 2 }));
}

#[test]
fn server_input_relay_and_error() {
    let mut n = NetState::new();
    let text = r#"{"type":"input_relay","frame":42,"data":[17,0,0,0,0,0,0,0]}"#;
    let ev = n.handle_server_message(text, None, Some(42));
    assert!(matches!(ev, NetEvent::Nothing));
    assert_eq!(n.poll_input().unwrap(), vec![0, 0, 0, 0, 0, 0, 0, 42, 17]);
    let ev = n.handle_server_message(r#"{"type":"input_relay","frame":1,"data":[]}"#, None, Some(1));
    assert!(matches!(ev, NetEvent::Nothing));
    assert!(n.poll_input().is_none());
    let ev = n.handle_server_message(r#"{"type":"error","msg":"Room is full"}"#, None, None);
    assert!(matches!(ev, NetEvent::Error { ref msg } if msg == "Room is full"));
    let ev = n.handle_server_message(r#"{"type":"peer_joined"}"#, None, None);
    assert!(matches!(ev, NetEvent::PeerJoined { start_negotiation: false }));
    let ev = n.handle_server_message("not json", None, None);
    assert!(matches!(ev, NetEvent::Nothing));
}

#[test]
fn server_signals() {
    let mut n = NetState::new();
    let offer = r#"{"type":"signal","payload":{"kind":"offer","sdp":"v=0\r\no=\"x\""}}"#;
    let ev = n.handle_server_message(offer, None, None);
    assert!(matches!(ev, NetEvent::Offer { ref sdp } if sdp == "v=0\r\no=\\\"x\\\""));
    assert_eq!(n.mode(), 0);
    let answer = r#"{"type":"signal","payload":{"kind":"answer","sdp":"a"}}"#;
    let ev = n.handle_server_message(answer, None, None);
    assert!(matches!(ev, NetEvent::Nothing));
    assert_eq!(n.mode(), 2);
}

#[test]
fn json_field_helpers() {
    let text = r#"{"a":"x","room_code":"QW3E","data":[ 1, 2 ,x,300,9]}"#;
    assert_eq!(extract_json_string(text, "room_code"), Some("QW3E".to_string()));
    assert_eq!(extract_json_string(text, "missing"), None);
    assert_eq!(extract_json_array_u8(text, "data"), Some(vec![1, 2, 9]));
    assert_eq!(extract_json_array_u8(text, "a"), None);
    assert_eq!(
        extract_nested_string(r#"{"sdp":"say \"hi\" now","k":"v"}"#, "sdp"),
        Some(r#"say \"hi\" now"#.to_string())
    );
    assert_eq!(unescape_sdp(r"a\nb\rc\\n"), "a\nb\rc\\\n".to_string());
}

#[test]
fn clock_display() {
    assert_eq!(timer_seconds(5400), 90);
    assert_eq!(timer_seconds(59), 0);
    assert_eq!(timer_seconds(-120), 0);
    assert_eq!(timer_color(timer_seconds(600)), "#ff3333");
    assert_eq!(timer_color(15), "#ffcc00");
    assert_eq!(timer_color(21), "#ffd700");
}

#[test]
fn particle_colours() {
    assert_eq!(element_rgb(Element::Fire), (255, 140, 20));
    assert_eq!(element_rgb(Element::Ice), (150, 240, 255));
}

#[test]
fn debug_action_names() {
    assert_eq!(action_name(&PlayerAction::WalkForward), "WalkFwd");
    assert_eq!(action_name(&PlayerAction::Blockstun { frames_remaining: 3 }), "Blockstun");
    assert_eq!(action_name(&PlayerAction::HeavyAttack), "Heavy");
}

#[test]
fn debug_input_lines() {
    assert_eq!(input_summary(Input(0)), "0x00 (none)");
    assert_eq!(input_summary(Input(0x91)), "0x91 (L+lt+bl)");
    assert_eq!(input_summary(Input(0xFF)), "0xFF (L+R+U+D+lt+hv+sp+bl)");
    assert_eq!(input_summary(Input(0x2A)), "0x2A (R+D+hv)");
}
