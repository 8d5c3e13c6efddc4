use shadowstrike::relay::protocol::{ClientMessage, ServerMessage};
use shadowstrike::relay::room::{generate_room_code, MessageSender, Room};
use shadowstrike::relay::server::{invalid_message, room_key, RoomTable, Session};
use tokio::sync::mpsc::{unbounded_channel, UnboundedReceiver};

fn channel() -> (MessageSender, UnboundedReceiver<ServerMessage>) {
    unbounded_channel::<ServerMessage>()
}

fn is_code(s: &str) -> bool {
    s.len() == 4 && s.chars().all(|c| c.is_ascii_uppercase() || c.is_ascii_digit())
}

#[test]
fn room_slots_fill_in_order() {
    let (a, _ra) = channel();
    let (b, _rb) = channel();
    let (c, _rc) = channel();
    let mut room = Room::new("ABCD".to_string());
    assert!(room.is_empty());
    assert_eq!(room.add_player(a), Some(0));
    assert_eq!(room.add_player(b), Some(1));
    assert_eq!(room.add_player(c), None);
    room.remove_player(0);
    assert!(!room.is_empty());
    room.remove_player(5);
    assert!(!room.is_empty());
    room.remove_player(1);
    assert!(room.is_empty());
}

#[test]
fn room_sends_to_the_other_player() {
    let (a, mut ra) = channel();
    let (b, mut rb) = channel();
    let mut room = Room::new("ZZ99".to_string());
    room.add_player(a);
    room.add_player(b);
    assert_eq!(room.send_to_other(0, ServerMessage::PeerJoined), 1);
    assert!(matches!(rb.try_recv(), Ok(ServerMessage::PeerJoined)));
    assert!(ra.try_recv().is_err());
}

#[test]
fn room_codes_have_four_code_chars() {
    for _ in 0..200 {
        let code = generate_room_code();
        assert!(is_code(&code), "bad code {}", code);
        assert!(room_key(&code).is_some());
    }
}

#[test]
fn room_keys() {
    assert_eq!(room_key(&"AAAA".to_string()), Some(0));
    assert_eq!(room_key(&"AAAB".to_string()), Some(1));
    assert_eq!(room_key(&"AAA0".to_string()), Some(26));
    assert_eq!(room_key(&"9999".to_string()), Some(36 * 36 * 36 * 36 - 1));
    assert_eq!(room_key(&"abcd".to_string()), None);
    assert_eq!(room_key(&"ABC".to_string()), None);
    assert_eq!(room_key(&"ABCDE".to_string()), None);
}

#[test]
fn create_then_join() {
    let mut table = RoomTable::new();
    let (a, mut ra) = channel();
    let (b, mut rb) = channel();
    let mut sa = Session::new();
    let mut sb = Session::new();

    let reply = table.handle_client_message(&mut sa, a.clone(), ClientMessage::CreateRoom);
    let code = match &reply.to_sender {
        Some(ServerMessage::RoomCreated { room_code }) => room_code.clone(),
        other => panic!("unexpected {:?}", other),
    };
    assert!(is_code(&code));
    assert!(reply.to_peer.is_none());
    assert_eq!(sa.my_slot, Some(0));
    assert_eq!(table.deliver(&sa, &a, reply), None);
    assert!(matches!(ra.try_recv(), Ok(ServerMessage::RoomCreated { .. })));

    let reply = table.handle_client_message(
        &mut sb,
        b.clone(),
        ClientMessage::JoinRoom { room_code: code.clone() },
    );
    assert!(matches!(reply.to_sender, Some(ServerMessage::RoomJoined { player_id: 2 })));
    assert!(matches!(reply.to_peer, Some(ServerMessage::PeerJoined)));
    assert_eq!(sb.my_slot, Some(1));
    assert_eq!(table.deliver(&sb, &b, reply), Some(0));
    assert!(matches!(rb.try_recv(), Ok(ServerMessage::RoomJoined { player_id: 2 })));
    assert!(matches!(ra.try_recv(), Ok(ServerMessage::PeerJoined)));
}

#[test]
fn join_errors() {
    let mut table = RoomTable::new();
    let (a, _ra) = channel();
    let (b, _rb) = channel();
    let (c, _rc) = channel();
    let mut sa = Session::new();
    let mut sb = Session::new();
    let mut sc = Session::new();

    let reply = table.handle_client_message(
        &mut sc,
        c.clone(),
        ClientMessage::JoinRoom { room_code: "NOPE".to_string() },
    );
    assert!(matches!(reply.to_sender, Some(ServerMessage::Error { ref msg }) if msg == "Room NOPE not found"));
    let reply = table.handle_client_message(
        &mut sc,
        c.clone(),
        ClientMessage::JoinRoom { room_code: "lower".to_string() },
    );
    assert!(matches!(reply.to_sender, Some(ServerMessage::Error { ref msg }) if msg == "Room lower not found"));

    let reply = table.handle_client_message(&mut sa, a, ClientMessage::CreateRoom);
    let code = match reply.to_sender {
        Some(ServerMessage::RoomCreated { room_code }) => room_code,
        _ => panic!("no room"),
    };
    table.handle_client_message(&mut sb, b, ClientMessage::JoinRoom { room_code: code.clone() });
    let reply = table.handle_client_message(&mut sc, c, ClientMessage::JoinRoom { room_code: code });
    assert!(matches!(reply.to_sender, Some(ServerMessage::Error { ref msg }) if msg == "Room is full"));
    assert!(reply.to_peer.is_none());
    assert!(sc.my_room.is_none());
}

#[test]
fn relays_go_to_the_peer() {
    let mut table = RoomTable::new();
    let (a, mut ra) = channel();
    let (b, mut rb) = channel();
    let mut sa = Session::new();
    let mut sb = Session::new();
    let reply = table.handle_client_message(&mut sa, a.clone(), ClientMessage::CreateRoom);
    let code = match reply.to_sender {
        Some(ServerMessage::RoomCreated { room_code }) => room_code,
        _ => panic!("no room"),
    };
    table.handle_client_message(&mut sb, b.clone(), ClientMessage::JoinRoom { room_code: code });

    let payload: serde_json::Value = serde_json::from_str(r#"{"sdp":"offer123"}"#).unwrap();
    let reply = table.handle_client_message(&mut sa, a.clone(), ClientMessage::Signal { payload });
    assert!(reply.to_sender.is_none());
    assert_eq!(table.deliver(&sa, &a, reply), Some(1));
    match rb.try_recv() {
        Ok(ServerMessage::Signal { payload }) => assert_eq!(payload["sdp"], "offer123"),
        other => panic!("unexpected {:?}", other),
    }

    let data = [1, 2, 3, 4, 5, 6, 7, 8];
    let reply = table.handle_client_message(&mut sb, b.clone(), ClientMessage::InputRelay { frame: 42, data });
    assert_eq!(table.deliver(&sb, &b, reply), Some(0));
    assert!(matches!(ra.try_recv(), Ok(ServerMessage::InputRelay { frame: 42, data: [1, 2, 3, 4, 5, 6, 7, 8] })));

    let mut loner = Session::new();
    let (c, _rc) = channel();
    let reply = table.handle_client_message(&mut loner, c, ClientMessage::InputRelay { frame: 1, data });
    assert!(reply.to_sender.is_none());
    assert!(reply.to_peer.is_none());
}

#[test]
fn empty_rooms_close() {
    let mut table = RoomTable::new();
    let (a, _ra) = channel();
    let (b, _rb) = channel();
    let (c, _rc) = channel();
    let mut sa = Session::new();
    let mut sb = Session::new();
    let mut sc = Session::new();
    let reply = table.handle_client_message(&mut sa, a, ClientMessage::CreateRoom);
    let code = match reply.to_sender {
        Some(ServerMessage::RoomCreated { room_code }) => room_code,
        _ => panic!("no room"),
    };
    table.handle_client_message(&mut sb, b, ClientMessage::JoinRoom { room_code: code.clone() });
    table.disconnect(&sa);
    assert_eq!(table.rooms.len(), 1);
    table.disconnect(&sb);
    assert_eq!(table.rooms.len(), 0);
    let reply = table.handle_client_message(&mut sc, c, ClientMessage::JoinRoom { room_code: code });
    assert!(matches!(reply.to_sender, Some(ServerMessage::Error { .. })));
}

#[test]
fn invalid_text_is_answered() {
    match invalid_message("expected value at line 1 column 1") {
        ServerMessage::Error { msg } => {
            assert_eq!(msg, "Invalid message: expected value at line 1 column 1")
        }
        other => panic!("unexpected {:?}", other),
    }
}

#[test]
fn three_clients_meet_in_one_room() {
    let mut table = RoomTable::new();
    let (a, mut ra) = channel();
    let (b, mut rb) = channel();
    let (c, mut rc) = channel();
    let mut sa = Session::new();
    let mut sb = Session::new();
    let mut sc = Session::new();
    let reply = table.handle_client_message(&mut sa, a.clone(), ClientMessage::CreateRoom);
    table.deliver(&sa, &a, reply);
    let code = match ra.try_recv() {
        Ok(ServerMessage::RoomCreated { room_code }) => room_code,
        other => panic!("unexpected {:?}", other),
    };
    assert!(is_code(&code));
    let reply = table.handle_client_message(&mut sb, b.clone(), ClientMessage::JoinRoom { room_code: code.clone() });
    table.deliver(&sb, &b, reply);
    assert!(matches!(rb.try_recv(), Ok(ServerMessage::RoomJoined { player_id: 2 })));
    assert!(matches!(ra.try_recv(), Ok(ServerMessage::PeerJoined)));
    assert!(rb.try_recv().is_err());
    let reply = table.handle_client_message(&mut sc, c.clone(), ClientMessage::JoinRoom { room_code: code });
    table.deliver(&sc, &c, reply);
    assert!(matches!(rc.try_recv(), Ok(ServerMessage::Error { ref msg }) if msg == "Room is full"));
    assert!(ra.try_recv().is_err());
}

#[test]
fn peer_sender_is_the_opposite_seat() {
    let (a, mut ra) = channel();
    let (b, mut rb) = channel();
    let mut room = Room::new("QQ11".to_string());
    assert!(room.peer_sender(0).is_none());
    room.add_player(a);
    assert!(room.peer_sender(0).is_none());
    assert!(room.peer_sender(1).is_some());
    room.add_player(b);
    room.peer_sender(1).unwrap().send(ServerMessage::PeerJoined).unwrap();
    assert!(matches!(ra.try_recv(), Ok(ServerMessage::PeerJoined)));
    assert!(rb.try_recv().is_err());
    assert_eq!(room.send_to_other(1, ServerMessage::PeerJoined), 0);
    assert!(matches!(ra.try_recv(), Ok(ServerMessage::PeerJoined)));
    assert!(rb.try_recv().is_err());
}

#[test]
fn route_sends_peer_messages_across_the_room() {
    let mut table = RoomTable::new();
    let (a, mut ra) = channel();
    let (b, mut rb) = channel();
    let mut sa = Session::new();
    let mut sb = Session::new();
    let reply = table.handle_client_message(&mut sa, a.clone(), ClientMessage::CreateRoom);
    let code = match reply.to_sender {
        Some(ServerMessage::RoomCreated { room_code }) => room_code,
        _ => panic!("no room"),
    };
    let reply = table.handle_client_message(&mut sb, b.clone(), ClientMessage::JoinRoom { room_code: code });
    let (own, peer) = table.route(&sb, reply);
    assert!(matches!(own, Some(ServerMessage::RoomJoined { player_id: 2 })));
    let (t, m) = peer.unwrap();
    assert!(matches!(m, ServerMessage::PeerJoined));
    t.send(m).unwrap();
    assert!(matches!(ra.try_recv(), Ok(ServerMessage::PeerJoined)));
    assert!(rb.try_recv().is_err());
    let lone = Session::new();
    let (own, peer) = table.route(&lone, shadowstrike::relay::server::Reply {
        to_sender: None,
        to_peer: Some(ServerMessage::PeerJoined),
    });
    assert!(own.is_none());
    assert!(peer.is_none());
}
