use vstd::prelude::*;

use std::collections::HashMap;
use vstd::string::{StrSliceExecFns, StringExecFns};

use crate::relay::protocol::{ClientMessage, ServerMessage};
use crate::relay::room::{
    generate_room_code, is_code_char, is_room_code, send_message, MessageSender, Room,
};

verus! {

/// The position of a room-code character among `A..Z` then `0..9`.
pub open spec fn code_digit(c: char) -> int {
    if 'A' <= c && c <= 'Z' {
        (c as u32) - 65
    } else {
        (c as u32) - 48 + 26
    }
}

/// The number a room code stands for (its characters read as base-36
/// digits), or `None` for a text that is no room code.
pub open spec fn code_key(s: Seq<char>) -> Option<u32> {
    if is_room_code(s) {
        Some(
            (((code_digit(s[0]) * 36 + code_digit(s[1])) * 36 + code_digit(s[2])) * 36
                + code_digit(s[3])) as u32,
        )
    } else {
        None
    }
}

/// How many room codes there are: 36 characters in each of four places.
pub open spec fn code_count() -> int {
    1679616
}

/// No room code is in use.
pub open spec fn all_codes_free(rooms: Map<u32, Room>) -> bool {
    forall|k: u32| !#[trigger] rooms.contains_key(k)
}

/// Every room code is in use.
pub open spec fn all_codes_taken(rooms: Map<u32, Room>) -> bool {
    forall|k: u32| k < code_count() ==> #[trigger] rooms.contains_key(k)
}

/// The number of a room code is below the count of codes.
pub proof fn lemma_code_key_range(s: Seq<char>)
    requires
        is_room_code(s),
    ensures
        code_key(s) matches Some(k) && k < code_count(),
{
    let d0 = code_digit(s[0]);
    let d1 = code_digit(s[1]);
    let d2 = code_digit(s[2]);
    let d3 = code_digit(s[3]);
    assert(is_code_char(s[0]) && is_code_char(s[1]) && is_code_char(s[2]) && is_code_char(s[3]));
    assert(0 <= d0 < 36 && 0 <= d1 < 36 && 0 <= d2 < 36 && 0 <= d3 < 36);
    assert(0 <= d0 * 36 + d1 < 1296) by (nonlinear_arith)
        requires
            0 <= d0 < 36,
            0 <= d1 < 36,
    ;
    let a = d0 * 36 + d1;
    assert(0 <= a * 36 + d2 < 46656) by (nonlinear_arith)
        requires
            0 <= a < 1296,
            0 <= d2 < 36,
    ;
    let b = a * 36 + d2;
    assert(0 <= b * 36 + d3 < 1679616) by (nonlinear_arith)
        requires
            0 <= b < 46656,
            0 <= d3 < 36,
    ;
}

fn digit_of(c: char) -> (r: u32)
    requires
        is_code_char(c),
    ensures
        r == code_digit(c),
        r < 36,
{
    let v = c as u32;
    if 'A' <= c && c <= 'Z' {
        v - 65
    } else {
        v - 48 + 26
    }
}

/// The number a room code stands for, if `code` is one.
pub fn room_key(code: &String) -> (r: Option<u32>)
    ensures
        r == code_key(code@),
{
    let s = code.as_str();
    if s.unicode_len() != 4 {
        return None;
    }
    let mut key: u32 = 0;
    let mut i: usize = 0;
    while i < 4
        invariant
            s@ == code@,
            s@.len() == 4,
            i <= 4,
            forall|j: int| 0 <= j < i ==> is_code_char(#[trigger] s@[j]),
            key == (if i == 0 {
                0
            } else if i == 1 {
                code_digit(s@[0])
            } else if i == 2 {
                code_digit(s@[0]) * 36 + code_digit(s@[1])
            } else if i == 3 {
                (code_digit(s@[0]) * 36 + code_digit(s@[1])) * 36 + code_digit(s@[2])
            } else {
                ((code_digit(s@[0]) * 36 + code_digit(s@[1])) * 36 + code_digit(s@[2])) * 36
                    + code_digit(s@[3])
            }),
            key < 1679616,
            i == 1 ==> key < 36,
            i == 2 ==> key < 1296,
            i == 3 ==> key < 46656,
        decreases 4 - i,
    {
        let c = s.get_char(i);
        if !(('A' <= c && c <= 'Z') || ('0' <= c && c <= '9')) {
            return None;
        }
        let d = digit_of(c);
        key = key * 36 + d;
        i += 1;
    }
    Some(key)
}

/// The room and slot a connection has joined, if any.
pub struct Session {
    pub my_room: Option<String>,
    pub my_slot: Option<usize>,
}

impl Session {
    pub open spec fn wf(self) -> bool {
        self.my_slot matches Some(s) ==> s < 2
    }

    pub fn new() -> (r: Self)
        ensures
            r.my_room is None,
            r.my_slot is None,
    {
        Session { my_room: None, my_slot: None }
    }
}

/// What the relay answers to one client message: a message back to its
/// sender and a message to the other player of the sender's room.
pub struct Reply {
    pub to_sender: Option<ServerMessage>,
    pub to_peer: Option<ServerMessage>,
}

/// The open rooms, each under the number its code stands for.
pub struct RoomTable {
    pub rooms: HashMap<u32, Room>,
}

/// The key of the room a session is in, if it is in one.
pub open spec fn session_key(session: Session) -> Option<u32> {
    match (session.my_room, session.my_slot) {
        (Some(code), Some(_)) => code_key(code@),
        _ => None,
    }
}

/// Whether the session is in a room that is still open.
pub open spec fn in_open_room(rooms: Map<u32, Room>, session: Session) -> bool {
    session_key(session) matches Some(k) && rooms.contains_key(k)
}

/// The first free slot of a room.
pub open spec fn free_slot(room: Room) -> Option<usize> {
    if room.players[0] is None {
        Some(0usize)
    } else if room.players[1] is None {
        Some(1usize)
    } else {
        None
    }
}

/// The room with `tx` seated in `slot`.
pub open spec fn seated(room: Room, slot: usize, tx: MessageSender) -> Room {
    Room { players: vstd::array::spec_array_update(room.players, slot as int, Some(tx)), ..room }
}

/// The room-code key of a join request, if a room is open under it.
pub open spec fn join_target(rooms: Map<u32, Room>, code: Seq<char>) -> Option<u32> {
    match code_key(code) {
        Some(k) => if rooms.contains_key(k) {
            Some(k)
        } else {
            None
        },
        None => None,
    }
}

/// The room of a session with the session's slot freed.
pub open spec fn vacated(room: Room, slot: usize) -> Room {
    Room { players: vstd::array::spec_array_update(room.players, slot as int, None), ..room }
}

/// The open rooms after a session left: its slot is freed, and its room is
/// closed if nobody is left in it.
pub open spec fn after_disconnect(rooms: Map<u32, Room>, session: Session) -> Map<u32, Room> {
    if in_open_room(rooms, session) {
        let k = session_key(session)->0;
        let left = vacated(rooms[k], session.my_slot->0);
        if left.players[0] is None && left.players[1] is None {
            rooms.remove(k)
        } else {
            rooms.insert(k, left)
        }
    } else {
        rooms
    }
}

impl RoomTable {
    /// Every room is filed under the key of its own code.
    pub open spec fn wf(self) -> bool {
        forall|k: u32| #[trigger]
            self.rooms@.contains_key(k) ==> code_key(self.rooms@[k].code@) == Some(k)
    }

    pub fn new() -> (r: Self)
        ensures
            r.wf(),
            r.rooms@ == Map::<u32, Room>::empty(),
    {
        RoomTable { rooms: HashMap::new() }
    }

    /// A room code that no open room has. The code is drawn at random until
    /// a free one comes up; `None` only after `u64::MAX` codes drawn in a row
    /// were all taken.
    /// With no code in use the first draw is taken; with every code in use
    /// none is found.
    fn fresh_code(&self) -> (r: Option<String>)
        ensures
            r matches Some(c) ==> is_room_code(c@) && !self.rooms@.contains_key(
                code_key(c@)->0,
            ),
            all_codes_free(self.rooms@) ==> r is Some,
            all_codes_taken(self.rooms@) ==> r is None,
    {
        let mut attempts: u64 = 0;
        while attempts < u64::MAX
            invariant
                all_codes_free(self.rooms@) ==> attempts == 0,
            decreases u64::MAX - attempts,
        {
            let candidate = generate_room_code();
            let key = room_key(&candidate);
            proof {
                lemma_code_key_range(candidate@);
            }
            if let Some(k) = key {
                if !self.rooms.contains_key(&k) {
                    return Some(candidate);
                }
            }
            attempts += 1;
        }
        None
    }

    /// Opens a room with a fresh code and the sender in slot 0. With no code
    /// in use a room is always opened; with every code in use none is.
    fn create_room(&mut self, session: &mut Session, tx: MessageSender) -> (r: Reply)
        requires
            old(self).wf(),
        ensures
            final(self).wf(),
            r.to_peer is None,
            all_codes_free(old(self).rooms@) ==> r.to_sender is Some,
            all_codes_taken(old(self).rooms@) ==> r.to_sender is None,
            match r.to_sender {
                Some(ServerMessage::RoomCreated { room_code }) => {
                    &&& is_room_code(room_code@)
                    &&& !old(self).rooms@.contains_key(code_key(room_code@)->0)
                    &&& final(self).rooms@ == old(self).rooms@.insert(
                        code_key(room_code@)->0,
                        Room { code: room_code, players: [Some(tx), None] },
                    )
                    &&& final(session).my_room == Some(room_code)
                    &&& final(session).my_slot == Some(0usize)
                },
                None => {
                    &&& final(self).rooms@ == old(self).rooms@
                    &&& *final(session) == *old(session)
                },
                _ => false,
            },
    {
        match self.fresh_code() {
            None => Reply { to_sender: None, to_peer: None },
            Some(code) => {
                let key = room_key(&code);
                let k = key.unwrap();
                let mut r = Room::new(code.clone());
                let _ = r.add_player(tx);
                let ghost expected = Room { code: code, players: [Some(tx), None] };
                assert(r.players@ =~= expected.players@);
                assert(r.players == expected.players);
                assert(r == expected);
                self.rooms.insert(k, r);
                assert(self.rooms@ == old(self).rooms@.insert(k, expected));
                session.my_room = Some(code.clone());
                session.my_slot = Some(0);
                Reply { to_sender: Some(ServerMessage::RoomCreated { room_code: code }), to_peer: None }
            },
        }
    }

    /// Puts the sender into the room with code `room_code`, if it is open and
    /// has a free slot, and tells the other player.
    fn join_room(&mut self, session: &mut Session, tx: MessageSender, room_code: String) -> (r:
        Reply)
        requires
            old(self).wf(),
        ensures
            final(self).wf(),
            match join_target(old(self).rooms@, room_code@) {
                None => {
                    &&& final(self).rooms@ == old(self).rooms@
                    &&& *final(session) == *old(session)
                    &&& r.to_peer is None
                    &&& r.to_sender matches Some(ServerMessage::Error { msg })
                    &&& msg@ == "Room "@ + room_code@ + " not found"@
                },
                Some(k) => match free_slot(old(self).rooms@[k]) {
                    None => {
                        &&& final(self).rooms@ == old(self).rooms@
                        &&& *final(session) == *old(session)
                        &&& r.to_peer is None
                        &&& r.to_sender matches Some(ServerMessage::Error { msg })
                        &&& msg@ == "Room is full"@
                    },
                    Some(slot) => {
                        &&& final(self).rooms@ == old(self).rooms@.insert(
                            k,
                            seated(old(self).rooms@[k], slot, tx),
                        )
                        &&& final(session).my_room == Some(room_code)
                        &&& final(session).my_slot == Some(slot)
                        &&& r.to_sender == Some(
                            ServerMessage::RoomJoined { player_id: (slot + 1) as u8 },
                        )
                        &&& r.to_peer == Some(ServerMessage::PeerJoined)
                    },
                },
            },
    {
        let key = room_key(&room_code);
        let found = match key {
            Some(k) => self.rooms.remove(&k),
            None => None,
        };
        match found {
            None => {
                proof {
                    if let Some(k) = key {
                        assert(self.rooms@ =~= old(self).rooms@);
                    }
                }
                let mut msg = String::from_str("Room ");
                msg.append(room_code.as_str());
                msg.append(" not found");
                Reply { to_sender: Some(ServerMessage::Error { msg }), to_peer: None }
            },
            Some(mut room) => {
                let k = key.unwrap();
                let ghost before = room;
                match room.add_player(tx) {
                    None => {
                        self.rooms.insert(k, room);
                        assert(self.rooms@ =~= old(self).rooms@);
                        Reply {
                            to_sender: Some(ServerMessage::Error { msg: String::from_str("Room is full") }),
                            to_peer: None,
                        }
                    },
                    Some(slot) => {
                        let ghost expected = seated(before, slot, tx);
                        assert(room.players@ =~= expected.players@);
                        assert(room.players == expected.players);
                        self.rooms.insert(k, room);
                        assert(self.rooms@ =~= old(self).rooms@.insert(k, expected));
                        session.my_room = Some(room_code);
                        session.my_slot = Some(slot);
                        Reply {
                            to_sender: Some(ServerMessage::RoomJoined { player_id: (slot + 1) as u8 }),
                            to_peer: Some(ServerMessage::PeerJoined),
                        }
                    },
                }
            },
        }
    }

    /// The relay's decision on one client message: rooms and session are
    /// updated and the answer is returned; `deliver` sends it.
    ///
    /// * `CreateRoom` opens a room under a fresh code with the sender in
    ///   slot 0 and answers `RoomCreated`.
    /// * `JoinRoom` seats the sender in the first free slot of the room and
    ///   answers `RoomJoined` (player 1 or 2), telling the other player
    ///   `PeerJoined`; an unknown code or a full room is answered with an
    ///   error.
    /// * `Signal` and `InputRelay` go unchanged to the other player of the
    ///   sender's room, if the sender is in an open one.
    pub fn handle_client_message(
        &mut self,
        session: &mut Session,
        tx: MessageSender,
        msg: ClientMessage,
    ) -> (r: Reply)
        requires
            old(self).wf(),
            old(session).wf(),
        ensures
            final(self).wf(),
            final(session).wf(),
            match msg {
                ClientMessage::CreateRoom => {
                    &&& r.to_peer is None
                    &&& all_codes_free(old(self).rooms@) ==> r.to_sender is Some
                    &&& all_codes_taken(old(self).rooms@) ==> r.to_sender is None
                    &&& match r.to_sender {
                        Some(ServerMessage::RoomCreated { room_code }) => {
                            &&& is_room_code(room_code@)
                            &&& !old(self).rooms@.contains_key(code_key(room_code@)->0)
                            &&& final(self).rooms@ == old(self).rooms@.insert(
                                code_key(room_code@)->0,
                                Room { code: room_code, players: [Some(tx), None] },
                            )
                            &&& final(session).my_room == Some(room_code)
                            &&& final(session).my_slot == Some(0usize)
                        },
                        None => {
                            &&& final(self).rooms@ == old(self).rooms@
                            &&& *final(session) == *old(session)
                        },
                        _ => false,
                    }
                },
                ClientMessage::JoinRoom { room_code } => match join_target(
                    old(self).rooms@,
                    room_code@,
                ) {
                    None => {
                        &&& final(self).rooms@ == old(self).rooms@
                        &&& *final(session) == *old(session)
                        &&& r.to_peer is None
                        &&& r.to_sender matches Some(ServerMessage::Error { msg })
                        &&& msg@ == "Room "@ + room_code@ + " not found"@
                    },
                    Some(k) => match free_slot(old(self).rooms@[k]) {
                        None => {
                            &&& final(self).rooms@ == old(self).rooms@
                            &&& *final(session) == *old(session)
                            &&& r.to_peer is None
                            &&& r.to_sender matches Some(ServerMessage::Error { msg })
                            &&& msg@ == "Room is full"@
                        },
                        Some(slot) => {
                            &&& final(self).rooms@ == old(self).rooms@.insert(
                                k,
                                seated(old(self).rooms@[k], slot, tx),
                            )
                            &&& final(session).my_room == Some(room_code)
                            &&& final(session).my_slot == Some(slot)
                            &&& r.to_sender == Some(
                                ServerMessage::RoomJoined { player_id: (slot + 1) as u8 },
                            )
                            &&& r.to_peer == Some(ServerMessage::PeerJoined)
                        },
                    },
                },
                ClientMessage::Signal { payload } => {
                    &&& final(self).rooms@ == old(self).rooms@
                    &&& *final(session) == *old(session)
                    &&& r.to_sender is None
                    &&& r.to_peer == if in_open_room(old(self).rooms@, *old(session)) {
                        Some(ServerMessage::Signal { payload })
                    } else {
                        None
                    }
                },
                ClientMessage::InputRelay { frame, data } => {
                    &&& final(self).rooms@ == old(self).rooms@
                    &&& *final(session) == *old(session)
                    &&& r.to_sender is None
                    &&& r.to_peer == if in_open_room(old(self).rooms@, *old(session)) {
                        Some(ServerMessage::InputRelay { frame, data })
                    } else {
                        None
                    }
                },
            },
    {
        match msg {
            ClientMessage::CreateRoom => self.create_room(session, tx),
            ClientMessage::JoinRoom { room_code } => self.join_room(session, tx, room_code),
            ClientMessage::Signal { payload } => {
                let to_peer = if self.in_open_room(session) {
                    Some(ServerMessage::Signal { payload })
                } else {
                    None
                };
                Reply { to_sender: None, to_peer }
            },
            ClientMessage::InputRelay { frame, data } => {
                let to_peer = if self.in_open_room(session) {
                    Some(ServerMessage::InputRelay { frame, data })
                } else {
                    None
                };
                Reply { to_sender: None, to_peer }
            },
        }
    }

    /// Whether the session is in a room that is still open.
    fn in_open_room(&self, session: &Session) -> (r: bool)
        ensures
            r == in_open_room(self.rooms@, *session),
    {
        match (&session.my_room, session.my_slot) {
            (Some(code), Some(_)) => match room_key(code) {
                Some(k) => self.rooms.contains_key(&k),
                None => false,
            },
            _ => false,
        }
    }

    /// Where each message of a reply goes: the first to the sender's own
    /// channel, the second to the channel of the player seated opposite the
    /// sender in its room, if that room is open and that seat taken.
    pub fn route<'a>(&'a self, session: &Session, reply: Reply) -> (r: (
        Option<ServerMessage>,
        Option<(&'a MessageSender, ServerMessage)>,
    ))
        requires
            session.wf(),
        ensures
            r.0 == reply.to_sender,
            r.1 matches Some((t, m)) ==> {
                &&& reply.to_peer == Some(m)
                &&& in_open_room(self.rooms@, *session)
                &&& self.rooms@[session_key(*session)->0].players[1 - session.my_slot->0]
                    == Some(*t)
            },
            r.1 is None ==> {
                ||| reply.to_peer is None
                ||| !in_open_room(self.rooms@, *session)
                ||| self.rooms@[session_key(*session)->0].players[1 - session.my_slot->0] is None
            },
    {
        let Reply { to_sender, to_peer } = reply;
        let peer = match to_peer {
            None => None,
            Some(m) => match (&session.my_room, session.my_slot) {
                (Some(code), Some(slot)) => match room_key(code) {
                    Some(k) => match self.rooms.get(&k) {
                        Some(room) => match room.peer_sender(slot) {
                            Some(t) => Some((t, m)),
                            None => None,
                        },
                        None => None,
                    },
                    None => None,
                },
                _ => None,
            },
        };
        (to_sender, peer)
    }

    /// Sends a reply as `route` directs it: its first message on `tx`, the
    /// sender's own channel, its second to the other player of the sender's
    /// room. Returns the slot of that room the second message is for.
    pub fn deliver(&self, session: &Session, tx: &MessageSender, reply: Reply) -> (r: Option<
        usize,
    >)
        requires
            session.wf(),
        ensures
            r == if reply.to_peer is Some && in_open_room(self.rooms@, *session) {
                Some((1 - session.my_slot->0) as usize)
            } else {
                None
            },
    {
        let target = if reply.to_peer.is_some() && self.in_open_room(session) {
            match session.my_slot {
                Some(slot) => Some(1 - slot),
                None => None,
            }
        } else {
            None
        };
        let (own, peer) = self.route(session, reply);
        if let Some(m) = own {
            send_message(tx, m);
        }
        if let Some((t, m)) = peer {
            send_message(t, m);
        }
        target
    }

    /// Cleanup on disconnect: the session's slot is freed, and a room left
    /// without players is closed.
    pub fn disconnect(&mut self, session: &Session)
        requires
            old(self).wf(),
            session.wf(),
        ensures
            final(self).wf(),
            final(self).rooms@ == after_disconnect(old(self).rooms@, *session),
    {
        if let (Some(code), Some(slot)) = (&session.my_room, session.my_slot) {
            if let Some(k) = room_key(code) {
                if let Some(mut room) = self.rooms.remove(&k) {
                    let ghost before = room;
                    room.remove_player(slot);
                    let ghost left = vacated(before, slot);
                    assert(room.players@ =~= left.players@);
                    assert(room.players == left.players);
                    if !room.is_empty() {
                        self.rooms.insert(k, room);
                        assert(self.rooms@ =~= old(self).rooms@.insert(k, left));
                    } else {
                        assert(self.rooms@ =~= old(self).rooms@.remove(k));
                    }
                } else {
                    assert(self.rooms@ =~= old(self).rooms@);
                }
            }
        }
    }
}

/// The answer to a text that is no client message: `Invalid message: `
/// followed by what the parser said.
pub fn invalid_message(detail: &str) -> (r: ServerMessage)
    ensures
        r matches ServerMessage::Error { msg } && msg@ == "Invalid message: "@ + detail@,
{
    let mut msg = String::from_str("Invalid message: ");
    msg.append(detail);
    ServerMessage::Error { msg }
}

/// A room seats two players at most: the first one to come gets slot 0
/// (player 1), the second slot 1 (player 2), and then it is full.
pub proof fn law_two_seats(code: String, first: MessageSender, second: MessageSender)
    ensures
        free_slot(Room { code, players: [None, None] }) == Some(0usize),
        free_slot(seated(Room { code, players: [None, None] }, 0, first)) == Some(1usize),
        free_slot(seated(seated(Room { code, players: [None, None] }, 0, first), 1, second))
            is None,
{
}

/// Joining a room right after it was created with `code` finds it and seats
/// the joiner as player 2.
pub proof fn law_join_after_create(rooms: Map<u32, Room>, code: String, creator: MessageSender)
    requires
        is_room_code(code@),
    ensures
        ({
            let k = code_key(code@)->0;
            let after = rooms.insert(k, Room { code, players: [Some(creator), None] });
            &&& join_target(after, code@) == Some(k)
            &&& free_slot(after[k]) == Some(1usize)
        }),
{
}

/// A room whose two players both leave is closed.
pub proof fn law_empty_room_closes(
    rooms: Map<u32, Room>,
    code: String,
    a: MessageSender,
    b: MessageSender,
)
    requires
        is_room_code(code@),
        rooms.contains_key(code_key(code@)->0),
        rooms[code_key(code@)->0] == (Room { code, players: [Some(a), Some(b)] }),
    ensures
        ({
            let first = Session { my_room: Some(code), my_slot: Some(0usize) };
            let second = Session { my_room: Some(code), my_slot: Some(1usize) };
            after_disconnect(after_disconnect(rooms, first), second) == rooms.remove(
                code_key(code@)->0,
            )
        }),
{
    let k = code_key(code@)->0;
    let first = Session { my_room: Some(code), my_slot: Some(0usize) };
    let second = Session { my_room: Some(code), my_slot: Some(1usize) };
    let left = vacated(rooms[k], 0);
    assert(left.players[1] is Some);
    let mid = after_disconnect(rooms, first);
    assert(mid == rooms.insert(k, left));
    assert(vacated(mid[k], 1).players[0] is None);
    assert(after_disconnect(mid, second) =~= rooms.remove(k));
}

} // verus!