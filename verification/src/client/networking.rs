use vstd::prelude::*;

use crate::client::json_scan::{
    chars_of, extract_json_array_u8, extract_json_string, extract_nested_string, find, has,
    lemma_find_from_found, matches_at, parse_u8, parsed_u8, spec_extract_json_array_u8,
    spec_extract_json_string, spec_extract_nested_string, spec_unescape_sdp, string_of,
    text_contains, unescape_sdp, find_from,
};
use crate::game_sim::input::Input;

verus! {

#[derive(Debug, Clone, Copy, PartialEq, Eq, Structural)]
pub enum NetworkMode {
    Local,
    Connecting,
    WebSocketRelay,
    WebRTCConnecting,
    WebRTCDirect,
    Disconnected,
}

/// The number the page sees for each mode.
pub open spec fn spec_mode_code(mode: NetworkMode) -> u8 {
    match mode {
        NetworkMode::Local => 0,
        NetworkMode::Connecting => 1,
        NetworkMode::WebRTCConnecting => 2,
        NetworkMode::WebSocketRelay => 3,
        NetworkMode::Disconnected => 4,
        NetworkMode::WebRTCDirect => 5,
    }
}

/// The eight bytes of `v`, most significant first.
pub open spec fn be_bytes(v: u64) -> Seq<u8> {
    seq![
        (v >> 56u64) as u8,
        (v >> 48u64) as u8,
        (v >> 40u64) as u8,
        (v >> 32u64) as u8,
        (v >> 24u64) as u8,
        (v >> 16u64) as u8,
        (v >> 8u64) as u8,
        v as u8,
    ]
}

/// What the page has to do after a server message.
pub enum NetEvent {
    /// Nothing (a message that is not understood, or lacks its fields).
    Nothing,
    /// A room was created under `code`.
    RoomCreated { code: String },
    /// This side joined a room as player `player_id`.
    RoomJoined { player_id: u8 },
    /// The other player arrived; the room's creator starts the peer-to-peer
    /// negotiation.
    PeerJoined { start_negotiation: bool },
    /// The other side offered a peer-to-peer session with this description.
    Offer { sdp: String },
    /// The server reported an error.
    Error { msg: String },
}

/// The part of a signal message after `"payload":`, if it has one.
pub open spec fn signal_payload(text: Seq<char>) -> Option<Seq<char>> {
    match find_from(text, "\"payload\":"@, 0) {
        Some(p) => Some(text.subrange(p + 10, text.len() as int)),
        None => None,
    }
}

/// The connection state that the network callbacks share: the mode, the
/// room, this side's player number and the remote inputs not yet polled.
pub struct NetState {
    pub mode: NetworkMode,
    pub room_code: Option<String>,
    pub player_id: u8,
    pub pending_inputs: Vec<(u64, Input)>,
    pub is_initiator: bool,
}

impl NetState {
    pub fn new() -> (r: Self)
        ensures
            r.mode == NetworkMode::Local,
            r.room_code is None,
            r.player_id == 0,
            r.pending_inputs@ == Seq::<(u64, Input)>::empty(),
            !r.is_initiator,
    {
        NetState {
            mode: NetworkMode::Local,
            room_code: None,
            player_id: 0,
            pending_inputs: Vec::new(),
            is_initiator: false,
        }
    }

    pub fn mode(&self) -> (r: u8)
        ensures
            r == spec_mode_code(self.mode),
    {
        match self.mode {
            NetworkMode::Local => 0,
            NetworkMode::Connecting => 1,
            NetworkMode::WebRTCConnecting => 2,
            NetworkMode::WebSocketRelay => 3,
            NetworkMode::Disconnected => 4,
            NetworkMode::WebRTCDirect => 5,
        }
    }

    pub fn room_code(&self) -> (r: Option<String>)
        ensures
            r == self.room_code,
    {
        self.room_code.clone()
    }

    pub fn player_id(&self) -> (r: u8)
        ensures
            r == self.player_id,
    {
        self.player_id
    }

    pub fn is_connected(&self) -> (r: bool)
        ensures
            r == (self.mode == NetworkMode::WebSocketRelay || self.mode
                == NetworkMode::WebRTCDirect),
    {
        self.mode == NetworkMode::WebSocketRelay || self.mode == NetworkMode::WebRTCDirect
    }

    pub fn is_p2p(&self) -> (r: bool)
        ensures
            r == (self.mode == NetworkMode::WebRTCDirect),
    {
        self.mode == NetworkMode::WebRTCDirect
    }

    /// Queues a remote input; the first one received while connecting shows
    /// that the relay is working.
    pub fn receive_input(&mut self, frame: u64, input_bits: u8)
        ensures
            final(self).pending_inputs@ == old(self).pending_inputs@.push((frame, Input(input_bits))),
            final(self).mode == if old(self).mode == NetworkMode::Connecting {
                NetworkMode::WebSocketRelay
            } else {
                old(self).mode
            },
            final(self).room_code == old(self).room_code,
            final(self).player_id == old(self).player_id,
            final(self).is_initiator == old(self).is_initiator,
    {
        self.pending_inputs.push((frame, Input(input_bits)));
        if self.mode == NetworkMode::Connecting {
            self.mode = NetworkMode::WebSocketRelay;
        }
    }

    /// Poll for received remote input: the oldest queued one, as its frame's
    /// eight big-endian bytes followed by the button bits.
    pub fn poll_input(&mut self) -> (r: Option<Vec<u8>>)
        ensures
            old(self).pending_inputs@.len() == 0 ==> r is None && *final(self) == *old(self),
            old(self).pending_inputs@.len() > 0 ==> {
                let (frame, input) = old(self).pending_inputs@[0];
                &&& r matches Some(bytes) && bytes@ == be_bytes(frame).push(input.0)
                &&& final(self).pending_inputs@ == old(self).pending_inputs@.drop_first()
                &&& final(self).mode == old(self).mode
                &&& final(self).room_code == old(self).room_code
                &&& final(self).player_id == old(self).player_id
                &&& final(self).is_initiator == old(self).is_initiator
            },
    {
        if self.pending_inputs.len() == 0 {
            return None;
        }
        let (frame, input) = self.pending_inputs.remove(0);
        let mut result: Vec<u8> = Vec::with_capacity(9);
        result.push((frame >> 56u64) as u8);
        result.push((frame >> 48u64) as u8);
        result.push((frame >> 40u64) as u8);
        result.push((frame >> 32u64) as u8);
        result.push((frame >> 24u64) as u8);
        result.push((frame >> 16u64) as u8);
        result.push((frame >> 8u64) as u8);
        result.push(frame as u8);
        result.push(input.0);
        assert(result@ =~= be_bytes(frame).push(input.0));
        assert(self.pending_inputs@ =~= old(self).pending_inputs@.drop_first());
        Some(result)
    }

    /// The connection is being opened; a failed open leaves it disconnected.
    pub fn connect_result(&mut self, opened: bool)
        ensures
            final(self).mode == if opened {
                NetworkMode::Connecting
            } else {
                NetworkMode::Disconnected
            },
            final(self).room_code == old(self).room_code,
            final(self).player_id == old(self).player_id,
            final(self).pending_inputs == old(self).pending_inputs,
            final(self).is_initiator == old(self).is_initiator,
    {
        self.mode = if opened {
            NetworkMode::Connecting
        } else {
            NetworkMode::Disconnected
        };
    }

    /// The socket opened: a joining side is player 2, a creating side player 1.
    pub fn on_open(&mut self, joining: bool)
        ensures
            final(self).player_id == if joining {
                2u8
            } else {
                1u8
            },
            final(self).mode == old(self).mode,
            final(self).room_code == old(self).room_code,
            final(self).pending_inputs == old(self).pending_inputs,
            final(self).is_initiator == old(self).is_initiator,
    {
        self.player_id = if joining {
            2
        } else {
            1
        };
    }

    /// A direct channel opened, or the relay connection closed or failed.
    pub fn set_mode(&mut self, mode: NetworkMode)
        ensures
            final(self).mode == mode,
            final(self).room_code == old(self).room_code,
            final(self).player_id == old(self).player_id,
            final(self).pending_inputs == old(self).pending_inputs,
            final(self).is_initiator == old(self).is_initiator,
    {
        self.mode = mode;
    }

    /// Queues an input that came over the direct channel.
    pub fn push_input(&mut self, frame: u64, input_bits: u8)
        ensures
            final(self).pending_inputs@ == old(self).pending_inputs@.push((frame, Input(input_bits))),
            final(self).mode == old(self).mode,
            final(self).room_code == old(self).room_code,
            final(self).player_id == old(self).player_id,
            final(self).is_initiator == old(self).is_initiator,
    {
        self.pending_inputs.push((frame, Input(input_bits)));
    }

    /// Decides what a text message from the relay server means, by the first
    /// `"type":"..."` tag found in this order: `room_created`, `room_joined`,
    /// `peer_joined`, `signal`, `input_relay`, `error`.
    ///
    /// `player_id_number` and `frame_number` are the message's numeric
    /// `player_id` and `frame` fields, where it has them, as the page reads
    /// JSON numbers.
    pub fn handle_server_message(
        &mut self,
        text: &str,
        player_id_number: Option<u8>,
        frame_number: Option<u64>,
    ) -> (r: NetEvent)
        ensures
            ({
                let t = text@;
                if has(t, "\"type\":\"room_created\""@) {
                    match spec_extract_json_string(t, "room_code"@) {
                        Some(code) => {
                            &&& final(self).room_code matches Some(c) && c@ == code
                            &&& final(self).mode == NetworkMode::WebSocketRelay
                            &&& final(self).player_id == 1
                            &&& final(self).pending_inputs == old(self).pending_inputs
                            &&& final(self).is_initiator == old(self).is_initiator
                            &&& r matches NetEvent::RoomCreated { code: c } && c@ == code
                        },
                        None => *final(self) == *old(self) && r is Nothing,
                    }
                } else if has(t, "\"type\":\"room_joined\""@) {
                    let pid: u8 = match spec_extract_json_string(t, "player_id"@) {
                        Some(s) => match parsed_u8(s) {
                            Some(v) => v,
                            None => 2,
                        },
                        None => match player_id_number {
                            Some(v) => v,
                            None => 2,
                        },
                    };
                    &&& final(self).player_id == pid
                    &&& final(self).mode == NetworkMode::WebSocketRelay
                    &&& final(self).room_code == old(self).room_code
                    &&& final(self).pending_inputs == old(self).pending_inputs
                    &&& final(self).is_initiator == old(self).is_initiator
                    &&& r matches NetEvent::RoomJoined { player_id } && player_id == pid
                } else if has(t, "\"type\":\"peer_joined\""@) {
                    &&& *final(self) == *old(self)
                    &&& r matches NetEvent::PeerJoined { start_negotiation }
                    &&& start_negotiation == old(self).is_initiator
                } else if has(t, "\"type\":\"signal\""@) {
                    match signal_payload(t) {
                        Some(pl) => if has(pl, "\"kind\":\"offer\""@) {
                            &&& *final(self) == *old(self)
                            &&& match spec_extract_nested_string(pl, "sdp"@) {
                                Some(sdp) => r matches NetEvent::Offer { sdp: x } && x@
                                    == spec_unescape_sdp(sdp),
                                None => r is Nothing,
                            }
                        } else if has(pl, "\"kind\":\"answer\""@) {
                            &&& r is Nothing
                            &&& match spec_extract_nested_string(pl, "sdp"@) {
                                Some(_) => {
                                    &&& final(self).mode == NetworkMode::WebRTCConnecting
                                    &&& final(self).room_code == old(self).room_code
                                    &&& final(self).player_id == old(self).player_id
                                    &&& final(self).pending_inputs == old(self).pending_inputs
                                    &&& final(self).is_initiator == old(self).is_initiator
                                },
                                None => *final(self) == *old(self),
                            }
                        } else {
                            *final(self) == *old(self) && r is Nothing
                        },
                        None => *final(self) == *old(self) && r is Nothing,
                    }
                } else if has(t, "\"type\":\"input_relay\""@) {
                    &&& r is Nothing
                    &&& match (frame_number, spec_extract_json_array_u8(t, "data"@)) {
                        (Some(f), Some(d)) => if d.len() > 0 {
                            &&& final(self).pending_inputs@ == old(self).pending_inputs@.push(
                                (f, Input(d[0])),
                            )
                            &&& final(self).mode == old(self).mode
                            &&& final(self).room_code == old(self).room_code
                            &&& final(self).player_id == old(self).player_id
                            &&& final(self).is_initiator == old(self).is_initiator
                        } else {
                            *final(self) == *old(self)
                        },
                        _ => *final(self) == *old(self),
                    }
                } else if has(t, "\"type\":\"error\""@) {
                    &&& *final(self) == *old(self)
                    &&& match spec_extract_json_string(t, "msg"@) {
                        Some(m) => r matches NetEvent::Error { msg } && msg@ == m,
                        None => r is Nothing,
                    }
                } else {
                    *final(self) == *old(self) && r is Nothing
                }
            }),
    {
        let s = chars_of(text);
        if text_contains(&s, "\"type\":\"room_created\"") {
            match extract_json_string(text, "room_code") {
                Some(code) => {
                    self.room_code = Some(code.clone());
                    self.mode = NetworkMode::WebSocketRelay;
                    self.player_id = 1;
                    NetEvent::RoomCreated { code }
                },
                None => NetEvent::Nothing,
            }
        } else if text_contains(&s, "\"type\":\"room_joined\"") {
            let pid: u8 = match extract_json_string(text, "player_id") {
                Some(pid_str) => match parse_u8(pid_str.as_str()) {
                    Some(v) => v,
                    None => 2,
                },
                None => match player_id_number {
                    Some(v) => v,
                    None => 2,
                },
            };
            self.player_id = pid;
            self.mode = NetworkMode::WebSocketRelay;
            NetEvent::RoomJoined { player_id: pid }
        } else if text_contains(&s, "\"type\":\"peer_joined\"") {
            NetEvent::PeerJoined { start_negotiation: self.is_initiator }
        } else if text_contains(&s, "\"type\":\"signal\"") {
            self.handle_signal(&s)
        } else if text_contains(&s, "\"type\":\"input_relay\"") {
            if let Some(frame) = frame_number {
                if let Some(data) = extract_json_array_u8(text, "data") {
                    if data.len() > 0 {
                        self.pending_inputs.push((frame, Input(data[0])));
                    }
                }
            }
            NetEvent::Nothing
        } else if text_contains(&s, "\"type\":\"error\"") {
            match extract_json_string(text, "msg") {
                Some(msg) => NetEvent::Error { msg },
                None => NetEvent::Nothing,
            }
        } else {
            NetEvent::Nothing
        }
    }

    /// WebRTC signaling through the relay: an offer is handed to the page to
    /// answer; an answer moves the connection on.
    fn handle_signal(&mut self, s: &Vec<char>) -> (r: NetEvent)
        ensures
            match signal_payload(s@) {
                Some(pl) => if has(pl, "\"kind\":\"offer\""@) {
                    &&& *final(self) == *old(self)
                    &&& match spec_extract_nested_string(pl, "sdp"@) {
                        Some(sdp) => r matches NetEvent::Offer { sdp: x } && x@ == spec_unescape_sdp(
                            sdp,
                        ),
                        None => r is Nothing,
                    }
                } else if has(pl, "\"kind\":\"answer\""@) {
                    &&& r is Nothing
                    &&& match spec_extract_nested_string(pl, "sdp"@) {
                        Some(_) => {
                            &&& final(self).mode == NetworkMode::WebRTCConnecting
                            &&& final(self).room_code == old(self).room_code
                            &&& final(self).player_id == old(self).player_id
                            &&& final(self).pending_inputs == old(self).pending_inputs
                            &&& final(self).is_initiator == old(self).is_initiator
                        },
                        None => *final(self) == *old(self),
                    }
                } else {
                    *final(self) == *old(self) && r is Nothing
                },
                None => *final(self) == *old(self) && r is Nothing,
            },
    {
        let marker = chars_of("\"payload\":");
        proof {
            reveal_strlit("\"payload\":");
        }
        match find(s, &marker, 0) {
            None => NetEvent::Nothing,
            Some(p) => {
                proof {
                    lemma_find_from_found(s@, marker@, 0);
                }
                assert(matches_at(s@, marker@, p as int));
                assert(p + 10 <= s.len());
                let payload = string_of(s, p + 10, s.len());
                let pv = chars_of(payload.as_str());
                if text_contains(&pv, "\"kind\":\"offer\"") {
                    match extract_nested_string(payload.as_str(), "sdp") {
                        Some(sdp) => NetEvent::Offer { sdp: unescape_sdp(sdp.as_str()) },
                        None => NetEvent::Nothing,
                    }
                } else if text_contains(&pv, "\"kind\":\"answer\"") {
                    if extract_nested_string(payload.as_str(), "sdp").is_some() {
                        self.mode = NetworkMode::WebRTCConnecting;
                    }
                    NetEvent::Nothing
                } else {
                    NetEvent::Nothing
                }
            },
        }
    }
}

} // verus!
