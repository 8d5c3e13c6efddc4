use vstd::prelude::*;

verus! {

/// A JSON value that the relay forwards without looking inside.
#[verifier::external_type_specification]
#[verifier::external_body]
pub struct ExJsonValue(serde_json::Value);

/// Messages sent from client to server.
#[derive(Debug)]
pub enum ClientMessage {
    CreateRoom,
    JoinRoom { room_code: String },
    Signal { payload: serde_json::Value },
    InputRelay { frame: u64, data: [u8; 8] },
}

/// Messages sent from server to client.
#[derive(Debug)]
pub enum ServerMessage {
    RoomCreated { room_code: String },
    RoomJoined { player_id: u8 },
    PeerJoined,
    Signal { payload: serde_json::Value },
    InputRelay { frame: u64, data: [u8; 8] },
    Error { msg: String },
}

} // verus!
