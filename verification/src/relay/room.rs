use vstd::prelude::*;

use rand::Rng;

use crate::relay::protocol::ServerMessage;
use crate::text::push_char;

verus! {

/// The sending half of an unbounded tokio channel.
#[verifier::external_type_specification]
#[verifier::external_body]
#[verifier::reject_recursive_types(T)]
pub struct ExUnboundedSender<T>(tokio::sync::mpsc::UnboundedSender<T>);

/// The thread-local random number generator of `rand`.
#[verifier::external_type_specification]
#[verifier::external_body]
pub struct ExThreadRng(rand::rngs::ThreadRng);

pub type MessageSender = tokio::sync::mpsc::UnboundedSender<ServerMessage>;

/// Calls `UnboundedSender::send`: the message is queued for the receiver if
/// it is still there. Whether it was is not reported, so nothing is claimed.
#[verifier::external_body]
pub(crate) fn send_message(tx: &MessageSender, msg: ServerMessage) {
    let _ = tx.send(msg);
}

/// Calls `rand::thread_rng`, the handle of the thread's generator. Nothing is
/// claimed of it.
#[verifier::external_body]
fn thread_rng() -> rand::rngs::ThreadRng {
    rand::thread_rng()
}

/// Calls `Rng::gen_range(0..n)`, which panics on an empty range and otherwise
/// returns a number in `0..n`; which one is left to chance.
#[verifier::external_body]
fn random_below(rng: &mut rand::rngs::ThreadRng, n: usize) -> (r: usize)
    requires
        n > 0,
    ensures
        r < n,
{
    rng.gen_range(0..n)
}

pub struct Room {
    pub code: String,
    pub players: [Option<MessageSender>; 2],
}

impl Room {
    pub fn new(code: String) -> (r: Self)
        ensures
            r.code == code,
            r.players[0] is None,
            r.players[1] is None,
    {
        Self { code, players: [None, None] }
    }

    /// Returns the player slot index (0 or 1) if there's space, None if full.
    pub fn add_player(&mut self, sender: MessageSender) -> (r: Option<usize>)
        ensures
            final(self).code == old(self).code,
            r == if old(self).players[0] is None {
                Some(0usize)
            } else if old(self).players[1] is None {
                Some(1usize)
            } else {
                None::<usize>
            },
            r matches Some(i) ==> final(self).players@ == old(self).players@.update(
                i as int,
                Some(sender),
            ),
            r is None ==> final(self).players == old(self).players,
    {
        let mut i: usize = 0;
        while i < 2
            invariant
                i <= 2,
                *self == *old(self),
                forall|j: int| 0 <= j < i ==> self.players[j] is Some,
            decreases 2 - i,
        {
            if self.players[i].is_none() {
                self.players[i] = Some(sender);
                return Some(i);
            }
            i += 1;
        }
        None
    }

    pub fn remove_player(&mut self, player_idx: usize)
        ensures
            final(self).code == old(self).code,
            player_idx < 2 ==> final(self).players@ == old(self).players@.update(
                player_idx as int,
                None,
            ),
            player_idx >= 2 ==> final(self).players == old(self).players,
    {
        if player_idx < 2 {
            self.players[player_idx] = None;
        }
    }

    pub fn is_empty(&self) -> (r: bool)
        ensures
            r == (self.players[0] is None && self.players[1] is None),
    {
        self.players[0].is_none() && self.players[1].is_none()
    }

    /// Send a message to the other player in the room, on the channel that
    /// `peer_sender` picks; returns that player's slot.
    pub fn send_to_other(&self, sender_idx: usize, msg: ServerMessage) -> (r: usize)
        requires
            sender_idx < 2,
        ensures
            r == 1 - sender_idx,
    {
        let other_idx = 1 - sender_idx;
        if let Some(tx) = self.peer_sender(sender_idx) {
            send_message(tx, msg);
        }
        other_idx
    }

    /// The sender of the player seated opposite `sender_idx`, if that seat
    /// is taken: the only channel `send_to_other` sends on.
    pub fn peer_sender(&self, sender_idx: usize) -> (r: Option<&MessageSender>)
        requires
            sender_idx < 2,
        ensures
            r is Some <==> self.players[1 - sender_idx as int] is Some,
            r matches Some(t) ==> self.players[1 - sender_idx as int] == Some(*t),
    {
        match &self.players[1 - sender_idx] {
            Some(tx) => Some(tx),
            None => None,
        }
    }
}

/// A character that room codes are made of: an upper-case letter or a digit.
pub open spec fn is_code_char(c: char) -> bool {
    ('A' <= c && c <= 'Z') || ('0' <= c && c <= '9')
}

/// A room code: four upper-case letters or digits.
pub open spec fn is_room_code(s: Seq<char>) -> bool {
    s.len() == 4 && forall|i: int| 0 <= i < 4 ==> is_code_char(#[trigger] s[i])
}

/// The `i`-th character of `ABCDEFGHIJKLMNOPQRSTUVWXYZ0123456789`.
pub open spec fn spec_code_char(i: int) -> char {
    if i < 26 {
        (65 + i) as char
    } else {
        (48 + i - 26) as char
    }
}

/// The `i`-th of the 36 characters of room codes: letters, then digits.
fn code_char(i: usize) -> (c: char)
    requires
        i < 36,
    ensures
        c == spec_code_char(i as int),
        is_code_char(c),
{
    if i < 26 {
        ((65 + i) as u8) as char
    } else {
        ((48 + i - 26) as u8) as char
    }
}

/// Generate a 4-character uppercase alphanumeric room code.
pub fn generate_room_code() -> (r: String)
    ensures
        is_room_code(r@),
{
    let mut rng = thread_rng();
    let mut code = String::new();
    let mut k: usize = 0;
    while k < 4
        invariant
            k <= 4,
            code@.len() == k,
            forall|i: int| 0 <= i < k ==> is_code_char(#[trigger] code@[i]),
        decreases 4 - k,
    {
        let i = random_below(&mut rng, 36);
        push_char(&mut code, code_char(i));
        k += 1;
    }
    code
}

} // verus!
