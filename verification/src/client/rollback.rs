use vstd::prelude::*;

use crate::game_sim::input::Input;
use crate::game_sim::reachable::{game_ok, law_tick_counters, law_tick_keeps_game_ok};
use crate::game_sim::ring_buffer::RingBuffer;
use crate::game_sim::state::{spec_tick, tick_req};
use crate::game_sim::GameState;

verus! {

/// Manages rollback netcode state: snapshots, input history, and re-simulation.
pub struct RollbackManager {
    /// Last 8 state snapshots for rollback
    snapshots: RingBuffer<GameState, 8>,
    /// Player 1 input history (up to 120 frames)
    p1_inputs: RingBuffer<Input, 120>,
    /// Player 2 input history (up to 120 frames)
    p2_inputs: RingBuffer<Input, 120>,
    /// Last frame where we received confirmed P2 input
    last_confirmed_p2_frame: u64,
    /// Predicted input for remote player (repeat last known)
    predicted_p2_input: Input,
}

/// Player 1's input for frame `f` during a re-simulation from `from`: taken
/// from the inputs handed in where they reach, else from the history, else
/// no buttons.
pub open spec fn replay_p1_input(
    history: RingBuffer<Input, 120>,
    inputs: Seq<Input>,
    from: u64,
    f: int,
) -> Input {
    let idx = f - from;
    if idx < inputs.len() {
        inputs[idx]
    } else {
        match history.spec_read(f as u64) {
            Some(i) => i,
            None => Input(0),
        }
    }
}

/// Player 2's input for frame `f` during a re-simulation: the recorded one,
/// else the prediction.
pub open spec fn replay_p2_input(history: RingBuffer<Input, 120>, predicted: Input, f: int) -> Input {
    match history.spec_read(f as u64) {
        Some(i) => i,
        None => predicted,
    }
}

/// The game and the snapshot buffer after re-simulating `k` frames from
/// frame `from`, starting at `game`: each frame is ticked with its replay
/// inputs, and the state after frame `f` is saved as the snapshot of `f + 1`.
pub open spec fn resimulate(
    game: GameState,
    snapshots: RingBuffer<GameState, 8>,
    p1_history: RingBuffer<Input, 120>,
    p2_history: RingBuffer<Input, 120>,
    predicted: Input,
    inputs: Seq<Input>,
    from: u64,
    k: nat,
) -> (GameState, RingBuffer<GameState, 8>)
    decreases k,
{
    if k == 0 {
        (game, snapshots)
    } else {
        let (g, snaps) = resimulate(
            game,
            snapshots,
            p1_history,
            p2_history,
            predicted,
            inputs,
            from,
            (k - 1) as nat,
        );
        let f = from + k - 1;
        let next = spec_tick(
            g,
            replay_p1_input(p1_history, inputs, from, f),
            replay_p2_input(p2_history, predicted, f),
        );
        (next, snaps.spec_write((f + 1) as u64, next))
    }
}

/// Each of the first `k` frames of a re-simulation can be ticked without
/// overflow.
pub open spec fn replay_safe(
    game: GameState,
    snapshots: RingBuffer<GameState, 8>,
    p1_history: RingBuffer<Input, 120>,
    p2_history: RingBuffer<Input, 120>,
    predicted: Input,
    inputs: Seq<Input>,
    from: u64,
    k: nat,
) -> bool
    decreases k,
{
    if k == 0 {
        true
    } else {
        let g = resimulate(
            game,
            snapshots,
            p1_history,
            p2_history,
            predicted,
            inputs,
            from,
            (k - 1) as nat,
        ).0;
        let f = from + k - 1;
        &&& replay_safe(
            game,
            snapshots,
            p1_history,
            p2_history,
            predicted,
            inputs,
            from,
            (k - 1) as nat,
        )
        &&& tick_req(
            g,
            replay_p1_input(p1_history, inputs, from, f),
            replay_p2_input(p2_history, predicted, f),
        )
    }
}

proof fn lemma_replay_safe_prefix(
    game: GameState,
    snapshots: RingBuffer<GameState, 8>,
    p1_history: RingBuffer<Input, 120>,
    p2_history: RingBuffer<Input, 120>,
    predicted: Input,
    inputs: Seq<Input>,
    from: u64,
    j: nat,
    k: nat,
)
    requires
        j < k,
        replay_safe(game, snapshots, p1_history, p2_history, predicted, inputs, from, k),
    ensures
        tick_req(
            resimulate(game, snapshots, p1_history, p2_history, predicted, inputs, from, j).0,
            replay_p1_input(p1_history, inputs, from, from + j),
            replay_p2_input(p2_history, predicted, from + j),
        ),
    decreases k,
{
    if j + 1 < k {
        lemma_replay_safe_prefix(
            game,
            snapshots,
            p1_history,
            p2_history,
            predicted,
            inputs,
            from,
            j,
            (k - 1) as nat,
        );
    }
}

/// A re-simulation from a state that play can reach is safe, as long as the
/// frame and round counters have room for the frames replayed.
pub proof fn law_reachable_replay_is_safe(
    game: GameState,
    snapshots: RingBuffer<GameState, 8>,
    p1_history: RingBuffer<Input, 120>,
    p2_history: RingBuffer<Input, 120>,
    predicted: Input,
    inputs: Seq<Input>,
    from: u64,
    k: nat,
)
    requires
        game_ok(game),
        game.frame_number + k <= u64::MAX,
        game.round_number + k < i32::MAX,
    ensures
        replay_safe(game, snapshots, p1_history, p2_history, predicted, inputs, from, k),
        ({
            let g = resimulate(
                game,
                snapshots,
                p1_history,
                p2_history,
                predicted,
                inputs,
                from,
                k,
            ).0;
            &&& game_ok(g)
            &&& g.frame_number <= game.frame_number + k
            &&& g.round_number <= game.round_number + k
        }),
    decreases k,
{
    if k > 0 {
        law_reachable_replay_is_safe(
            game,
            snapshots,
            p1_history,
            p2_history,
            predicted,
            inputs,
            from,
            (k - 1) as nat,
        );
        let g = resimulate(
            game,
            snapshots,
            p1_history,
            p2_history,
            predicted,
            inputs,
            from,
            (k - 1) as nat,
        ).0;
        let f = from + k - 1;
        let a = replay_p1_input(p1_history, inputs, from, f);
        let b = replay_p2_input(p2_history, predicted, f);
        law_tick_keeps_game_ok(g, a, b);
        law_tick_counters(g, a, b);
    }
}

impl RollbackManager {
    pub closed spec fn snapshots(self) -> RingBuffer<GameState, 8> {
        self.snapshots
    }

    pub closed spec fn p1_history(self) -> RingBuffer<Input, 120> {
        self.p1_inputs
    }

    pub closed spec fn p2_history(self) -> RingBuffer<Input, 120> {
        self.p2_inputs
    }

    pub closed spec fn last_confirmed_p2_frame(self) -> u64 {
        self.last_confirmed_p2_frame
    }

    pub closed spec fn predicted_p2_input(self) -> Input {
        self.predicted_p2_input
    }

    /// The state a rollback from `from` starts at: the snapshot of `from`
    /// if it is still held, else the current game.
    pub open spec fn rollback_start(self, game: GameState, from: u64) -> GameState {
        match self.snapshots().spec_read(from) {
            Some(g) => g,
            None => game,
        }
    }

    pub fn new(initial_state: &GameState) -> (r: Self)
        ensures
            r.snapshots() == RingBuffer::<GameState, 8>::spec_new(*initial_state),
            r.p1_history() == RingBuffer::<Input, 120>::spec_new(Input(0)),
            r.p2_history() == RingBuffer::<Input, 120>::spec_new(Input(0)),
            r.last_confirmed_p2_frame() == 0,
            r.predicted_p2_input() == Input(0),
    {
        let dummy_state = *initial_state;
        RollbackManager {
            snapshots: RingBuffer::new(dummy_state),
            p1_inputs: RingBuffer::new(Input(0)),
            p2_inputs: RingBuffer::new(Input(0)),
            last_confirmed_p2_frame: 0,
            predicted_p2_input: Input(0),
        }
    }

    /// Save a snapshot of the game state at the given frame.
    pub fn save_snapshot(&mut self, frame: u64, state: &GameState)
        ensures
            final(self).snapshots() == old(self).snapshots().spec_write(frame, *state),
            final(self).p1_history() == old(self).p1_history(),
            final(self).p2_history() == old(self).p2_history(),
            final(self).last_confirmed_p2_frame() == old(self).last_confirmed_p2_frame(),
            final(self).predicted_p2_input() == old(self).predicted_p2_input(),
    {
        self.snapshots.write(frame, *state);
    }

    /// Retrieve a snapshot for the given frame, if still in the ring buffer.
    pub fn get_snapshot(&self, frame: u64) -> (r: Option<&GameState>)
        ensures
            r is Some <==> self.snapshots().spec_read(frame) is Some,
            r matches Some(g) ==> self.snapshots().spec_read(frame) == Some(*g),
    {
        self.snapshots.read(frame)
    }

    /// Record local (P1) input for a frame.
    pub fn record_p1_input(&mut self, frame: u64, input: Input)
        ensures
            final(self).p1_history() == old(self).p1_history().spec_write(frame, input),
            final(self).snapshots() == old(self).snapshots(),
            final(self).p2_history() == old(self).p2_history(),
            final(self).last_confirmed_p2_frame() == old(self).last_confirmed_p2_frame(),
            final(self).predicted_p2_input() == old(self).predicted_p2_input(),
    {
        self.p1_inputs.write(frame, input);
    }

    /// Record confirmed remote (P2) input for a frame; a frame later than any
    /// confirmed before becomes the latest, and its input the prediction.
    pub fn record_p2_input(&mut self, frame: u64, input: Input)
        ensures
            final(self).p2_history() == old(self).p2_history().spec_write(frame, input),
            final(self).snapshots() == old(self).snapshots(),
            final(self).p1_history() == old(self).p1_history(),
            final(self).last_confirmed_p2_frame() == if frame > old(
                self,
            ).last_confirmed_p2_frame() {
                frame
            } else {
                old(self).last_confirmed_p2_frame()
            },
            final(self).predicted_p2_input() == if frame > old(self).last_confirmed_p2_frame() {
                input
            } else {
                old(self).predicted_p2_input()
            },
    {
        self.p2_inputs.write(frame, input);
        if frame > self.last_confirmed_p2_frame {
            self.last_confirmed_p2_frame = frame;
            self.predicted_p2_input = input;
        }
    }

    /// Predict remote input for a frame: repeat last confirmed input.
    pub fn predict_remote_input(&self, _frame: u64) -> (r: Input)
        ensures
            r == self.predicted_p2_input(),
    {
        self.predicted_p2_input
    }

    /// Check if rollback is needed: the actual input differs from the prediction
    /// that was used for that frame.
    pub fn needs_rollback(&self, frame: u64, actual_input: Input) -> (r: bool)
        ensures
            r == match self.p2_history().spec_read(frame) {
                Some(predicted) => predicted != actual_input,
                None => true,
            },
    {
        match self.p2_inputs.read(frame) {
            Some(predicted) => *predicted != actual_input,
            None => true,
        }
    }

    /// Perform a rollback: restore state at from_frame, then re-simulate
    /// forward to current_frame using corrected inputs.
    ///
    /// Every replayed frame must be one that can be ticked without overflow
    /// (`replay_safe`); `law_reachable_replay_is_safe` gives this for any
    /// start state that play can reach, with room in its counters.
    pub fn perform_rollback(
        &mut self,
        game: &mut GameState,
        from_frame: u64,
        current_frame: u64,
        p1_inputs: &[Input],
        corrected_p2_input: Input,
    )
        requires
            replay_safe(
                old(self).rollback_start(*old(game), from_frame),
                old(self).snapshots(),
                old(self).p1_history(),
                old(self).p2_history().spec_write(from_frame, corrected_p2_input),
                old(self).predicted_p2_input(),
                p1_inputs@,
                from_frame,
                if from_frame < current_frame {
                    (current_frame - from_frame) as nat
                } else {
                    0
                },
            ),
        ensures
            ({
                let p2h = old(self).p2_history().spec_write(from_frame, corrected_p2_input);
                let n: nat = if from_frame < current_frame {
                    (current_frame - from_frame) as nat
                } else {
                    0
                };
                let (g, snaps) = resimulate(
                    old(self).rollback_start(*old(game), from_frame),
                    old(self).snapshots(),
                    old(self).p1_history(),
                    p2h,
                    old(self).predicted_p2_input(),
                    p1_inputs@,
                    from_frame,
                    n,
                );
                &&& *final(game) == g
                &&& final(self).snapshots() == snaps
                &&& final(self).p2_history() == p2h
            }),
            final(self).p1_history() == old(self).p1_history(),
            final(self).last_confirmed_p2_frame() == old(self).last_confirmed_p2_frame(),
            final(self).predicted_p2_input() == old(self).predicted_p2_input(),
    {
        // Restore snapshot
        if let Some(snapshot) = self.snapshots.read(from_frame) {
            game.restore_snapshot(*snapshot);
        }
        // Write corrected P2 input for the rollback frame
        self.p2_inputs.write(from_frame, corrected_p2_input);

        let ghost start = *game;
        let ghost snaps0 = self.snapshots;
        let mut frame = from_frame;
        // Re-simulate from from_frame to current_frame
        while frame < current_frame
            invariant
                from_frame <= frame,
                from_frame < current_frame ==> frame <= current_frame,
                from_frame >= current_frame ==> frame == from_frame,
                replay_safe(
                    start,
                    snaps0,
                    self.p1_inputs,
                    self.p2_inputs,
                    self.predicted_p2_input,
                    p1_inputs@,
                    from_frame,
                    if from_frame < current_frame {
                        (current_frame - from_frame) as nat
                    } else {
                        0
                    },
                ),
                (*game, self.snapshots) == resimulate(
                    start,
                    snaps0,
                    self.p1_inputs,
                    self.p2_inputs,
                    self.predicted_p2_input,
                    p1_inputs@,
                    from_frame,
                    (frame - from_frame) as nat,
                ),
                self.p1_inputs == old(self).p1_inputs,
                self.p2_inputs == old(self).p2_inputs.spec_write(from_frame, corrected_p2_input),
                self.last_confirmed_p2_frame == old(self).last_confirmed_p2_frame,
                self.predicted_p2_input == old(self).predicted_p2_input,
            decreases current_frame - frame,
        {
            let idx: u64 = frame - from_frame;
            let p1 = if idx < p1_inputs.len() as u64 {
                p1_inputs[idx as usize]
            } else {
                match self.p1_inputs.read(frame) {
                    Some(i) => *i,
                    None => Input(0),
                }
            };
            let p2 = match self.p2_inputs.read(frame) {
                Some(i) => *i,
                None => self.predicted_p2_input,
            };
            proof {
                lemma_replay_safe_prefix(
                    start,
                    snaps0,
                    self.p1_inputs,
                    self.p2_inputs,
                    self.predicted_p2_input,
                    p1_inputs@,
                    from_frame,
                    (frame - from_frame) as nat,
                    (current_frame - from_frame) as nat,
                );
            }
            game.tick(p1, p2);
            // Save updated snapshots as we re-simulate
            self.snapshots.write(frame + 1, *game);
            frame = frame + 1;
        }
    }
}

} // verus!
