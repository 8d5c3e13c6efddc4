use vstd::prelude::*;

verus! {

// Button bitfield constants
pub const BTN_LEFT: u8 = 1 << 0;
pub const BTN_RIGHT: u8 = 1 << 1;
pub const BTN_JUMP: u8 = 1 << 2;
pub const BTN_CROUCH: u8 = 1 << 3;
pub const BTN_LIGHT: u8 = 1 << 4;
pub const BTN_HEAVY: u8 = 1 << 5;
pub const BTN_SPECIAL: u8 = 1 << 6;
pub const BTN_BLOCK: u8 = 1 << 7;

/// Depth of the input history.
pub const HISTORY_LEN: usize = 120;

/// 8 bytes: frame number + button bitfield + padding.
#[derive(Clone, Copy, Debug, Default, PartialEq, Eq)]
pub struct InputFrame {
    pub frame_num: u32,
    pub buttons: u8,
    pub _pad: [u8; 3],
}

/// Some button of `btn` is held in `buttons`.
pub open spec fn spec_pressed(buttons: u8, btn: u8) -> bool {
    buttons & btn != 0
}

impl InputFrame {
    pub fn new(frame_num: u32, buttons: u8) -> (r: Self)
        ensures
            r.frame_num == frame_num,
            r.buttons == buttons,
            r._pad@ == seq![0u8, 0u8, 0u8],
    {
        Self { frame_num, buttons, _pad: [0; 3] }
    }

    #[inline]
    pub fn pressed(&self, btn: u8) -> (r: bool)
        ensures
            r == spec_pressed(self.buttons, btn),
    {
        self.buttons & btn != 0
    }
}

/// Fixed-size ring buffer for input history (120 deep).
#[derive(Clone, Copy)]
pub struct InputHistory {
    pub buf: [InputFrame; 120],
    pub head: usize,
    pub count: usize,
}

impl Default for InputHistory {
    fn default() -> (r: Self)
        ensures
            r.wf(),
            r.recent() == Seq::<InputFrame>::empty(),
            r.head == 0,
            r.count == 0,
    {
        Self::new()
    }
}

impl InputHistory {
    /// The cursor and the count are within the buffer.
    pub open spec fn wf(self) -> bool {
        self.head < 120 && self.count <= 120
    }

    /// The stored inputs, newest first.
    pub open spec fn recent(self) -> Seq<InputFrame> {
        Seq::new(self.count as nat, |k: int| self.buf@[(self.head + 119 - k) % 120])
    }

    /// An empty history whose every slot holds frame 0 with no buttons.
    pub fn new() -> (r: Self)
        ensures
            r.wf(),
            r.recent() == Seq::<InputFrame>::empty(),
            r.head == 0,
            r.count == 0,
            forall|i: int|
                0 <= i < 120 ==> {
                    &&& (#[trigger] r.buf@[i]).frame_num == 0
                    &&& r.buf@[i].buttons == 0
                    &&& r.buf@[i]._pad@ == seq![0u8, 0u8, 0u8]
                },
    {
        let r = Self { buf: [InputFrame::new(0, 0); 120], head: 0, count: 0 };
        assert(r.recent() =~= Seq::<InputFrame>::empty());
        r
    }

    /// Records an input as the newest; the oldest is forgotten once 120 are held.
    pub fn push(&mut self, input: InputFrame)
        requires
            old(self).wf(),
        ensures
            final(self).wf(),
            final(self).buf@ == old(self).buf@.update(old(self).head as int, input),
            final(self).head == (old(self).head + 1) % (120 as int),
            final(self).count == if old(self).count < 120 {
                old(self).count + 1
            } else {
                120 as int
            },
            final(self).recent() == if old(self).count < 120 {
                seq![input] + old(self).recent()
            } else {
                (seq![input] + old(self).recent()).take(120)
            },
    {
        let ghost old_recent = self.recent();
        let ghost h = self.head as int;
        self.buf[self.head] = input;
        self.head = (self.head + 1) % 120;
        if self.count < 120 {
            self.count += 1;
        }
        proof {
            let expected = if old(self).count < 120 {
                seq![input] + old_recent
            } else {
                (seq![input] + old_recent).take(120)
            };
            assert forall|k: int| 0 <= k < self.count implies #[trigger] self.recent()[k]
                == expected[k] by {
                if k == 0 {
                    assert((self.head + 119 - k) % 120 == h);
                } else {
                    assert((self.head + 119 - k) % 120 == (h + 119 - (k - 1)) % 120);
                    assert((self.head + 119 - k) % 120 != h);
                }
            }
            assert(self.recent() =~= expected);
        }
    }

    /// Get the most recent input (0 = newest).
    pub fn get_recent(&self, age: usize) -> (r: Option<InputFrame>)
        requires
            self.wf(),
        ensures
            r == if age < self.count {
                Some(self.recent()[age as int])
            } else {
                None::<InputFrame>
            },
    {
        if age >= self.count {
            return None;
        }
        let idx = (self.head + 120 - 1 - age) % 120;
        Some(self.buf[idx])
    }
}

} // verus!
