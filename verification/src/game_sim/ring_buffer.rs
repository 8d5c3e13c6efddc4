use vstd::prelude::*;

verus! {

/// Fixed-size ring buffer with no heap allocation: the item for `frame`
/// lives in slot `frame % N`, tagged with the frame that wrote it.
#[derive(Debug, Clone, Copy)]
pub struct RingBuffer<T: Copy, const N: usize> {
    data: [T; N],
    frames: [u64; N],
}

/// The slot that holds the item for `frame`.
pub open spec fn slot_of(frame: u64, n: usize) -> int {
    (frame as usize) as int % (n as int)
}

impl<T: Copy, const N: usize> RingBuffer<T, N> {
    /// What `read(frame)` returns: the item of `frame`'s slot if that slot
    /// was last written for `frame`.
    pub closed spec fn spec_read(self, frame: u64) -> Option<T> {
        let i = slot_of(frame, N);
        if self.frames@[i] == frame {
            Some(self.data@[i])
        } else {
            None
        }
    }

    /// A buffer whose every slot holds `default`, tagged with frame `u64::MAX`.
    pub closed spec fn spec_new(default: T) -> Self {
        RingBuffer { data: [default; N], frames: [u64::MAX; N] }
    }

    /// The buffer after `write(frame, item)`.
    pub closed spec fn spec_write(self, frame: u64, item: T) -> Self {
        let i = slot_of(frame, N);
        RingBuffer {
            data: vstd::array::spec_array_update(self.data, i, item),
            frames: vstd::array::spec_array_update(self.frames, i, frame),
        }
    }

    /// A read gives back what the latest write of its frame wrote, as long as
    /// no write of another frame has since taken the same slot; a write
    /// changes no other slot.
    pub proof fn law_read_after_write(self, frame: u64, item: T)
        requires
            N > 0,
        ensures
            self.spec_write(frame, item).spec_read(frame) == Some(item),
            forall|f: u64|
                f != frame ==> #[trigger] self.spec_write(frame, item).spec_read(f) == if slot_of(
                    f,
                    N,
                ) == slot_of(frame, N) {
                    None
                } else {
                    self.spec_read(f)
                },
    {
        let w = self.spec_write(frame, item);
        assert forall|f: u64| f != frame implies #[trigger] w.spec_read(f) == if slot_of(f, N)
            == slot_of(frame, N) {
            None
        } else {
            self.spec_read(f)
        } by {
            let i = slot_of(f, N);
            let j = slot_of(frame, N);
            assert(0 <= i < N && 0 <= j < N);
        }
    }

    /// A new buffer answers only for frame `u64::MAX`, with the default item.
    pub proof fn law_read_new(default: T)
        requires
            N > 0,
        ensures
            forall|f: u64|
                #[trigger] Self::spec_new(default).spec_read(f) == if f == u64::MAX {
                    Some(default)
                } else {
                    None
                },
    {
        assert forall|f: u64| #[trigger] Self::spec_new(default).spec_read(f) == if f
            == u64::MAX {
            Some(default)
        } else {
            None
        } by {
            let i = slot_of(f, N);
            assert(0 <= i < N);
        }
    }

    pub fn new(default: T) -> (r: Self)
        ensures
            r == Self::spec_new(default),
            N > 0 ==> forall|f: u64|
                #[trigger] r.spec_read(f) == if f == u64::MAX {
                    Some(default)
                } else {
                    None
                },
    {
        RingBuffer { data: [default; N], frames: [u64::MAX; N] }
    }

    pub fn write(&mut self, frame: u64, item: T)
        requires
            N > 0,
        ensures
            *final(self) == old(self).spec_write(frame, item),
            final(self).spec_read(frame) == Some(item),
            forall|f: u64|
                f != frame ==> #[trigger] final(self).spec_read(f) == if slot_of(f, N) == slot_of(
                    frame,
                    N,
                ) {
                    None
                } else {
                    old(self).spec_read(f)
                },
    {
        let idx = (frame as usize) % N;
        self.data[idx] = item;
        self.frames[idx] = frame;
    }

    pub fn read(&self, frame: u64) -> (r: Option<&T>)
        requires
            N > 0,
        ensures
            r is Some <==> self.spec_read(frame) is Some,
            r matches Some(v) ==> self.spec_read(frame) == Some(*v),
    {
        let idx = (frame as usize) % N;
        if self.frames[idx] == frame {
            Some(&self.data[idx])
        } else {
            None
        }
    }
}

} // verus!
