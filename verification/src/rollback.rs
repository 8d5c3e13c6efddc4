use vstd::prelude::*;

use crate::game_state::GameState;
use crate::input::InputFrame;

verus! {

/// `x % m` for `0 <= x < 2m`: either `x` itself or `x - m`.
proof fn lemma_mod_below_twice(x: int, m: int)
    requires
        0 < m,
        0 <= x < 2 * m,
    ensures
        x % m == if x < m {
            x
        } else {
            x - m
        },
{
    if x < m {
        vstd::arithmetic::div_mod::lemma_small_mod(x as nat, m as nat);
    } else {
        vstd::arithmetic::div_mod::lemma_fundamental_div_mod_converse(x, m, 1, x - m);
    }
}

/// Generic fixed-size ring buffer. All const-generic, no heap.
#[derive(Clone, Copy)]
pub struct RingBuffer<T: Copy + Default, const N: usize> {
    pub buf: [T; N],
    pub head: usize,
    pub count: usize,
}

impl<T: Copy + Default, const N: usize> Default for RingBuffer<T, N> {
    fn default() -> (r: Self)
        ensures
            r.head == 0,
            r.count == 0,
            r.recent() == Seq::<T>::empty(),
    {
        Self::new()
    }
}

impl<T: Copy + Default, const N: usize> RingBuffer<T, N> {
    /// The cursor and the count are within the buffer.
    pub open spec fn wf(self) -> bool {
        self.head < N && self.count <= N
    }

    /// The stored items, newest first.
    pub open spec fn recent(self) -> Seq<T> {
        Seq::new(self.count as nat, |k: int| self.buf@[(self.head + N - 1 - k) % (N as int)])
    }

    pub fn new() -> (r: Self)
        ensures
            N > 0 ==> r.wf(),
            r.head == 0,
            r.count == 0,
            r.recent() == Seq::<T>::empty(),
    {
        let r = Self { buf: [T::default(); N], head: 0, count: 0 };
        assert(r.recent() =~= Seq::<T>::empty());
        r
    }

    /// Stores `item` as the newest; the oldest is forgotten once N are held.
    pub fn push(&mut self, item: T)
        requires
            old(self).wf(),
        ensures
            final(self).wf(),
            final(self).buf@ == old(self).buf@.update(old(self).head as int, item),
            final(self).head == (old(self).head + 1) % (N as int),
            final(self).count == if old(self).count < N {
                old(self).count + 1
            } else {
                N as int
            },
            final(self).recent() == if old(self).count < N {
                seq![item] + old(self).recent()
            } else {
                (seq![item] + old(self).recent()).take(N as int)
            },
    {
        let ghost old_recent = self.recent();
        let ghost h = self.head as int;
        let ghost n = N as int;
        self.buf[self.head] = item;
        proof {
            lemma_mod_below_twice(h + 1, n);
        }
        self.head = (self.head + 1) % N;
        if self.count < N {
            self.count += 1;
        }
        proof {
            let expected = if old(self).count < N {
                seq![item] + old_recent
            } else {
                (seq![item] + old_recent).take(n)
            };
            assert forall|k: int| 0 <= k < self.count implies #[trigger] self.recent()[k]
                == expected[k] by {
                lemma_mod_below_twice(self.head + n - 1 - k, n);
                if k > 0 {
                    lemma_mod_below_twice(h + n - 1 - (k - 1), n);
                }
            }
            assert(self.recent() =~= expected);
        }
    }

    /// Get item by age (0 = most recent).
    pub fn get_recent(&self, age: usize) -> (r: Option<&T>)
        requires
            self.wf(),
            self.head + N <= usize::MAX,
        ensures
            r is Some <==> age < self.count,
            r matches Some(v) ==> *v == self.recent()[age as int],
    {
        if age >= self.count {
            return None;
        }
        let idx = (self.head + N - 1 - age) % N;
        Some(&self.buf[idx])
    }

    pub fn len(&self) -> (r: usize)
        ensures
            r == self.recent().len(),
    {
        self.count
    }

    pub fn is_empty(&self) -> (r: bool)
        ensures
            r == (self.recent().len() == 0),
    {
        self.count == 0
    }
}

/// 8-deep snapshot buffer for rollback.
pub type SnapshotBuffer = RingBuffer<GameState, 8>;

/// 120-deep input buffer per player.
pub type InputBuffer = RingBuffer<InputFrame, 120>;

} // verus!
