//! Ordered buffers on the client side: the per-actor input buffer with its
//! gapless, strictly increasing sequence numbers, and the bounded history of
//! predicted position snapshots used to detect prediction error.

use vstd::prelude::*;

use std::collections::VecDeque;

use crate::message::OrderedInput;
use crate::message::OwnedPlayerSync;
use crate::message::PlayerInput;
use crate::vec2::Vec2Bits;
use crate::vec2::f32_gt;
use crate::vec2::gt_bits;
use crate::vec2::norm_bits;
use crate::vec2::sub_bits;
use crate::vec2::vec2_norm;
use crate::vec2::vec2_sub;

verus! {

/// Bound on the snapshot history: the oldest entries past this length are
/// evicted first.
pub const SNAPSHOT_HISTORY_LIMIT: usize = 100;

/// Bit pattern of the reconciliation distance threshold (0.1 units): an
/// authoritative position farther than this from the recorded snapshot
/// triggers a rollback.
pub const RECONCILE_EPSILON_BITS: u32 = 0x3DCCCCCD;

/// What remains of `s` after pruning it to at most `max` entries, oldest
/// evicted first.
pub open spec fn pruned<T>(s: Seq<T>, max: int) -> Seq<T> {
    if s.len() <= max {
        s
    } else {
        s.skip(s.len() - max)
    }
}

/// A queue that grows at the back and is pruned from the front.
#[derive(Debug, Clone)]
pub struct Buffer<T> {
    pub inner: VecDeque<T>,
}

impl<T> View for Buffer<T> {
    type V = Seq<T>;

    open spec fn view(&self) -> Seq<T> {
        self.inner@
    }
}

impl<T> Buffer<T> {
    pub fn new() -> (r: Buffer<T>)
        ensures
            r@ == Seq::<T>::empty(),
    {
        Buffer { inner: VecDeque::new() }
    }

    pub fn len(&self) -> (r: usize)
        ensures
            r == self@.len(),
    {
        self.inner.len()
    }

    pub fn push(&mut self, item: T)
        ensures
            final(self)@ == old(self)@.push(item),
    {
        self.inner.push_back(item);
    }

    /// Evicts oldest entries until at most `max_length` remain.
    pub fn prune(&mut self, max_length: usize)
        ensures
            final(self)@ == pruned(old(self)@, max_length as int),
            final(self)@.len() <= max_length || old(self)@.len() <= max_length,
    {
        let ghost orig: Seq<T> = self.inner@;
        while self.inner.len() > max_length
            invariant
                self.inner@.len() <= orig.len(),
                self.inner@.len() >= max_length || self.inner@.len() == orig.len(),
                self.inner@ == orig.skip(orig.len() - self.inner@.len()),
            decreases self.inner@.len(),
        {
            let ghost before: Seq<T> = self.inner@;
            self.inner.pop_front();
            proof {
                assert(self.inner@ =~= orig.skip(orig.len() - self.inner@.len()));
            }
        }
        proof {
            assert(self.inner@ =~= pruned(orig, max_length as int));
        }
    }

    /// The entry recorded `n` steps before the most recent one, if the
    /// history reaches that far back.
    pub fn get_nth_latest(&self, n: usize) -> (r: Option<&T>)
        ensures
            match r {
                Some(x) => n < self@.len() && *x == self@[self@.len() - 1 - n],
                None => n >= self@.len(),
            },
    {
        if n >= self.inner.len() {
            None
        } else {
            Some(&self.inner[self.inner.len() - 1 - n])
        }
    }

    pub fn get_latest(&self) -> (r: Option<&T>)
        ensures
            match r {
                Some(x) => self@.len() > 0 && *x == self@[self@.len() - 1],
                None => self@.len() == 0,
            },
    {
        if self.inner.len() == 0 {
            None
        } else {
            Some(&self.inner[self.inner.len() - 1])
        }
    }

    pub fn get(&self, i: usize) -> (r: &T)
        requires
            i < self@.len(),
        ensures
            *r == self@[i as int],
    {
        &self.inner[i]
    }

    /// The entries in insertion order.
    pub fn iter(&self) -> (r: &VecDeque<T>)
        ensures
            r@ == self@,
    {
        &self.inner
    }
}

/// The per-producer input buffer: each pushed intent receives the next
/// sequence number, starting at 1, with no gaps.
#[derive(Debug, Clone)]
pub struct InputBuffer {
    pub buffer: Buffer<OrderedInput>,
    pub count: u64,
}

impl InputBuffer {
    /// Every entry `i` carries order `i + 1` and `count` matches the length:
    /// the orders held are exactly `1..=count`.
    pub open spec fn wf(&self) -> bool {
        &&& self.count == self.buffer@.len()
        &&& forall|i: int|
            0 <= i < self.buffer@.len() ==> (#[trigger] self.buffer@[i].order) == i + 1
    }

    pub fn new() -> (r: InputBuffer)
        ensures
            r.wf(),
            r.buffer@.len() == 0,
            r.count == 0,
    {
        InputBuffer { buffer: Buffer::new(), count: 0 }
    }

    /// Stamps `input` with the next sequence number and appends it,
    /// returning the assigned order.
    pub fn push_input(&mut self, input: PlayerInput) -> (order: u64)
        requires
            old(self).wf(),
            old(self).count < u64::MAX,
        ensures
            final(self).wf(),
            final(self).count == old(self).count + 1,
            order == final(self).count,
            final(self).buffer@ == old(self).buffer@.push(
                OrderedInput { input, order: (old(self).count + 1) as u64 },
            ),
    {
        self.count = self.count + 1;
        self.buffer.push(OrderedInput { input, order: self.count });
        self.count
    }

    pub fn get_latest(&self) -> (r: Option<&OrderedInput>)
        ensures
            match r {
                Some(x) => self.buffer@.len() > 0 && *x == self.buffer@[self.buffer@.len() - 1],
                None => self.buffer@.len() == 0,
            },
    {
        self.buffer.get_latest()
    }

    /// Precisely the entries with order greater than `order`, in original
    /// insertion order.
    pub fn get_after(&self, order: u64) -> (r: Vec<OrderedInput>)
        ensures
            r@ == self.buffer@.filter(|e: OrderedInput| e.order > order),
    {
        let mut out: Vec<OrderedInput> = Vec::new();
        let n = self.buffer.len();
        let mut i: usize = 0;
        while i < n
            invariant
                n == self.buffer@.len(),
                i <= n,
                out@ == self.buffer@.take(i as int).filter(|e: OrderedInput| e.order > order),
            decreases n - i,
        {
            let e = *self.buffer.get(i);
            proof {
                reveal(Seq::filter);
                assert(self.buffer@.take(i + 1).drop_last() =~= self.buffer@.take(i as int));
                assert(self.buffer@.take(i + 1).last() == e);
            }
            if e.order > order {
                out.push(e);
            }
            i = i + 1;
        }
        proof {
            assert(self.buffer@.take(n as int) =~= self.buffer@);
        }
        out
    }
}

/// Pushing inputs into a well-formed buffer (in particular, one built from
/// empty by `push_input` alone) leaves it holding orders exactly `1..=N`
/// where `N` is the number of pushes, with no gaps.
pub proof fn lemma_input_orders_gapless(b: InputBuffer)
    requires
        b.wf(),
    ensures
        b.count == b.buffer@.len(),
        forall|i: int| 0 <= i < b.buffer@.len() ==> (#[trigger] b.buffer@[i].order) == i + 1,
        forall|k: u64|
            1 <= k <= b.count ==> (#[trigger] b.buffer@[k - 1].order) == k,
{
}

/// A predicted position recorded after applying one input.
#[derive(Debug, Clone, Copy, PartialEq, Eq, Structural)]
pub struct PlayerSnapshot {
    pub position: Vec2Bits,
}

impl PlayerSnapshot {
    /// Whether the authoritative position differs from this snapshot by more
    /// than the reconciliation threshold (0.1 units of distance).
    pub fn is_different(&self, owned_player_sync: &OwnedPlayerSync) -> (r: bool)
        ensures
            r == gt_bits(
                norm_bits(sub_bits(owned_player_sync.position.bits(), self.position.bits())),
                RECONCILE_EPSILON_BITS,
            ),
    {
        let delta = vec2_sub(owned_player_sync.position, self.position);
        let dist = vec2_norm(delta);
        f32_gt(dist, RECONCILE_EPSILON_BITS)
    }
}

/// Bounded, oldest-evicted record of predicted positions.
pub type SnapshotHistory = Buffer<PlayerSnapshot>;

/// However a snapshot history grew, pruning after each push keeps its length
/// within the history bound, so no sequence of recorded snapshots exceeds it.
pub proof fn lemma_snapshot_history_bounded(s: Seq<PlayerSnapshot>, item: PlayerSnapshot)
    ensures
        pruned(s.push(item), SNAPSHOT_HISTORY_LIMIT as int).len() <= SNAPSHOT_HISTORY_LIMIT,
{
}

} // verus!
