//! The authoritative server step: per-session message queues, the
//! bidirectional registry between transport sessions and network objects,
//! bounded per-actor input queues, and the fixed phase order of one step.
//! Transport I/O stays outside: received messages are queued in, and every
//! send is an explicit entry of the step's outbox, drained by the caller.

use vstd::prelude::*;

use crate::assoc::key_index;
use crate::assoc::lemma_key_index_first;
use crate::assoc::lemma_key_index_none;
use crate::instance::Actor;
use crate::instance::Instance;
use crate::message::OrderedInput;
use crate::message::PlayerInit;
use crate::message::PlayerPositionSync;
use crate::message::OwnedPlayerSync;
use crate::message::NetworkSpawn;
use crate::message::ReliableMessageFromClient;
use crate::message::ReliableMessageFromServer;
use crate::message::Spawn;
use crate::message::TickSync;
use crate::message::UnreliableMessageFromClient;
use crate::message::UnreliableMessageFromServer;
use crate::net_obj::NetworkObject;
use crate::physics::world_bodies;
use crate::tick::TickData;
use crate::tick::Tick;
use crate::tick::get_unix_millis;
use crate::instance::input_for;
use crate::vec2::Vec2Bits;
use crate::vec2::spec_zero_vec;

verus! {

/// Bound on each actor's pending-input queue: once it is full, newly
/// arriving inputs are discarded rather than the oldest — a deliberate
/// bounded-staleness policy, not strict FIFO.
pub const MAX_PENDING_INPUTS: usize = 10;

/// One session's messages drained from the network this step, reliable and
/// unreliable separately.
#[derive(Debug, Clone)]
pub struct MessageQueue {
    pub reliable: Vec<ReliableMessageFromClient>,
    pub unreliable: Vec<UnreliableMessageFromClient>,
}

impl MessageQueue {
    pub fn new() -> (r: MessageQueue)
        ensures
            r.reliable@.len() == 0,
            r.unreliable@.len() == 0,
    {
        MessageQueue { reliable: Vec::new(), unreliable: Vec::new() }
    }
}

/// A message the step decided to send, with its addressing.
#[derive(Debug, Clone, Copy)]
pub enum OutgoingMessage {
    ReliableTo(u64, ReliableMessageFromServer),
    ReliableBroadcast(ReliableMessageFromServer),
    UnreliableTo(u64, UnreliableMessageFromServer),
    UnreliableBroadcastExcept(u64, UnreliableMessageFromServer),
}

/// Bidirectional mapping between a transport session id and the stable
/// network object of its actor. Populated on `Connected`, torn down on
/// disconnect.
#[derive(Debug, Clone)]
pub struct ClientNetworkObjectMap {
    pub pairs: Vec<(u64, NetworkObject)>,
}

/// The index of the first pair carrying `client_id`, if any.
pub open spec fn client_pair_index(pairs: Seq<(u64, NetworkObject)>, client_id: u64) -> Option<int>
    decreases pairs.len(),
{
    if pairs.len() == 0 {
        None
    } else if pairs[0].0 == client_id {
        Some(0)
    } else {
        match client_pair_index(pairs.skip(1), client_id) {
            Some(i) => Some(i + 1),
            None => None,
        }
    }
}

impl ClientNetworkObjectMap {
    pub fn new() -> (r: ClientNetworkObjectMap)
        ensures
            r.pairs@.len() == 0,
    {
        ClientNetworkObjectMap { pairs: Vec::new() }
    }

    /// The network object registered for `client_id`, if any.
    pub fn get_by_client(&self, client_id: u64) -> (r: Option<NetworkObject>)
        ensures
            match client_pair_index(self.pairs@, client_id) {
                Some(i) => r == Some(self.pairs@[i].1),
                None => r is None,
            },
    {
        let n = self.pairs.len();
        let mut i: usize = 0;
        proof {
            lemma_client_pair_index_skip(self.pairs@, client_id);
        }
        while i < n
            invariant
                n == self.pairs@.len(),
                i <= n,
                forall|j: int| 0 <= j < i ==> (#[trigger] self.pairs@[j]).0 != client_id,
                match client_pair_index(self.pairs@, client_id) {
                    Some(k) => i <= k < n && self.pairs@[k].0 == client_id,
                    None => forall|j: int| 0 <= j < n ==> (#[trigger] self.pairs@[j]).0 != client_id,
                },
            decreases n - i,
        {
            let pair = self.pairs[i];
            if pair.0 == client_id {
                proof {
                    lemma_client_pair_index_first(self.pairs@, client_id, i as int);
                }
                return Some(pair.1);
            }
            i = i + 1;
        }
        None
    }

    /// The session registered for `net_obj`, if any.
    pub fn get_by_net_obj(&self, net_obj: NetworkObject) -> (r: Option<u64>)
        ensures
            r == client_for(self.pairs@, net_obj),
    {
        let n = self.pairs.len();
        let mut i: usize = 0;
        proof {
            lemma_client_for_skip(self.pairs@, net_obj);
        }
        while i < n
            invariant
                n == self.pairs@.len(),
                i <= n,
                forall|j: int| 0 <= j < i ==> (#[trigger] self.pairs@[j]).1 != net_obj,
            decreases n - i,
        {
            let pair = self.pairs[i];
            if pair.1 == net_obj {
                proof {
                    lemma_client_for_first(self.pairs@, net_obj, i as int);
                }
                return Some(pair.0);
            }
            i = i + 1;
        }
        proof {
            lemma_client_for_none(self.pairs@, net_obj);
        }
        None
    }

    /// Registers the pair; the caller checks beforehand that the session is
    /// not yet registered.
    pub fn insert(&mut self, client_id: u64, net_obj: NetworkObject)
        ensures
            final(self).pairs@ == old(self).pairs@.push((client_id, net_obj)),
    {
        self.pairs.push((client_id, net_obj));
    }

    /// Removes the registration of `client_id`, returning its network
    /// object: exactly one pair leaves the registry when one was present,
    /// and nothing changes otherwise.
    pub fn remove_by_client(&mut self, client_id: u64) -> (r: Option<NetworkObject>)
        ensures
            match client_pair_index(old(self).pairs@, client_id) {
                Some(i) => r == Some(old(self).pairs@[i].1) && final(self).pairs@ == old(
                    self,
                ).pairs@.remove(i),
                None => r is None && final(self).pairs@ == old(self).pairs@,
            },
    {
        let n = self.pairs.len();
        let mut i: usize = 0;
        proof {
            lemma_client_pair_index_skip(self.pairs@, client_id);
        }
        while i < n
            invariant
                n == self.pairs@.len(),
                i <= n,
                self.pairs@ == old(self).pairs@,
                forall|j: int| 0 <= j < i ==> (#[trigger] self.pairs@[j]).0 != client_id,
            decreases n - i,
        {
            let pair = self.pairs[i];
            if pair.0 == client_id {
                proof {
                    lemma_client_pair_index_first(self.pairs@, client_id, i as int);
                }
                self.pairs.remove(i);
                return Some(pair.1);
            }
            i = i + 1;
        }
        proof {
            lemma_client_pair_index_none(self.pairs@, client_id);
        }
        None
    }
}

/// The session of the first pair carrying `net_obj`, if any.
pub open spec fn client_for(pairs: Seq<(u64, NetworkObject)>, net_obj: NetworkObject) -> Option<u64>
    decreases pairs.len(),
{
    if pairs.len() == 0 {
        None
    } else if pairs[0].1 == net_obj {
        Some(pairs[0].0)
    } else {
        client_for(pairs.skip(1), net_obj)
    }
}

proof fn lemma_client_for_first(pairs: Seq<(u64, NetworkObject)>, net_obj: NetworkObject, i: int)
    requires
        0 <= i < pairs.len(),
        pairs[i].1 == net_obj,
        forall|j: int| 0 <= j < i ==> (#[trigger] pairs[j]).1 != net_obj,
    ensures
        client_for(pairs, net_obj) == Some(pairs[i].0),
    decreases i,
{
    if i > 0 {
        assert(pairs.skip(1)[i - 1] == pairs[i]);
        assert(forall|j: int| 0 <= j < i - 1 ==> (#[trigger] pairs.skip(1)[j]) == pairs[j + 1]);
        lemma_client_for_first(pairs.skip(1), net_obj, i - 1);
    }
}

proof fn lemma_client_for_none(pairs: Seq<(u64, NetworkObject)>, net_obj: NetworkObject)
    requires
        forall|j: int| 0 <= j < pairs.len() ==> (#[trigger] pairs[j]).1 != net_obj,
    ensures
        client_for(pairs, net_obj) is None,
    decreases pairs.len(),
{
    if pairs.len() > 0 {
        assert(forall|j: int|
            0 <= j < pairs.skip(1).len() ==> (#[trigger] pairs.skip(1)[j]) == pairs[j + 1]);
        lemma_client_for_none(pairs.skip(1), net_obj);
    }
}

proof fn lemma_client_for_skip(pairs: Seq<(u64, NetworkObject)>, net_obj: NetworkObject)
    ensures
        match client_for(pairs, net_obj) {
            Some(cid) => exists|i: int|
                0 <= i < pairs.len() && (#[trigger] pairs[i]) == (cid, net_obj),
            None => forall|j: int| 0 <= j < pairs.len() ==> (#[trigger] pairs[j]).1 != net_obj,
        },
    decreases pairs.len(),
{
    if pairs.len() > 0 {
        lemma_client_for_skip(pairs.skip(1), net_obj);
        assert(forall|j: int|
            0 <= j < pairs.skip(1).len() ==> (#[trigger] pairs.skip(1)[j]) == pairs[j + 1]);
        if pairs[0].1 == net_obj {
            assert(pairs[0] == (pairs[0].0, net_obj));
        } else {
            match client_for(pairs.skip(1), net_obj) {
                Some(cid) => {
                    let i = choose|i: int|
                        0 <= i < pairs.skip(1).len() && (#[trigger] pairs.skip(1)[i]) == (
                            cid,
                            net_obj,
                        );
                    assert(pairs[i + 1] == (cid, net_obj));
                },
                None => {
                    assert forall|j: int| 0 <= j < pairs.len() implies (#[trigger] pairs[j]).1
                        != net_obj by {
                        if j > 0 {
                            assert(pairs[j] == pairs.skip(1)[j - 1]);
                        }
                    }
                },
            }
        }
    }
}

/// If no pair before `i` carries `client_id` and pair `i` does, then `i` is
/// the first index.
proof fn lemma_client_pair_index_first(pairs: Seq<(u64, NetworkObject)>, client_id: u64, i: int)
    requires
        0 <= i < pairs.len(),
        pairs[i].0 == client_id,
        forall|j: int| 0 <= j < i ==> (#[trigger] pairs[j]).0 != client_id,
    ensures
        client_pair_index(pairs, client_id) == Some(i),
    decreases i,
{
    if i == 0 {
    } else {
        assert(pairs.skip(1)[i - 1] == pairs[i]);
        assert(forall|j: int| 0 <= j < i - 1 ==> (#[trigger] pairs.skip(1)[j]) == pairs[j + 1]);
        lemma_client_pair_index_first(pairs.skip(1), client_id, i - 1);
    }
}

/// If no pair carries `client_id`, the lookup finds none.
proof fn lemma_client_pair_index_none(pairs: Seq<(u64, NetworkObject)>, client_id: u64)
    requires
        forall|j: int| 0 <= j < pairs.len() ==> (#[trigger] pairs[j]).0 != client_id,
    ensures
        client_pair_index(pairs, client_id) is None,
    decreases pairs.len(),
{
    if pairs.len() > 0 {
        assert(forall|j: int|
            0 <= j < pairs.skip(1).len() ==> (#[trigger] pairs.skip(1)[j]) == pairs[j + 1]);
        lemma_client_pair_index_none(pairs.skip(1), client_id);
    }
}

/// A found index lies in range and carries `client_id`, and nothing before
/// it does.
proof fn lemma_client_pair_index_skip(pairs: Seq<(u64, NetworkObject)>, client_id: u64)
    ensures
        match client_pair_index(pairs, client_id) {
            Some(i) => 0 <= i < pairs.len() && pairs[i].0 == client_id && forall|j: int|
                0 <= j < i ==> (#[trigger] pairs[j]).0 != client_id,
            None => forall|j: int| 0 <= j < pairs.len() ==> (#[trigger] pairs[j]).0 != client_id,
        },
    decreases pairs.len(),
{
    if pairs.len() > 0 {
        lemma_client_pair_index_skip(pairs.skip(1), client_id);
        assert(forall|j: int|
            0 <= j < pairs.skip(1).len() ==> (#[trigger] pairs.skip(1)[j]) == pairs[j + 1]);
        if pairs[0].0 == client_id {
        } else {
            match client_pair_index(pairs.skip(1), client_id) {
                Some(i) => {
                    assert(client_pair_index(pairs, client_id) == Some(i + 1));
                    assert(pairs[i + 1] == pairs.skip(1)[i]);
                    assert forall|j: int| 0 <= j < i + 1 implies (#[trigger] pairs[j]).0
                        != client_id by {
                        if j > 0 {
                            assert(pairs[j] == pairs.skip(1)[j - 1]);
                        }
                    }
                },
                None => {
                    assert forall|j: int| 0 <= j < pairs.len() implies (#[trigger] pairs[j]).0
                        != client_id by {
                        if j > 0 {
                            assert(pairs[j] == pairs.skip(1)[j - 1]);
                        }
                    }
                },
            }
        }
    }
}

/// The first index of a minimal-order input in a non-empty queue.
pub open spec fn min_first_idx(q: Seq<OrderedInput>) -> int
    decreases q.len(),
{
    if q.len() <= 1 {
        0
    } else {
        let rest = min_first_idx(q.skip(1)) + 1;
        if q[0].order <= q[rest].order {
            0
        } else {
            rest
        }
    }
}

/// The index found by `min_first_idx` lies in range, holds a minimal order,
/// and is the first index doing so.
pub proof fn lemma_min_first_idx(q: Seq<OrderedInput>)
    requires
        q.len() > 0,
    ensures
        0 <= min_first_idx(q) < q.len(),
        forall|j: int| 0 <= j < q.len() ==> (#[trigger] q[j]).order >= q[min_first_idx(q)].order,
        forall|j: int| 0 <= j < min_first_idx(q) ==> (#[trigger] q[j]).order > q[min_first_idx(q)].order,
    decreases q.len(),
{
    if q.len() > 1 {
        lemma_min_first_idx(q.skip(1));
        assert(forall|j: int| 0 <= j < q.skip(1).len() ==> (#[trigger] q.skip(1)[j]) == q[j + 1]);
        let ms = min_first_idx(q.skip(1));
        assert(q[ms + 1] == q.skip(1)[ms]);
        if q[0].order <= q[ms + 1].order {
            assert(min_first_idx(q) == 0);
            assert forall|j: int| 0 <= j < q.len() implies (#[trigger] q[j]).order >= q[0].order by {
                if j > 0 {
                    assert(q[j] == q.skip(1)[j - 1]);
                    assert(q.skip(1)[j - 1].order >= q.skip(1)[ms].order);
                }
            }
        } else {
            assert(min_first_idx(q) == ms + 1);
            assert forall|j: int| 0 <= j < q.len() implies (#[trigger] q[j]).order >= q[ms
                + 1].order by {
                if j > 0 {
                    assert(q[j] == q.skip(1)[j - 1]);
                    assert(q.skip(1)[j - 1].order >= q.skip(1)[ms].order);
                }
            }
            assert forall|j: int| 0 <= j < ms + 1 implies (#[trigger] q[j]).order > q[ms
                + 1].order by {
                if j > 0 {
                    assert(q[j] == q.skip(1)[j - 1]);
                    assert(q.skip(1)[j - 1].order > q.skip(1)[ms].order);
                }
            }
        }
    }
}

/// Per-actor queues of pending inputs, bounded: a full queue discards newly
/// arriving inputs.
#[derive(Debug, Clone)]
pub struct ClientInputs {
    pub queues: Vec<(NetworkObject, Vec<OrderedInput>)>,
}

/// The index of the first queue belonging to `obj`, if any.
pub open spec fn queue_index(queues: Seq<(NetworkObject, Seq<OrderedInput>)>, obj: NetworkObject) -> Option<
    int,
>
    decreases queues.len(),
{
    if queues.len() == 0 {
        None
    } else if queues[0].0 == obj {
        Some(0)
    } else {
        match queue_index(queues.skip(1), obj) {
            Some(i) => Some(i + 1),
            None => None,
        }
    }
}

impl ClientInputs {
    pub open spec fn view_queues(&self) -> Seq<(NetworkObject, Seq<OrderedInput>)> {
        self.queues@.map_values(|q: (NetworkObject, Vec<OrderedInput>)| (q.0, q.1@))
    }

    pub fn new() -> (r: ClientInputs)
        ensures
            r.queues@.len() == 0,
    {
        ClientInputs { queues: Vec::new() }
    }

    /// Files `input` under `net_obj`: appended to that actor's queue while
    /// it has room, discarded once the queue is full; an actor seen for the
    /// first time gets a fresh queue.
    pub fn push_input(&mut self, net_obj: NetworkObject, input: OrderedInput)
        ensures
            match queue_index(old(self).view_queues(), net_obj) {
                Some(i) => {
                    let q = old(self).view_queues()[i].1;
                    if q.len() < MAX_PENDING_INPUTS {
                        final(self).view_queues() == old(self).view_queues().update(
                            i,
                            (net_obj, q.push(input)),
                        )
                    } else {
                        final(self).view_queues() == old(self).view_queues()
                    }
                },
                None => final(self).view_queues() == old(self).view_queues().push(
                    (net_obj, seq![input]),
                ),
            },
    {
        let ghost orig = self.view_queues();
        let n = self.queues.len();
        let mut i: usize = 0;
        proof {
            lemma_queue_index_skip(orig, net_obj);
        }
        while i < n
            invariant
                n == self.queues@.len(),
                i <= n,
                self.queues@ == old(self).queues@,
                orig == self.view_queues(),
                forall|j: int| 0 <= j < i ==> (#[trigger] self.queues@[j]).0 != net_obj,
            decreases n - i,
        {
            if self.queues[i].0 == net_obj {
                proof {
                    lemma_queue_index_first(orig, net_obj, i as int);
                    assert(orig[i as int].1 == self.queues@[i as int].1@);
                }
                if self.queues[i].1.len() < MAX_PENDING_INPUTS {
                    let (obj, mut q) = self.queues.remove(i);
                    q.push(input);
                    self.queues.insert(i, (obj, q));
                    proof {
                        assert(self.view_queues() =~= orig.update(
                            i as int,
                            (net_obj, orig[i as int].1.push(input)),
                        ));
                    }
                } else {
                    proof {
                        assert(self.view_queues() =~= orig);
                    }
                }
                return ;
            }
            i = i + 1;
        }
        proof {
            lemma_queue_index_none(orig, net_obj);
        }
        let mut q: Vec<OrderedInput> = Vec::new();
        q.push(input);
        self.queues.push((net_obj, q));
        proof {
            assert(self.view_queues() =~= orig.push((net_obj, seq![input])));
        }
    }

    /// Selects, for every actor with pending inputs, the single input with
    /// the smallest order — the first such entry on a tie — and removes it
    /// from that actor's queue. The selections come out in queue order.
    pub fn pop_inputs(&mut self) -> (selected: Vec<(NetworkObject, OrderedInput)>)
        ensures
            final(self).view_queues().len() == old(self).view_queues().len(),
            forall|k: int|
                0 <= k < old(self).view_queues().len() ==> {
                    let q = old(self).view_queues()[k];
                    #[trigger] final(self).view_queues()[k] == (if q.1.len() == 0 {
                        q
                    } else {
                        (q.0, q.1.remove(min_first_idx(q.1)))
                    })
                },
            selected@ == popped(old(self).view_queues()),
    {
        let ghost orig = self.view_queues();
        let mut selected: Vec<(NetworkObject, OrderedInput)> = Vec::new();
        let n = self.queues.len();
        let mut k: usize = 0;
        while k < n
            invariant
                n == self.queues@.len(),
                k <= n,
                self.view_queues().len() == orig.len(),
                orig == old(self).view_queues(),
                forall|j: int| k <= j < n ==> #[trigger] self.view_queues()[j] == orig[j],
                forall|j: int|
                    0 <= j < k ==> {
                        let q = orig[j];
                        #[trigger] self.view_queues()[j] == (if q.1.len() == 0 {
                            q
                        } else {
                            (q.0, q.1.remove(min_first_idx(q.1)))
                        })
                    },
                selected@ == popped(orig.take(k as int)),
            decreases n - k,
        {
            let ghost before = self.view_queues();
            let ghost qs_before = self.queues@;
            let (obj, mut q) = self.queues.remove(k);
            proof {
                assert(before[k as int] == orig[k as int]);
                assert((obj, q@) == (orig[k as int].0, orig[k as int].1));
            }
            if q.len() > 0 {
                proof {
                    lemma_min_first_idx(q@);
                }
                let mi = min_order_index(&q);
                let chosen = q.remove(mi);
                selected.push((obj, chosen));
            }
            self.queues.insert(k, (obj, q));
            proof {
                assert(self.queues@ =~= qs_before.update(k as int, (obj, q)));
                assert(self.view_queues() =~= before.update(k as int, (obj, q@)));
                lemma_popped_take_step(orig, k as int);
                assert(selected@ =~= popped(orig.take(k + 1)));
            }
            k = k + 1;
        }
        proof {
            assert(orig.take(n as int) =~= orig);
        }
        selected
    }
}

/// The first index of a minimal-order input, found by scan.
fn min_order_index(q: &Vec<OrderedInput>) -> (r: usize)
    requires
        q@.len() > 0,
    ensures
        r == min_first_idx(q@),
{
    proof {
        lemma_min_first_idx(q@);
    }
    let n = q.len();
    let mut best: usize = 0;
    let mut i: usize = 1;
    while i < n
        invariant
            n == q@.len(),
            1 <= i <= n,
            best < i,
            forall|j: int| 0 <= j < i ==> (#[trigger] q@[j]).order >= q@[best as int].order,
            forall|j: int| 0 <= j < best ==> (#[trigger] q@[j]).order > q@[best as int].order,
        decreases n - i,
    {
        if q[i].order < q[best].order {
            best = i;
        }
        i = i + 1;
    }
    proof {
        lemma_min_first_unique(q@, best as int);
    }
    best
}

/// An in-range index holding a minimal order, before which every order is
/// strictly larger, is the index `min_first_idx` finds.
proof fn lemma_min_first_unique(q: Seq<OrderedInput>, i: int)
    requires
        0 <= i < q.len(),
        forall|j: int| 0 <= j < q.len() ==> (#[trigger] q[j]).order >= q[i].order,
        forall|j: int| 0 <= j < i ==> (#[trigger] q[j]).order > q[i].order,
    ensures
        min_first_idx(q) == i,
{
    lemma_min_first_idx(q);
    let m = min_first_idx(q);
    if m < i {
        assert(q[m].order > q[i].order);
        assert(q[m].order >= q[i].order);
    } else if m > i {
        assert(q[i].order > q[m].order);
    }
}

/// One selection per non-empty queue, in queue order: the first
/// minimal-order input of each.
pub open spec fn popped(queues: Seq<(NetworkObject, Seq<OrderedInput>)>) -> Seq<(
    NetworkObject,
    OrderedInput,
)>
    decreases queues.len(),
{
    if queues.len() == 0 {
        Seq::empty()
    } else {
        let head: Seq<(NetworkObject, OrderedInput)> = if queues[0].1.len() == 0 {
            Seq::empty()
        } else {
            seq![(queues[0].0, queues[0].1[min_first_idx(queues[0].1)])]
        };
        head + popped(queues.skip(1))
    }
}

/// Extending the processed prefix by one queue appends that queue's
/// selection, if it has one.
proof fn lemma_popped_take_step(queues: Seq<(NetworkObject, Seq<OrderedInput>)>, k: int)
    requires
        0 <= k < queues.len(),
    ensures
        popped(queues.take(k + 1)) == (if queues[k].1.len() == 0 {
            popped(queues.take(k))
        } else {
            popped(queues.take(k)).push((queues[k].0, queues[k].1[min_first_idx(queues[k].1)]))
        }),
    decreases k,
{
    if k == 0 {
        assert(queues.take(0) =~= Seq::<(NetworkObject, Seq<OrderedInput>)>::empty());
        assert(queues.take(1) =~= seq![queues[0]]);
        assert(queues.take(1).skip(1) =~= Seq::<(NetworkObject, Seq<OrderedInput>)>::empty());
        if queues[0].1.len() == 0 {
            assert(popped(queues.take(1)) =~= popped(queues.take(0)));
        } else {
            assert(popped(queues.take(1)) =~= popped(queues.take(0)).push(
                (queues[0].0, queues[0].1[min_first_idx(queues[0].1)]),
            ));
        }
    } else {
        let rest = queues.skip(1);
        assert(queues.take(k)[0] == queues[0]);
        assert(queues.take(k + 1)[0] == queues[0]);
        assert(queues.take(k).skip(1) =~= rest.take(k - 1));
        assert(queues.take(k + 1).skip(1) =~= rest.take(k));
        lemma_popped_take_step(rest, k - 1);
        assert(rest[k - 1] == queues[k]);
        if queues[k].1.len() == 0 {
            assert(popped(queues.take(k + 1)) =~= popped(queues.take(k)));
        } else {
            assert(popped(queues.take(k + 1)) =~= popped(queues.take(k)).push(
                (queues[k].0, queues[k].1[min_first_idx(queues[k].1)]),
            ));
        }
    }
}

/// Same shape as the registry lookup lemmas, for queues.
proof fn lemma_queue_index_first(
    queues: Seq<(NetworkObject, Seq<OrderedInput>)>,
    obj: NetworkObject,
    i: int,
)
    requires
        0 <= i < queues.len(),
        queues[i].0 == obj,
        forall|j: int| 0 <= j < i ==> (#[trigger] queues[j]).0 != obj,
    ensures
        queue_index(queues, obj) == Some(i),
    decreases i,
{
    if i == 0 {
    } else {
        assert(queues.skip(1)[i - 1] == queues[i]);
        assert(forall|j: int| 0 <= j < i - 1 ==> (#[trigger] queues.skip(1)[j]) == queues[j + 1]);
        lemma_queue_index_first(queues.skip(1), obj, i - 1);
    }
}

proof fn lemma_queue_index_none(queues: Seq<(NetworkObject, Seq<OrderedInput>)>, obj: NetworkObject)
    requires
        forall|j: int| 0 <= j < queues.len() ==> (#[trigger] queues[j]).0 != obj,
    ensures
        queue_index(queues, obj) is None,
    decreases queues.len(),
{
    if queues.len() > 0 {
        assert(forall|j: int|
            0 <= j < queues.skip(1).len() ==> (#[trigger] queues.skip(1)[j]) == queues[j + 1]);
        lemma_queue_index_none(queues.skip(1), obj);
    }
}

proof fn lemma_queue_index_skip(queues: Seq<(NetworkObject, Seq<OrderedInput>)>, obj: NetworkObject)
    ensures
        match queue_index(queues, obj) {
            Some(i) => 0 <= i < queues.len() && queues[i].0 == obj && forall|j: int|
                0 <= j < i ==> (#[trigger] queues[j]).0 != obj,
            None => forall|j: int| 0 <= j < queues.len() ==> (#[trigger] queues[j]).0 != obj,
        },
    decreases queues.len(),
{
    if queues.len() > 0 {
        lemma_queue_index_skip(queues.skip(1), obj);
        assert(forall|j: int|
            0 <= j < queues.skip(1).len() ==> (#[trigger] queues.skip(1)[j]) == queues[j + 1]);
        if queues[0].0 == obj {
        } else {
            match queue_index(queues.skip(1), obj) {
                Some(i) => {
                    assert(queue_index(queues, obj) == Some(i + 1));
                    assert(queues[i + 1] == queues.skip(1)[i]);
                    assert forall|j: int| 0 <= j < i + 1 implies (#[trigger] queues[j]).0 != obj by {
                        if j > 0 {
                            assert(queues[j] == queues.skip(1)[j - 1]);
                        }
                    }
                },
                None => {
                    assert forall|j: int| 0 <= j < queues.len() implies (#[trigger] queues[j]).0
                        != obj by {
                        if j > 0 {
                            assert(queues[j] == queues.skip(1)[j - 1]);
                        }
                    }
                },
            }
        }
    }
}

/// The roster sent to one session: a `Spawn` for every live actor, in arena
/// order.
pub open spec fn roster_of(actors: Seq<Actor>, tick: Tick, client_id: u64) -> Seq<OutgoingMessage>
    decreases actors.len(),
{
    if actors.len() == 0 {
        Seq::empty()
    } else {
        let head: Seq<OutgoingMessage> = if actors[0].alive {
            seq![
                OutgoingMessage::ReliableTo(
                    client_id,
                    ReliableMessageFromServer::Spawn(
                        Spawn {
                            net_obj: actors[0].net_obj,
                            net_spawn: NetworkSpawn::Player(actors[0].position),
                            tick,
                        },
                    ),
                ),
            ]
        } else {
            Seq::empty()
        };
        head + roster_of(actors.skip(1), tick, client_id)
    }
}

proof fn lemma_roster_take_step(actors: Seq<Actor>, tick: Tick, client_id: u64, k: int)
    requires
        0 <= k < actors.len(),
    ensures
        roster_of(actors.take(k + 1), tick, client_id) == (if actors[k].alive {
            roster_of(actors.take(k), tick, client_id).push(
                OutgoingMessage::ReliableTo(
                    client_id,
                    ReliableMessageFromServer::Spawn(
                        Spawn {
                            net_obj: actors[k].net_obj,
                            net_spawn: NetworkSpawn::Player(actors[k].position),
                            tick,
                        },
                    ),
                ),
            )
        } else {
            roster_of(actors.take(k), tick, client_id)
        }),
    decreases k,
{
    if k == 0 {
        assert(actors.take(0) =~= Seq::<Actor>::empty());
        assert(actors.take(1) =~= seq![actors[0]]);
        assert(actors.take(1).skip(1) =~= Seq::<Actor>::empty());
        if actors[0].alive {
            assert(roster_of(actors.take(1), tick, client_id) =~= roster_of(
                actors.take(0),
                tick,
                client_id,
            ).push(
                OutgoingMessage::ReliableTo(
                    client_id,
                    ReliableMessageFromServer::Spawn(
                        Spawn {
                            net_obj: actors[0].net_obj,
                            net_spawn: NetworkSpawn::Player(actors[0].position),
                            tick,
                        },
                    ),
                ),
            ));
        } else {
            assert(roster_of(actors.take(1), tick, client_id) =~= roster_of(
                actors.take(0),
                tick,
                client_id,
            ));
        }
    } else {
        let rest = actors.skip(1);
        assert(actors.take(k)[0] == actors[0]);
        assert(actors.take(k + 1)[0] == actors[0]);
        assert(actors.take(k).skip(1) =~= rest.take(k - 1));
        assert(actors.take(k + 1).skip(1) =~= rest.take(k));
        lemma_roster_take_step(rest, tick, client_id, k - 1);
        assert(rest[k - 1] == actors[k]);
        if actors[k].alive {
            assert(roster_of(actors.take(k + 1), tick, client_id) =~= roster_of(
                actors.take(k),
                tick,
                client_id,
            ).push(
                OutgoingMessage::ReliableTo(
                    client_id,
                    ReliableMessageFromServer::Spawn(
                        Spawn {
                            net_obj: actors[k].net_obj,
                            net_spawn: NetworkSpawn::Player(actors[k].position),
                            tick,
                        },
                    ),
                ),
            ));
        } else {
            assert(roster_of(actors.take(k + 1), tick, client_id) =~= roster_of(
                actors.take(k),
                tick,
                client_id,
            ));
        }
    }
}

/// The spawn broadcasts for a batch of materialized spawn requests.
pub open spec fn spawn_msgs(requests: Seq<(Vec2Bits, NetworkObject)>, tick: Tick) -> Seq<
    OutgoingMessage,
> {
    requests.map_values(
        |r: (Vec2Bits, NetworkObject)|
            OutgoingMessage::ReliableBroadcast(
                ReliableMessageFromServer::Spawn(
                    Spawn { net_obj: r.1, net_spawn: NetworkSpawn::Player(r.0), tick },
                ),
            ),
    )
}

/// The per-step state replication: for every live actor whose identity is
/// registered to a session, its position goes to every other session and
/// the owner additionally receives the authoritative sync with the last
/// applied input order.
pub open spec fn sync_msgs(
    actors: Seq<Actor>,
    pairs: Seq<(u64, NetworkObject)>,
    tick: Tick,
) -> Seq<OutgoingMessage>
    decreases actors.len(),
{
    if actors.len() == 0 {
        Seq::empty()
    } else {
        let head: Seq<OutgoingMessage> = if actors[0].alive {
            match client_for(pairs, actors[0].net_obj) {
                Some(cid) => seq![
                    OutgoingMessage::UnreliableBroadcastExcept(
                        cid,
                        UnreliableMessageFromServer::PlayerPositionSync(
                            PlayerPositionSync {
                                net_obj: actors[0].net_obj,
                                position: actors[0].position,
                                tick,
                            },
                        ),
                    ),
                    OutgoingMessage::UnreliableTo(
                        cid,
                        UnreliableMessageFromServer::OwnedPlayerSync(
                            OwnedPlayerSync {
                                net_obj: actors[0].net_obj,
                                position: actors[0].position,
                                tick,
                                last_input_order: actors[0].last_input.order,
                            },
                        ),
                    ),
                ],
                None => Seq::empty(),
            }
        } else {
            Seq::empty()
        };
        head + sync_msgs(actors.skip(1), pairs, tick)
    }
}

proof fn lemma_sync_take_step(
    actors: Seq<Actor>,
    pairs: Seq<(u64, NetworkObject)>,
    tick: Tick,
    k: int,
)
    requires
        0 <= k < actors.len(),
    ensures
        sync_msgs(actors.take(k + 1), pairs, tick) == (if actors[k].alive {
            match client_for(pairs, actors[k].net_obj) {
                Some(cid) => sync_msgs(actors.take(k), pairs, tick).push(
                    OutgoingMessage::UnreliableBroadcastExcept(
                        cid,
                        UnreliableMessageFromServer::PlayerPositionSync(
                            PlayerPositionSync {
                                net_obj: actors[k].net_obj,
                                position: actors[k].position,
                                tick,
                            },
                        ),
                    ),
                ).push(
                    OutgoingMessage::UnreliableTo(
                        cid,
                        UnreliableMessageFromServer::OwnedPlayerSync(
                            OwnedPlayerSync {
                                net_obj: actors[k].net_obj,
                                position: actors[k].position,
                                tick,
                                last_input_order: actors[k].last_input.order,
                            },
                        ),
                    ),
                ),
                None => sync_msgs(actors.take(k), pairs, tick),
            }
        } else {
            sync_msgs(actors.take(k), pairs, tick)
        }),
    decreases k,
{
    if k == 0 {
        assert(actors.take(0) =~= Seq::<Actor>::empty());
        assert(actors.take(1) =~= seq![actors[0]]);
        assert(actors.take(1).skip(1) =~= Seq::<Actor>::empty());
        if actors[0].alive {
            match client_for(pairs, actors[0].net_obj) {
                Some(cid) => {
                    assert(sync_msgs(actors.take(1), pairs, tick) =~= sync_msgs(
                        actors.take(0),
                        pairs,
                        tick,
                    ).push(
                        OutgoingMessage::UnreliableBroadcastExcept(
                            cid,
                            UnreliableMessageFromServer::PlayerPositionSync(
                                PlayerPositionSync {
                                    net_obj: actors[0].net_obj,
                                    position: actors[0].position,
                                    tick,
                                },
                            ),
                        ),
                    ).push(
                        OutgoingMessage::UnreliableTo(
                            cid,
                            UnreliableMessageFromServer::OwnedPlayerSync(
                                OwnedPlayerSync {
                                    net_obj: actors[0].net_obj,
                                    position: actors[0].position,
                                    tick,
                                    last_input_order: actors[0].last_input.order,
                                },
                            ),
                        ),
                    ));
                },
                None => {
                    assert(sync_msgs(actors.take(1), pairs, tick) =~= sync_msgs(
                        actors.take(0),
                        pairs,
                        tick,
                    ));
                },
            }
        } else {
            assert(sync_msgs(actors.take(1), pairs, tick) =~= sync_msgs(
                actors.take(0),
                pairs,
                tick,
            ));
        }
    } else {
        let rest = actors.skip(1);
        assert(actors.take(k)[0] == actors[0]);
        assert(actors.take(k + 1)[0] == actors[0]);
        assert(actors.take(k).skip(1) =~= rest.take(k - 1));
        assert(actors.take(k + 1).skip(1) =~= rest.take(k));
        lemma_sync_take_step(rest, pairs, tick, k - 1);
        assert(rest[k - 1] == actors[k]);
        assert(sync_msgs(actors.take(k + 1), pairs, tick) =~= sync_msgs(actors.take(k), pairs, tick)
            + sync_msgs(rest.take(k), pairs, tick).skip(
            sync_msgs(rest.take(k - 1), pairs, tick).len() as int,
        ));
    }
}

/// The registry, spawn-request and outbox state a handshake message acts
/// on.
pub open spec fn handshake_state(g: Game) -> (
    Seq<(u64, NetworkObject)>,
    Seq<(Vec2Bits, NetworkObject)>,
    Seq<OutgoingMessage>,
) {
    (g.client_map.pairs@, g.player_spawn_requests@, g.outbox@)
}

/// The effect of accepting a fresh session `cid`: the drawn identity `obj`
/// joins the registry, one origin-positioned spawn request is filed, and
/// the session is answered with `PlayerInit` then a `TickSync` carrying the
/// wall-clock reading `ms`.
pub open spec fn connected_effect(
    s0: (Seq<(u64, NetworkObject)>, Seq<(Vec2Bits, NetworkObject)>, Seq<OutgoingMessage>),
    s1: (Seq<(u64, NetworkObject)>, Seq<(Vec2Bits, NetworkObject)>, Seq<OutgoingMessage>),
    cid: u64,
    tick: Tick,
    obj: NetworkObject,
    ms: u128,
) -> bool {
    &&& obj is Dynamic
    &&& s1.0 == s0.0.push((cid, obj))
    &&& s1.1 == s0.1.push((spec_zero_vec(), obj))
    &&& s1.2 == s0.2 + seq![
        OutgoingMessage::ReliableTo(
            cid,
            ReliableMessageFromServer::PlayerInit(
                PlayerInit { net_obj: obj, position: spec_zero_vec(), tick },
            ),
        ),
        OutgoingMessage::ReliableTo(
            cid,
            ReliableMessageFromServer::TickSync(TickSync { tick: tick.0, unix_millis: ms }),
        ),
    ]
}

/// What one queued handshake message does, against a fixed actor roster and
/// tick: a `Connected` from a registered session is ignored; one from a
/// fresh session has the `connected_effect` for some drawn identity and
/// clock reading; `ReadyForUpdates` appends exactly that session's roster.
pub open spec fn conn_step_rel(
    actors: Seq<Actor>,
    tick: Tick,
    s0: (Seq<(u64, NetworkObject)>, Seq<(Vec2Bits, NetworkObject)>, Seq<OutgoingMessage>),
    s1: (Seq<(u64, NetworkObject)>, Seq<(Vec2Bits, NetworkObject)>, Seq<OutgoingMessage>),
    cid: u64,
    msg: ReliableMessageFromClient,
) -> bool {
    match msg {
        ReliableMessageFromClient::Connected => match client_pair_index(s0.0, cid) {
            Some(_) => s1 == s0,
            None => exists|obj: NetworkObject, ms: u128|
                #[trigger] connected_effect(s0, s1, cid, tick, obj, ms),
        },
        ReliableMessageFromClient::ReadyForUpdates => s1 == (
            s0.0,
            s0.1,
            s0.2 + roster_of(actors, tick, cid),
        ),
    }
}

/// A batch of queued handshake messages, processed in order: each step is
/// one `conn_step_rel`, chained through intermediate states.
pub open spec fn conn_chain_rel(
    actors: Seq<Actor>,
    tick: Tick,
    s0: (Seq<(u64, NetworkObject)>, Seq<(Vec2Bits, NetworkObject)>, Seq<OutgoingMessage>),
    s1: (Seq<(u64, NetworkObject)>, Seq<(Vec2Bits, NetworkObject)>, Seq<OutgoingMessage>),
    items: Seq<(u64, ReliableMessageFromClient)>,
) -> bool
    decreases items.len(),
{
    if items.len() == 0 {
        s1 == s0
    } else {
        exists|mid: (Seq<(u64, NetworkObject)>, Seq<(Vec2Bits, NetworkObject)>, Seq<OutgoingMessage>)|
            conn_chain_rel(actors, tick, s0, mid, items.drop_last()) && #[trigger] conn_step_rel(
                actors,
                tick,
                mid,
                s1,
                items.last().0,
                items.last().1,
            )
    }
}

/// Every queued handshake message with its sending session, in queue order.
pub open spec fn reliable_in_queues(queues: Seq<(u64, MessageQueue)>) -> Seq<(
    u64,
    ReliableMessageFromClient,
)>
    decreases queues.len(),
{
    if queues.len() == 0 {
        Seq::empty()
    } else {
        queues[0].1.reliable@.map_values(|m: ReliableMessageFromClient| (queues[0].0, m))
            + reliable_in_queues(queues.skip(1))
    }
}

/// Everything one server step reads and writes, as one spec-level record.
pub struct GameView {
    pub actors: Seq<Actor>,
    pub tick: Tick,
    pub world: rapier2d::pipeline::PhysicsWorld,
    pub timer_nanos: u64,
    pub queues: Seq<(u64, MessageQueue)>,
    pub pairs: Seq<(u64, NetworkObject)>,
    pub requests: Seq<(Vec2Bits, NetworkObject)>,
    pub input_queues: Seq<(NetworkObject, Seq<OrderedInput>)>,
    pub outbox: Seq<OutgoingMessage>,
}

pub open spec fn game_view(g: Game) -> GameView {
    GameView {
        actors: g.instance.actors@,
        tick: g.instance.tick,
        world: g.instance.physics.world,
        timer_nanos: g.tick_data.broadcast_timer_nanos,
        queues: g.message_queues@,
        pairs: g.client_map.pairs@,
        requests: g.player_spawn_requests@,
        input_queues: g.inputs.view_queues(),
        outbox: g.outbox@,
    }
}

/// Phase: the tick advances by one and every due correlation broadcast is
/// queued.
pub open spec fn tick_phase(v0: GameView, v1: GameView, dt_nanos: u64) -> bool {
    &&& v1.tick.0 == v0.tick.0 + 1
    &&& v1.timer_nanos == (v0.timer_nanos + dt_nanos) % (
    crate::tick::TICK_BROADCAST_INTERVAL_NANOS as int)
    &&& v1.outbox.len() == v0.outbox.len() + (v0.timer_nanos + dt_nanos) / (
    crate::tick::TICK_BROADCAST_INTERVAL_NANOS as int)
    &&& v1.outbox.take(v0.outbox.len() as int) == v0.outbox
    &&& forall|k: int|
        v0.outbox.len() <= k < v1.outbox.len() ==> ((#[trigger] v1.outbox[k])
            matches OutgoingMessage::ReliableBroadcast(ReliableMessageFromServer::TickSync(ts))
            && ts.tick == v0.tick.0 + 1)
    &&& v1.actors == v0.actors
    &&& v1.world == v0.world
    &&& v1.queues == v0.queues
    &&& v1.pairs == v0.pairs
    &&& v1.requests == v0.requests
    &&& v1.input_queues == v0.input_queues
}

/// Phase: every queued input lands in its sender's per-actor queue.
pub open spec fn read_phase(v0: GameView, v1: GameView) -> bool {
    v1 == (GameView {
        input_queues: file_inputs_s(v0.input_queues, v0.pairs, inputs_in_queues(v0.queues)),
        ..v0
    })
}

/// Phase: the queued handshake messages are processed in order.
pub open spec fn conn_phase(v0: GameView, v1: GameView) -> bool {
    &&& conn_chain_rel(
        v0.actors,
        v0.tick,
        (v0.pairs, v0.requests, v0.outbox),
        (v1.pairs, v1.requests, v1.outbox),
        reliable_in_queues(v0.queues),
    )
    &&& v1.actors == v0.actors
    &&& v1.tick == v0.tick
    &&& v1.world == v0.world
    &&& v1.timer_nanos == v0.timer_nanos
    &&& v1.queues == v0.queues
    &&& v1.input_queues == v0.input_queues
}

/// Phase: every pending spawn request becomes a live actor and its `Spawn`
/// broadcast, in request order.
pub open spec fn spawn_phase(v0: GameView, v1: GameView) -> bool {
    &&& v1.requests.len() == 0
    &&& v1.actors.len() == v0.actors.len() + v0.requests.len()
    &&& v1.actors.take(v0.actors.len() as int) == v0.actors
    &&& forall|k: int|
        #![trigger v0.requests[k]]
        0 <= k < v0.requests.len() ==> ({
            let a = v1.actors[v0.actors.len() + k];
            &&& a.alive
            &&& !a.is_local
            &&& a.position == v0.requests[k].0
            &&& a.net_obj == v0.requests[k].1
            &&& a.last_input.order == 0
            &&& a.sync_tracker is None
        })
    &&& v1.outbox == v0.outbox + spawn_msgs(v0.requests, v0.tick)
    &&& v1.tick == v0.tick
    &&& v1.timer_nanos == v0.timer_nanos
    &&& v1.queues == v0.queues
    &&& v1.pairs == v0.pairs
    &&& v1.input_queues == v0.input_queues
}

/// Phase: every registered live actor's state is replicated.
pub open spec fn bcast_phase(v0: GameView, v1: GameView) -> bool {
    v1 == (GameView { outbox: v0.outbox + sync_msgs(v0.actors, v0.pairs, v0.tick), ..v0 })
}

/// Phase: the actors' positions are carried into the collision world.
pub open spec fn world_phase(v0: GameView, v1: GameView) -> bool {
    &&& v1 == (GameView { world: v1.world, ..v0 })
    &&& world_bodies(v1.world) == world_bodies(v0.world)
}

/// Phase: one pending input per actor — the smallest order — is applied.
pub open spec fn apply_phase(v0: GameView, v1: GameView, dt_bits: u32) -> bool {
    &&& v1.input_queues.len() == v0.input_queues.len()
    &&& forall|k: int|
        0 <= k < v0.input_queues.len() ==> {
            let q = v0.input_queues[k];
            #[trigger] v1.input_queues[k] == (if q.1.len() == 0 {
                q
            } else {
                (q.0, q.1.remove(min_first_idx(q.1)))
            })
        }
    &&& v1.actors.len() == v0.actors.len()
    &&& forall|i: int|
        0 <= i < v0.actors.len() ==> {
            let a = v0.actors[i];
            #[trigger] v1.actors[i] == (match input_for(popped(v0.input_queues), a.net_obj) {
                Some(input) => if a.alive {
                    Actor {
                        position: Vec2Bits::from_bits(
                            crate::player::apply_input_bits(
                                v0.world,
                                a.position.bits(),
                                input.input.move_direction.bits(),
                                a.col,
                                a.rb,
                                dt_bits,
                            ),
                        ),
                        last_input: crate::instance::LastInputTracker { order: input.order },
                        ..a
                    }
                } else {
                    a
                },
                None => a,
            })
        }
    &&& v1.tick == v0.tick
    &&& v1.world == v0.world
    &&& v1.timer_nanos == v0.timer_nanos
    &&& v1.queues == v0.queues
    &&& v1.pairs == v0.pairs
    &&& v1.requests == v0.requests
    &&& v1.outbox == v0.outbox
}

/// Phase: every session's message queue is emptied for the next step.
pub open spec fn clear_phase(v0: GameView, v1: GameView) -> bool {
    &&& v1.queues.len() == v0.queues.len()
    &&& forall|i: int|
        0 <= i < v0.queues.len() ==> {
            &&& (#[trigger] v1.queues[i]).0 == v0.queues[i].0
            &&& v1.queues[i].1.reliable@.len() == 0
            &&& v1.queues[i].1.unreliable@.len() == 0
        }
    &&& v1.actors == v0.actors
    &&& v1.tick == v0.tick
    &&& v1.world == v0.world
    &&& v1.timer_nanos == v0.timer_nanos
    &&& v1.pairs == v0.pairs
    &&& v1.requests == v0.requests
    &&& v1.input_queues == v0.input_queues
    &&& v1.outbox == v0.outbox
}

/// One authoritative server: its instance, the broadcast timer, per-session
/// message queues, the session registry, the spawn requests pending
/// materialization, the per-actor input queues, and the outbox of messages
/// this step decided to send.
pub struct Game {
    pub instance: Instance,
    pub tick_data: TickData,
    pub message_queues: Vec<(u64, MessageQueue)>,
    pub client_map: ClientNetworkObjectMap,
    pub player_spawn_requests: Vec<(Vec2Bits, NetworkObject)>,
    pub inputs: ClientInputs,
    pub outbox: Vec<OutgoingMessage>,
}

impl Game {
    pub fn new(instance_id: u128) -> (r: Game)
        ensures
            r.instance.id == instance_id,
            r.instance.tick.0 == 0,
            r.instance.actors@.len() == 0,
            r.tick_data.broadcast_timer_nanos == 0,
            r.message_queues@.len() == 0,
            r.client_map.pairs@.len() == 0,
            r.player_spawn_requests@.len() == 0,
            r.inputs.queues@.len() == 0,
            r.outbox@.len() == 0,
    {
        Game {
            instance: Instance::new(instance_id),
            tick_data: TickData::new(),
            message_queues: Vec::new(),
            client_map: ClientNetworkObjectMap::new(),
            player_spawn_requests: Vec::new(),
            inputs: ClientInputs::new(),
            outbox: Vec::new(),
        }
    }

    /// A transport session appeared: it gets a fresh, empty message queue —
    /// replacing any stale one left under the same id.
    pub fn handle_client_connected(&mut self, client_id: u64)
        ensures
            match key_index(old(self).message_queues@, client_id) {
                Some(i) => {
                    &&& final(self).message_queues@.len() == old(self).message_queues@.len()
                    &&& forall|j: int|
                        0 <= j < old(self).message_queues@.len() && j != i
                            ==> #[trigger] final(self).message_queues@[j] == old(
                            self,
                        ).message_queues@[j]
                    &&& final(self).message_queues@[i].0 == client_id
                    &&& final(self).message_queues@[i].1.reliable@.len() == 0
                    &&& final(self).message_queues@[i].1.unreliable@.len() == 0
                },
                None => {
                    &&& final(self).message_queues@.len() == old(self).message_queues@.len() + 1
                    &&& final(self).message_queues@.take(old(self).message_queues@.len() as int)
                        == old(self).message_queues@
                    &&& final(self).message_queues@.last().0 == client_id
                    &&& final(self).message_queues@.last().1.reliable@.len() == 0
                    &&& final(self).message_queues@.last().1.unreliable@.len() == 0
                },
            },
            final(self).instance == old(self).instance,
            final(self).tick_data == old(self).tick_data,
            final(self).client_map == old(self).client_map,
            final(self).player_spawn_requests == old(self).player_spawn_requests,
            final(self).inputs == old(self).inputs,
            final(self).outbox == old(self).outbox,
    {
        let n = self.message_queues.len();
        let mut i: usize = 0;
        while i < n
            invariant
                n == self.message_queues@.len(),
                i <= n,
                self.message_queues@ == old(self).message_queues@,
                self.instance == old(self).instance,
                self.tick_data == old(self).tick_data,
                self.client_map == old(self).client_map,
                self.player_spawn_requests == old(self).player_spawn_requests,
                self.inputs == old(self).inputs,
                self.outbox == old(self).outbox,
                forall|j: int| 0 <= j < i ==> (#[trigger] self.message_queues@[j]).0 != client_id,
            decreases n - i,
        {
            if self.message_queues[i].0 == client_id {
                proof {
                    lemma_key_index_first(self.message_queues@, client_id, i as int);
                }
                self.message_queues.remove(i);
                self.message_queues.insert(i, (client_id, MessageQueue::new()));
                proof {
                    assert(forall|j: int|
                        0 <= j < old(self).message_queues@.len() && j != i
                            ==> #[trigger] self.message_queues@[j] == old(self).message_queues@[j]);
                }
                return ;
            }
            i = i + 1;
        }
        proof {
            lemma_key_index_none(self.message_queues@, client_id);
        }
        self.message_queues.push((client_id, MessageQueue::new()));
        proof {
            assert(self.message_queues@.take(old(self).message_queues@.len() as int) =~= old(
                self,
            ).message_queues@);
        }
    }

    /// Files a reliable message under the session that sent it; messages of
    /// sessions without a queue are dropped.
    pub fn queue_reliable(&mut self, client_id: u64, message: ReliableMessageFromClient)
        ensures
            match key_index(old(self).message_queues@, client_id) {
                Some(i) => {
                    &&& final(self).message_queues@.len() == old(self).message_queues@.len()
                    &&& forall|j: int|
                        0 <= j < old(self).message_queues@.len() && j != i
                            ==> #[trigger] final(self).message_queues@[j] == old(
                            self,
                        ).message_queues@[j]
                    &&& final(self).message_queues@[i].0 == client_id
                    &&& final(self).message_queues@[i].1.reliable@ == old(
                        self,
                    ).message_queues@[i].1.reliable@.push(message)
                    &&& final(self).message_queues@[i].1.unreliable@ == old(
                        self,
                    ).message_queues@[i].1.unreliable@
                },
                None => final(self).message_queues@ == old(self).message_queues@,
            },
            final(self).instance == old(self).instance,
            final(self).tick_data == old(self).tick_data,
            final(self).client_map == old(self).client_map,
            final(self).player_spawn_requests == old(self).player_spawn_requests,
            final(self).inputs == old(self).inputs,
            final(self).outbox == old(self).outbox,
    {
        let n = self.message_queues.len();
        let mut i: usize = 0;
        while i < n
            invariant
                n == self.message_queues@.len(),
                i <= n,
                self.message_queues@ == old(self).message_queues@,
                self.instance == old(self).instance,
                self.tick_data == old(self).tick_data,
                self.client_map == old(self).client_map,
                self.player_spawn_requests == old(self).player_spawn_requests,
                self.inputs == old(self).inputs,
                self.outbox == old(self).outbox,
                forall|j: int| 0 <= j < i ==> (#[trigger] self.message_queues@[j]).0 != client_id,
            decreases n - i,
        {
            if self.message_queues[i].0 == client_id {
                proof {
                    lemma_key_index_first(self.message_queues@, client_id, i as int);
                }
                let (cid, mut queue) = self.message_queues.remove(i);
                queue.reliable.push(message);
                self.message_queues.insert(i, (cid, queue));
                return ;
            }
            i = i + 1;
        }
        proof {
            lemma_key_index_none(self.message_queues@, client_id);
        }
    }

    /// Files an unreliable message under the session that sent it; messages
    /// of sessions without a queue are dropped.
    pub fn queue_unreliable(&mut self, client_id: u64, message: UnreliableMessageFromClient)
        ensures
            match key_index(old(self).message_queues@, client_id) {
                Some(i) => {
                    &&& final(self).message_queues@.len() == old(self).message_queues@.len()
                    &&& forall|j: int|
                        0 <= j < old(self).message_queues@.len() && j != i
                            ==> #[trigger] final(self).message_queues@[j] == old(
                            self,
                        ).message_queues@[j]
                    &&& final(self).message_queues@[i].0 == client_id
                    &&& final(self).message_queues@[i].1.unreliable@ == old(
                        self,
                    ).message_queues@[i].1.unreliable@.push(message)
                    &&& final(self).message_queues@[i].1.reliable@ == old(
                        self,
                    ).message_queues@[i].1.reliable@
                },
                None => final(self).message_queues@ == old(self).message_queues@,
            },
            final(self).instance == old(self).instance,
            final(self).tick_data == old(self).tick_data,
            final(self).client_map == old(self).client_map,
            final(self).player_spawn_requests == old(self).player_spawn_requests,
            final(self).inputs == old(self).inputs,
            final(self).outbox == old(self).outbox,
    {
        let n = self.message_queues.len();
        let mut i: usize = 0;
        while i < n
            invariant
                n == self.message_queues@.len(),
                i <= n,
                self.message_queues@ == old(self).message_queues@,
                self.instance == old(self).instance,
                self.tick_data == old(self).tick_data,
                self.client_map == old(self).client_map,
                self.player_spawn_requests == old(self).player_spawn_requests,
                self.inputs == old(self).inputs,
                self.outbox == old(self).outbox,
                forall|j: int| 0 <= j < i ==> (#[trigger] self.message_queues@[j]).0 != client_id,
            decreases n - i,
        {
            if self.message_queues[i].0 == client_id {
                proof {
                    lemma_key_index_first(self.message_queues@, client_id, i as int);
                }
                let (cid, mut queue) = self.message_queues.remove(i);
                queue.unreliable.push(message);
                self.message_queues.insert(i, (cid, queue));
                return ;
            }
            i = i + 1;
        }
        proof {
            lemma_key_index_none(self.message_queues@, client_id);
        }
    }

    /// Despawns the actor and broadcasts its departure: the single
    /// `Despawn` every remaining session receives for it.
    pub fn despawn_and_broadcast(&mut self, entity: usize, net_obj: NetworkObject)
        ensures
            final(self).outbox@ == old(self).outbox@.push(
                OutgoingMessage::ReliableBroadcast(ReliableMessageFromServer::Despawn(net_obj)),
            ),
            final(self).instance.actors@.len() == old(self).instance.actors@.len(),
            entity < old(self).instance.actors@.len() && old(
                self,
            ).instance.actors@[entity as int].alive ==> final(self).instance.actors@ == old(
                self,
            ).instance.actors@.update(
                entity as int,
                (Actor { alive: false, ..old(self).instance.actors@[entity as int] }),
            ),
            !(entity < old(self).instance.actors@.len() && old(
                self,
            ).instance.actors@[entity as int].alive) ==> final(self).instance.actors@ == old(
                self,
            ).instance.actors@,
            entity < old(self).instance.actors@.len() && old(
                self,
            ).instance.actors@[entity as int].alive ==> world_bodies(
                final(self).instance.physics.world,
            ) == world_bodies(old(self).instance.physics.world).remove(
                old(self).instance.actors@[entity as int].rb,
            ),
            !(entity < old(self).instance.actors@.len() && old(
                self,
            ).instance.actors@[entity as int].alive) ==> final(self).instance.physics == old(
                self,
            ).instance.physics,
            final(self).instance.tick == old(self).instance.tick,
            final(self).instance.id == old(self).instance.id,
            final(self).tick_data == old(self).tick_data,
            final(self).message_queues == old(self).message_queues,
            final(self).client_map == old(self).client_map,
            final(self).player_spawn_requests == old(self).player_spawn_requests,
            final(self).inputs == old(self).inputs,
    {
        self.instance.despawn(entity);
        self.outbox.push(
            OutgoingMessage::ReliableBroadcast(ReliableMessageFromServer::Despawn(net_obj)),
        );
    }

    /// A transport session disconnected. Cleanup is synchronous within the
    /// same step: if the session had an identity, exactly that one pair
    /// leaves the registry, its actor is despawned, and exactly one
    /// `Despawn` broadcast is queued; its message queue goes either way.
    pub fn handle_client_disconnected(&mut self, client_id: u64)
        ensures
            match client_pair_index(old(self).client_map.pairs@, client_id) {
                Some(i) => ({
                    let net = old(self).client_map.pairs@[i].1;
                    let before = old(self).instance.actors@;
                    let after = final(self).instance.actors@;
                    &&& final(self).client_map.pairs@ == old(self).client_map.pairs@.remove(i)
                    &&& final(self).outbox@ == old(self).outbox@.push(
                        OutgoingMessage::ReliableBroadcast(
                            ReliableMessageFromServer::Despawn(net),
                        ),
                    )
                    &&& after.len() == before.len()
                    &&& (exists|k: int|
                        0 <= k < before.len() && (#[trigger] before[k]).alive && before[k].net_obj
                            == net && after == before.update(
                            k,
                            (Actor { alive: false, ..before[k] }),
                        )) || (after == before && forall|k: int|
                        0 <= k < before.len() ==> !((#[trigger] before[k]).alive
                            && before[k].net_obj == net))
                }),
                None => {
                    &&& final(self).client_map.pairs@ == old(self).client_map.pairs@
                    &&& final(self).outbox@ == old(self).outbox@
                    &&& final(self).instance.actors@ == old(self).instance.actors@
                },
            },
            final(self).instance.tick == old(self).instance.tick,
            final(self).instance.id == old(self).instance.id,
            final(self).tick_data == old(self).tick_data,
            final(self).player_spawn_requests == old(self).player_spawn_requests,
            final(self).inputs == old(self).inputs,
            match key_index(old(self).message_queues@, client_id) {
                Some(i) => final(self).message_queues@ == old(self).message_queues@.remove(i),
                None => final(self).message_queues@ == old(self).message_queues@,
            },
    {
        match self.client_map.remove_by_client(client_id) {
            Some(net) => {
                match self.instance.find_network_object(net) {
                    Some(entity) => {
                        self.despawn_and_broadcast(entity, net);
                        proof {
                            let before = old(self).instance.actors@;
                            assert(0 <= entity < before.len() && before[entity as int].alive
                                && before[entity as int].net_obj == net
                                && self.instance.actors@ == before.update(
                                entity as int,
                                (Actor { alive: false, ..before[entity as int] }),
                            ));
                        }
                    },
                    None => {
                        // The actor is already gone; the departure is still
                        // announced so every session tears its replica down.
                        self.outbox.push(
                            OutgoingMessage::ReliableBroadcast(
                                ReliableMessageFromServer::Despawn(net),
                            ),
                        );
                    },
                }
            },
            None => {},
        }
        self.remove_message_queue(client_id);
    }

    fn remove_message_queue(&mut self, client_id: u64)
        ensures
            match key_index(old(self).message_queues@, client_id) {
                Some(i) => final(self).message_queues@ == old(self).message_queues@.remove(i),
                None => final(self).message_queues@ == old(self).message_queues@,
            },
            final(self).instance == old(self).instance,
            final(self).tick_data == old(self).tick_data,
            final(self).client_map == old(self).client_map,
            final(self).player_spawn_requests == old(self).player_spawn_requests,
            final(self).inputs == old(self).inputs,
            final(self).outbox == old(self).outbox,
    {
        let n = self.message_queues.len();
        let mut i: usize = 0;
        while i < n
            invariant
                n == self.message_queues@.len(),
                i <= n,
                self.message_queues@ == old(self).message_queues@,
                self.instance == old(self).instance,
                self.tick_data == old(self).tick_data,
                self.client_map == old(self).client_map,
                self.player_spawn_requests == old(self).player_spawn_requests,
                self.inputs == old(self).inputs,
                self.outbox == old(self).outbox,
                forall|j: int| 0 <= j < i ==> (#[trigger] self.message_queues@[j]).0 != client_id,
            decreases n - i,
        {
            if self.message_queues[i].0 == client_id {
                proof {
                    lemma_key_index_first(self.message_queues@, client_id, i as int);
                }
                self.message_queues.remove(i);
                return ;
            }
            i = i + 1;
        }
        proof {
            lemma_key_index_none(self.message_queues@, client_id);
        }
    }
}

/// All queued unreliable inputs with their sending session, in queue order.
pub open spec fn inputs_in_queues(queues: Seq<(u64, MessageQueue)>) -> Seq<(u64, OrderedInput)>
    decreases queues.len(),
{
    if queues.len() == 0 {
        Seq::empty()
    } else {
        queues[0].1.unreliable@.map_values(
            |m: UnreliableMessageFromClient|
                match m {
                    UnreliableMessageFromClient::Input(oi) => (queues[0].0, oi),
                },
        ) + inputs_in_queues(queues.skip(1))
    }
}

/// The effect of filing one input under its actor.
pub open spec fn push_input_s(
    queues: Seq<(NetworkObject, Seq<OrderedInput>)>,
    obj: NetworkObject,
    input: OrderedInput,
) -> Seq<(NetworkObject, Seq<OrderedInput>)> {
    match queue_index(queues, obj) {
        Some(i) => if queues[i].1.len() < MAX_PENDING_INPUTS {
            queues.update(i, (obj, queues[i].1.push(input)))
        } else {
            queues
        },
        None => queues.push((obj, seq![input])),
    }
}

/// The effect of filing a batch of collected inputs: each is filed under
/// the identity its session is registered to; inputs of unregistered
/// sessions are dropped.
pub open spec fn file_inputs_s(
    queues: Seq<(NetworkObject, Seq<OrderedInput>)>,
    pairs: Seq<(u64, NetworkObject)>,
    items: Seq<(u64, OrderedInput)>,
) -> Seq<(NetworkObject, Seq<OrderedInput>)>
    decreases items.len(),
{
    if items.len() == 0 {
        queues
    } else {
        let queues1 = match client_pair_index(pairs, items[0].0) {
            Some(i) => push_input_s(queues, pairs[i].1, items[0].1),
            None => queues,
        };
        file_inputs_s(queues1, pairs, items.skip(1))
    }
}

/// Appending stays an extension.
proof fn lemma_prefix_extend<T>(a: Seq<T>, b: Seq<T>, c: Seq<T>)
    requires
        a.is_prefix_of(b),
        b.is_prefix_of(c),
    ensures
        a.is_prefix_of(c),
{
    assert(a =~= c.subrange(0, a.len() as int));
}

impl Game {

    /// A session announced itself. If it is new, it is allotted a fresh
    /// dynamic identity, a spawn request for an actor at the origin is
    /// filed, and the session is answered with `PlayerInit` carrying that
    /// identity and the current tick, then a `TickSync` correlating the
    /// tick with the wall clock. A session already registered is ignored.
    pub fn handle_connected(&mut self, client_id: u64) -> (r: Option<NetworkObject>)
        ensures
            match client_pair_index(old(self).client_map.pairs@, client_id) {
                Some(_) => ({
                    &&& r is None
                    &&& final(self).client_map.pairs@ == old(self).client_map.pairs@
                    &&& final(self).player_spawn_requests@ == old(self).player_spawn_requests@
                    &&& final(self).outbox@ == old(self).outbox@
                }),
                None => (match r {
                    Some(obj) => ({
                        let base = old(self).outbox@.len() as int;
                        &&& obj is Dynamic
                        &&& final(self).client_map.pairs@ == old(self).client_map.pairs@.push(
                            (client_id, obj),
                        )
                        &&& final(self).player_spawn_requests@ == old(
                            self,
                        ).player_spawn_requests@.push((spec_zero_vec(), obj))
                        &&& final(self).outbox@.len() == base + 2
                        &&& final(self).outbox@.take(base) == old(self).outbox@
                        &&& final(self).outbox@[base] == OutgoingMessage::ReliableTo(
                            client_id,
                            ReliableMessageFromServer::PlayerInit(
                                PlayerInit {
                                    net_obj: obj,
                                    position: spec_zero_vec(),
                                    tick: old(self).instance.tick,
                                },
                            ),
                        )
                        &&& (final(self).outbox@[base + 1] matches OutgoingMessage::ReliableTo(
                            cid,
                            ReliableMessageFromServer::TickSync(ts),
                        ) && cid == client_id && ts.tick == old(self).instance.tick.0)
                    }),
                    None => false,
                }),
            },
            final(self).instance == old(self).instance,
            final(self).tick_data == old(self).tick_data,
            final(self).message_queues == old(self).message_queues,
            final(self).inputs == old(self).inputs,
    {
        match self.client_map.get_by_client(client_id) {
            Some(_) => None,
            None => {
                let net_obj = NetworkObject::new_rand();
                self.client_map.insert(client_id, net_obj);
                let position = Vec2Bits::zero();
                self.player_spawn_requests.push((position, net_obj));
                let tick = self.instance.get_tick();
                self.outbox.push(
                    OutgoingMessage::ReliableTo(
                        client_id,
                        ReliableMessageFromServer::PlayerInit(
                            PlayerInit { net_obj, position, tick },
                        ),
                    ),
                );
                let millis = get_unix_millis();
                self.outbox.push(
                    OutgoingMessage::ReliableTo(
                        client_id,
                        ReliableMessageFromServer::TickSync(
                            TickSync { tick: tick.0, unix_millis: millis },
                        ),
                    ),
                );
                proof {
                    assert(self.outbox@.take(old(self).outbox@.len() as int) =~= old(
                        self,
                    ).outbox@);
                }
                Some(net_obj)
            },
        }
    }

    /// A session declared itself ready: it receives the full current
    /// roster, one `Spawn` per live actor, stamped with the current tick.
    pub fn handle_ready_for_updates(&mut self, client_id: u64)
        ensures
            final(self).outbox@ == old(self).outbox@ + roster_of(
                old(self).instance.actors@,
                old(self).instance.tick,
                client_id,
            ),
            final(self).instance == old(self).instance,
            final(self).tick_data == old(self).tick_data,
            final(self).message_queues == old(self).message_queues,
            final(self).client_map == old(self).client_map,
            final(self).player_spawn_requests == old(self).player_spawn_requests,
            final(self).inputs == old(self).inputs,
    {
        let tick = self.instance.get_tick();
        let n = self.instance.actors.len();
        let mut k: usize = 0;
        proof {
            assert(self.outbox@ =~= old(self).outbox@ + roster_of(
                self.instance.actors@.take(0),
                tick,
                client_id,
            ));
        }
        while k < n
            invariant
                n == self.instance.actors@.len(),
                k <= n,
                self.instance == old(self).instance,
                self.tick_data == old(self).tick_data,
                self.message_queues == old(self).message_queues,
                self.client_map == old(self).client_map,
                self.player_spawn_requests == old(self).player_spawn_requests,
                self.inputs == old(self).inputs,
                tick == self.instance.tick,
                self.outbox@ == old(self).outbox@ + roster_of(
                    self.instance.actors@.take(k as int),
                    tick,
                    client_id,
                ),
            decreases n - k,
        {
            let actor = self.instance.actors[k];
            if actor.alive {
                self.outbox.push(
                    OutgoingMessage::ReliableTo(
                        client_id,
                        ReliableMessageFromServer::Spawn(
                            Spawn {
                                net_obj: actor.net_obj,
                                net_spawn: NetworkSpawn::Player(actor.position),
                                tick,
                            },
                        ),
                    ),
                );
            }
            proof {
                lemma_roster_take_step(self.instance.actors@, tick, client_id, k as int);
                assert(self.outbox@ =~= old(self).outbox@ + roster_of(
                    self.instance.actors@.take(k + 1),
                    tick,
                    client_id,
                ));
            }
            k = k + 1;
        }
        proof {
            assert(self.instance.actors@.take(n as int) =~= self.instance.actors@);
        }
    }

    /// Dispatches one reliable handshake message from a session.
    pub fn handle_reliable_message(&mut self, client_id: u64, message: ReliableMessageFromClient)
        ensures
            final(self).instance == old(self).instance,
            final(self).tick_data == old(self).tick_data,
            final(self).message_queues == old(self).message_queues,
            final(self).inputs == old(self).inputs,
            old(self).outbox@.is_prefix_of(final(self).outbox@),
            old(self).client_map.pairs@.is_prefix_of(final(self).client_map.pairs@),
            old(self).player_spawn_requests@.is_prefix_of(final(self).player_spawn_requests@),
            forall|k: int|
                old(self).player_spawn_requests@.len() <= k < final(self).player_spawn_requests@.len()
                    ==> ((#[trigger] final(self).player_spawn_requests@[k]).0 == spec_zero_vec()
                    && final(self).player_spawn_requests@[k].1 is Dynamic),
            conn_step_rel(
                old(self).instance.actors@,
                old(self).instance.tick,
                handshake_state(*old(self)),
                handshake_state(*final(self)),
                client_id,
                message,
            ),
    {
        let ghost tick0 = self.instance.tick;
        let ghost s0 = handshake_state(*self);
        match message {
            ReliableMessageFromClient::Connected => {
                let registered = self.handle_connected(client_id);
                proof {
                    assert(old(self).outbox@.is_prefix_of(self.outbox@));
                    assert(old(self).client_map.pairs@.is_prefix_of(self.client_map.pairs@));
                    assert(old(self).player_spawn_requests@.is_prefix_of(
                        self.player_spawn_requests@,
                    ));
                    match client_pair_index(s0.0, client_id) {
                        Some(_) => {
                            assert(handshake_state(*self) == s0);
                        },
                        None => {
                            let obj = (match registered {
                                Some(o) => o,
                                None => NetworkObject::Static(0),
                            });
                            let base = s0.2.len() as int;
                            let ms = (match self.outbox@[base + 1] {
                                OutgoingMessage::ReliableTo(
                                    _,
                                    ReliableMessageFromServer::TickSync(ts),
                                ) => ts.unix_millis,
                                _ => 0,
                            });
                            assert(self.outbox@[base + 1] == OutgoingMessage::ReliableTo(
                                client_id,
                                ReliableMessageFromServer::TickSync(
                                    TickSync { tick: tick0.0, unix_millis: ms },
                                ),
                            ));
                            assert(self.outbox@ =~= s0.2 + seq![
                                OutgoingMessage::ReliableTo(
                                    client_id,
                                    ReliableMessageFromServer::PlayerInit(
                                        PlayerInit {
                                            net_obj: obj,
                                            position: spec_zero_vec(),
                                            tick: tick0,
                                        },
                                    ),
                                ),
                                OutgoingMessage::ReliableTo(
                                    client_id,
                                    ReliableMessageFromServer::TickSync(
                                        TickSync { tick: tick0.0, unix_millis: ms },
                                    ),
                                ),
                            ]);
                            assert(connected_effect(
                                s0,
                                handshake_state(*self),
                                client_id,
                                tick0,
                                obj,
                                ms,
                            ));
                        },
                    }
                }
            },
            ReliableMessageFromClient::ReadyForUpdates => {
                self.handle_ready_for_updates(client_id);
                proof {
                    assert(old(self).outbox@.is_prefix_of(self.outbox@));
                    assert(handshake_state(*self) == (
                        s0.0,
                        s0.1,
                        s0.2 + roster_of(old(self).instance.actors@, tick0, client_id),
                    ));
                }
            },
        }
    }

    /// Processes every session's queued handshake messages, in queue order.
    /// The step only appends: to the outbox, to the registry (one fresh
    /// dynamic identity per newly connected session) and to the spawn
    /// requests (one origin-positioned request per such identity); the
    /// actor set, tick, pending inputs and queued messages are untouched.
    pub fn handle_connections(&mut self)
        ensures
            final(self).instance == old(self).instance,
            final(self).tick_data == old(self).tick_data,
            final(self).message_queues == old(self).message_queues,
            final(self).inputs == old(self).inputs,
            old(self).outbox@.is_prefix_of(final(self).outbox@),
            old(self).client_map.pairs@.is_prefix_of(final(self).client_map.pairs@),
            old(self).player_spawn_requests@.is_prefix_of(final(self).player_spawn_requests@),
            forall|k: int|
                old(self).player_spawn_requests@.len() <= k < final(self).player_spawn_requests@.len()
                    ==> ((#[trigger] final(self).player_spawn_requests@[k]).0 == spec_zero_vec()
                    && final(self).player_spawn_requests@[k].1 is Dynamic),
            conn_chain_rel(
                old(self).instance.actors@,
                old(self).instance.tick,
                handshake_state(*old(self)),
                handshake_state(*final(self)),
                reliable_in_queues(old(self).message_queues@),
            ),
    {
        let ghost s_init = handshake_state(*self);
        let ghost mut done: Seq<(u64, ReliableMessageFromClient)> = Seq::empty();
        let nq = self.message_queues.len();
        let mut qi: usize = 0;
        proof {
            assert(self.message_queues@.skip(0) =~= self.message_queues@);
        }
        while qi < nq
            invariant
                nq == self.message_queues@.len(),
                qi <= nq,
                self.instance == old(self).instance,
                self.tick_data == old(self).tick_data,
                self.message_queues == old(self).message_queues,
                self.inputs == old(self).inputs,
                old(self).outbox@.is_prefix_of(self.outbox@),
                old(self).client_map.pairs@.is_prefix_of(self.client_map.pairs@),
                old(self).player_spawn_requests@.is_prefix_of(self.player_spawn_requests@),
                forall|k: int|
                    old(self).player_spawn_requests@.len() <= k < self.player_spawn_requests@.len()
                        ==> ((#[trigger] self.player_spawn_requests@[k]).0 == spec_zero_vec()
                        && self.player_spawn_requests@[k].1 is Dynamic),
                s_init == handshake_state(*old(self)),
                conn_chain_rel(
                    old(self).instance.actors@,
                    old(self).instance.tick,
                    s_init,
                    handshake_state(*self),
                    done,
                ),
                reliable_in_queues(self.message_queues@) == done + reliable_in_queues(
                    self.message_queues@.skip(qi as int),
                ),
            decreases nq - qi,
        {
            let client_id = self.message_queues[qi].0;
            let nm = self.message_queues[qi].1.reliable.len();
            let ghost suffix = self.message_queues@.skip(qi as int);
            let ghost mapped = suffix[0].1.reliable@.map_values(
                |m: ReliableMessageFromClient| (suffix[0].0, m),
            );
            let mut mi: usize = 0;
            proof {
                assert(suffix.len() > 0);
                assert(suffix[0] == self.message_queues@[qi as int]);
                assert(suffix.skip(1) =~= self.message_queues@.skip(qi + 1));
                assert(mapped.skip(0) =~= mapped);
                assert(done + (mapped + reliable_in_queues(self.message_queues@.skip(qi + 1)))
                    =~= done + mapped.skip(0) + reliable_in_queues(
                    self.message_queues@.skip(qi + 1),
                ));
            }
            while mi < nm
                invariant
                    qi < nq,
                    nq == self.message_queues@.len(),
                    nm == self.message_queues@[qi as int].1.reliable@.len(),
                    client_id == self.message_queues@[qi as int].0,
                    mi <= nm,
                    self.instance == old(self).instance,
                    self.tick_data == old(self).tick_data,
                    self.message_queues == old(self).message_queues,
                    self.inputs == old(self).inputs,
                    old(self).outbox@.is_prefix_of(self.outbox@),
                    old(self).client_map.pairs@.is_prefix_of(self.client_map.pairs@),
                    old(self).player_spawn_requests@.is_prefix_of(self.player_spawn_requests@),
                    forall|k: int|
                        old(self).player_spawn_requests@.len() <= k < self.player_spawn_requests@.len()
                            ==> ((#[trigger] self.player_spawn_requests@[k]).0 == spec_zero_vec()
                            && self.player_spawn_requests@[k].1 is Dynamic),
                    suffix == self.message_queues@.skip(qi as int),
                    mapped == suffix[0].1.reliable@.map_values(
                        |m: ReliableMessageFromClient| (suffix[0].0, m),
                    ),
                    s_init == handshake_state(*old(self)),
                    conn_chain_rel(
                        old(self).instance.actors@,
                        old(self).instance.tick,
                        s_init,
                        handshake_state(*self),
                        done,
                    ),
                    reliable_in_queues(self.message_queues@) == done + mapped.skip(mi as int)
                        + reliable_in_queues(self.message_queues@.skip(qi + 1)),
                decreases nm - mi,
            {
                let ghost mid = *self;
                let ghost done_before = done;
                let message = self.message_queues[qi].1.reliable[mi];
                proof {
                    assert(suffix[0] == self.message_queues@[qi as int]);
                    assert(mapped[mi as int] == (client_id, message));
                }
                self.handle_reliable_message(client_id, message);
                proof {
                    done = done.push((client_id, message));
                    assert(done.drop_last() =~= done_before);
                    assert(done.last() == (client_id, message));
                    assert(conn_step_rel(
                        old(self).instance.actors@,
                        old(self).instance.tick,
                        handshake_state(mid),
                        handshake_state(*self),
                        client_id,
                        message,
                    ));
                    assert(done.last().0 == client_id && done.last().1 == message);
                    assert(conn_step_rel(
                        old(self).instance.actors@,
                        old(self).instance.tick,
                        handshake_state(mid),
                        handshake_state(*self),
                        done.last().0,
                        done.last().1,
                    ));
                    assert(conn_chain_rel(
                        old(self).instance.actors@,
                        old(self).instance.tick,
                        s_init,
                        handshake_state(*self),
                        done,
                    ));
                    assert(mapped.skip(mi as int) =~= seq![mapped[mi as int]] + mapped.skip(
                        mi + 1,
                    ));
                    assert(done + mapped.skip(mi + 1) + reliable_in_queues(
                        self.message_queues@.skip(qi + 1),
                    ) =~= done_before + mapped.skip(mi as int) + reliable_in_queues(
                        self.message_queues@.skip(qi + 1),
                    ));
                }
                proof {
                    lemma_prefix_extend(old(self).outbox@, mid.outbox@, self.outbox@);
                    lemma_prefix_extend(
                        old(self).client_map.pairs@,
                        mid.client_map.pairs@,
                        self.client_map.pairs@,
                    );
                    lemma_prefix_extend(
                        old(self).player_spawn_requests@,
                        mid.player_spawn_requests@,
                        self.player_spawn_requests@,
                    );
                    assert(mid.player_spawn_requests@ =~= self.player_spawn_requests@.subrange(
                        0,
                        mid.player_spawn_requests@.len() as int,
                    ));
                    assert forall|k: int|
                        old(self).player_spawn_requests@.len() <= k
                            < self.player_spawn_requests@.len() implies ((
                    #[trigger] self.player_spawn_requests@[k]).0 == spec_zero_vec()
                        && self.player_spawn_requests@[k].1 is Dynamic) by {
                        if k < mid.player_spawn_requests@.len() {
                            assert(self.player_spawn_requests@[k] == mid.player_spawn_requests@[k]);
                        }
                    }
                }
                mi = mi + 1;
            }
            proof {
                assert(mapped.skip(nm as int) =~= Seq::<(u64, ReliableMessageFromClient)>::empty());
                assert(done + mapped.skip(nm as int) + reliable_in_queues(
                    self.message_queues@.skip(qi + 1),
                ) =~= done + reliable_in_queues(self.message_queues@.skip(qi + 1)));
            }
            qi = qi + 1;
        }
        proof {
            assert(reliable_in_queues(self.message_queues@.skip(nq as int)) =~= Seq::<(
                u64,
                ReliableMessageFromClient,
            )>::empty());
            assert(done + reliable_in_queues(self.message_queues@.skip(nq as int)) =~= done);
            assert(done =~= reliable_in_queues(old(self).message_queues@));
        }
    }

    /// Flattens every session's queued inputs, with their senders, in queue
    /// order.
    fn collect_inputs(&self) -> (r: Vec<(u64, OrderedInput)>)
        ensures
            r@ == inputs_in_queues(self.message_queues@),
    {
        let mut out: Vec<(u64, OrderedInput)> = Vec::new();
        let nq = self.message_queues.len();
        let mut qi: usize = 0;
        proof {
            assert(self.message_queues@.skip(0) =~= self.message_queues@);
        }
        while qi < nq
            invariant
                nq == self.message_queues@.len(),
                qi <= nq,
                inputs_in_queues(self.message_queues@) == out@ + inputs_in_queues(
                    self.message_queues@.skip(qi as int),
                ),
            decreases nq - qi,
        {
            let client_id = self.message_queues[qi].0;
            let nm = self.message_queues[qi].1.unreliable.len();
            let ghost suffix = self.message_queues@.skip(qi as int);
            let ghost mapped = suffix[0].1.unreliable@.map_values(
                |m: UnreliableMessageFromClient|
                    match m {
                        UnreliableMessageFromClient::Input(oi) => (suffix[0].0, oi),
                    },
            );
            let mut mi: usize = 0;
            proof {
                assert(suffix.len() > 0);
                assert(suffix[0] == self.message_queues@[qi as int]);
                assert(suffix.skip(1) =~= self.message_queues@.skip(qi + 1));
                assert(mapped.skip(0) =~= mapped);
                assert(out@ + (mapped + inputs_in_queues(self.message_queues@.skip(qi + 1))) =~= out@
                    + mapped.skip(0) + inputs_in_queues(self.message_queues@.skip(qi + 1)));
            }
            while mi < nm
                invariant
                    qi < nq,
                    nq == self.message_queues@.len(),
                    nm == self.message_queues@[qi as int].1.unreliable@.len(),
                    client_id == self.message_queues@[qi as int].0,
                    mi <= nm,
                    suffix == self.message_queues@.skip(qi as int),
                    mapped == suffix[0].1.unreliable@.map_values(
                        |m: UnreliableMessageFromClient|
                            match m {
                                UnreliableMessageFromClient::Input(oi) => (suffix[0].0, oi),
                            },
                    ),
                    inputs_in_queues(self.message_queues@) == out@ + mapped.skip(mi as int)
                        + inputs_in_queues(self.message_queues@.skip(qi + 1)),
                decreases nm - mi,
            {
                proof {
                    assert(suffix[0] == self.message_queues@[qi as int]);
                }
                let ghost out_before = out@;
                let message = self.message_queues[qi].1.unreliable[mi];
                match message {
                    UnreliableMessageFromClient::Input(oi) => {
                        out.push((client_id, oi));
                    },
                }
                proof {
                    assert(mapped[mi as int] == (client_id, match message {
                        UnreliableMessageFromClient::Input(oi) => oi,
                    }));
                    assert(mapped.skip(mi as int) =~= seq![mapped[mi as int]] + mapped.skip(mi + 1));
                    assert(out@ + mapped.skip(mi + 1) =~= out_before + mapped.skip(mi as int));
                    assert(out@ + mapped.skip(mi + 1) + inputs_in_queues(
                        self.message_queues@.skip(qi + 1),
                    ) =~= out_before + mapped.skip(mi as int) + inputs_in_queues(
                        self.message_queues@.skip(qi + 1),
                    ));
                }
                mi = mi + 1;
            }
            proof {
                assert(mapped.skip(nm as int) =~= Seq::<(u64, OrderedInput)>::empty());
                assert(out@ + mapped.skip(nm as int) + inputs_in_queues(
                    self.message_queues@.skip(qi + 1),
                ) =~= out@ + inputs_in_queues(self.message_queues@.skip(qi + 1)));
            }
            qi = qi + 1;
        }
        proof {
            assert(inputs_in_queues(self.message_queues@.skip(nq as int)) =~= Seq::<(
                u64,
                OrderedInput,
            )>::empty());
            assert(out@ + Seq::<(u64, OrderedInput)>::empty() =~= out@);
        }
        out
    }

    /// Files a batch of collected inputs under their registered identities.
    fn file_inputs(&mut self, items: &Vec<(u64, OrderedInput)>)
        ensures
            final(self).inputs.view_queues() == file_inputs_s(
                old(self).inputs.view_queues(),
                old(self).client_map.pairs@,
                items@,
            ),
            final(self).instance == old(self).instance,
            final(self).tick_data == old(self).tick_data,
            final(self).message_queues == old(self).message_queues,
            final(self).client_map == old(self).client_map,
            final(self).player_spawn_requests == old(self).player_spawn_requests,
            final(self).outbox == old(self).outbox,
    {
        let n = items.len();
        let mut i: usize = 0;
        proof {
            assert(items@.skip(0) =~= items@);
        }
        while i < n
            invariant
                n == items@.len(),
                i <= n,
                self.instance == old(self).instance,
                self.tick_data == old(self).tick_data,
                self.message_queues == old(self).message_queues,
                self.client_map == old(self).client_map,
                self.player_spawn_requests == old(self).player_spawn_requests,
                self.outbox == old(self).outbox,
                file_inputs_s(
                    old(self).inputs.view_queues(),
                    old(self).client_map.pairs@,
                    items@,
                ) == file_inputs_s(
                    self.inputs.view_queues(),
                    old(self).client_map.pairs@,
                    items@.skip(i as int),
                ),
            decreases n - i,
        {
            let item = items[i];
            proof {
                assert(items@.skip(i as int)[0] == items@[i as int]);
                assert(items@.skip(i as int).skip(1) =~= items@.skip(i + 1));
            }
            match self.client_map.get_by_client(item.0) {
                Some(net_obj) => {
                    self.inputs.push_input(net_obj, item.1);
                },
                None => {},
            }
            i = i + 1;
        }
        proof {
            assert(items@.skip(n as int).len() == 0);
        }
    }

    /// Drains this step's queued inputs into the per-actor pending queues:
    /// each queued input lands in its sender's actor queue, newest dropped
    /// when a queue is full, senders without an identity ignored.
    pub fn read_inputs(&mut self)
        ensures
            final(self).inputs.view_queues() == file_inputs_s(
                old(self).inputs.view_queues(),
                old(self).client_map.pairs@,
                inputs_in_queues(old(self).message_queues@),
            ),
            final(self).instance == old(self).instance,
            final(self).tick_data == old(self).tick_data,
            final(self).message_queues == old(self).message_queues,
            final(self).client_map == old(self).client_map,
            final(self).player_spawn_requests == old(self).player_spawn_requests,
            final(self).outbox == old(self).outbox,
    {
        let items = self.collect_inputs();
        self.file_inputs(&items);
    }

    /// Materializes the queued spawn requests: each becomes a live,
    /// non-local actor, and a `Spawn` stamped with the current tick is
    /// broadcast for it, in request order. The request buffer drains.
    pub fn process_player_spawn_requests(&mut self)
        ensures
            final(self).player_spawn_requests@.len() == 0,
            final(self).instance.actors@.len() == old(self).instance.actors@.len() + old(
                self,
            ).player_spawn_requests@.len(),
            final(self).instance.actors@.take(old(self).instance.actors@.len() as int) == old(
                self,
            ).instance.actors@,
            forall|k: int|
                #![trigger old(self).player_spawn_requests@[k]]
                0 <= k < old(self).player_spawn_requests@.len() ==> ({
                    let a = final(self).instance.actors@[old(self).instance.actors@.len() + k];
                    let req = old(self).player_spawn_requests@[k];
                    &&& a.alive
                    &&& !a.is_local
                    &&& a.position == req.0
                    &&& a.net_obj == req.1
                    &&& a.last_input.order == 0
                    &&& a.sync_tracker is None
                }),
            final(self).outbox@ == old(self).outbox@ + spawn_msgs(
                old(self).player_spawn_requests@,
                old(self).instance.tick,
            ),
            final(self).instance.tick == old(self).instance.tick,
            final(self).instance.id == old(self).instance.id,
            final(self).tick_data == old(self).tick_data,
            final(self).message_queues == old(self).message_queues,
            final(self).client_map == old(self).client_map,
            final(self).inputs == old(self).inputs,
    {
        let ghost requests = self.player_spawn_requests@;
        let ghost base = self.instance.actors@.len() as int;
        let tick = self.instance.get_tick();
        let n = self.player_spawn_requests.len();
        let mut i: usize = 0;
        proof {
            assert(self.instance.actors@.take(base) =~= old(self).instance.actors@);
            assert(self.outbox@ =~= old(self).outbox@ + spawn_msgs(requests.take(0), tick));
        }
        while i < n
            invariant
                n == requests.len(),
                i <= n,
                self.player_spawn_requests@ == requests,
                self.instance.actors@.len() == base + i,
                base == old(self).instance.actors@.len(),
                self.instance.actors@.take(base) == old(self).instance.actors@,
                forall|k: int|
                    #![trigger requests[k]]
                    0 <= k < i ==> ({
                        let a = self.instance.actors@[base + k];
                        let req = requests[k];
                        &&& a.alive
                        &&& !a.is_local
                        &&& a.position == req.0
                        &&& a.net_obj == req.1
                        &&& a.last_input.order == 0
                        &&& a.sync_tracker is None
                    }),
                self.outbox@ == old(self).outbox@ + spawn_msgs(requests.take(i as int), tick),
                tick == self.instance.tick,
                self.instance.tick == old(self).instance.tick,
                self.instance.id == old(self).instance.id,
                self.tick_data == old(self).tick_data,
                self.message_queues == old(self).message_queues,
                self.client_map == old(self).client_map,
                self.inputs == old(self).inputs,
            decreases n - i,
        {
            let ghost actors_before = self.instance.actors@;
            let (position, net_obj) = self.player_spawn_requests[i];
            self.instance.spawn_player(false, position, net_obj, None);
            self.outbox.push(
                OutgoingMessage::ReliableBroadcast(
                    ReliableMessageFromServer::Spawn(
                        Spawn { net_obj, net_spawn: NetworkSpawn::Player(position), tick },
                    ),
                ),
            );
            proof {
                assert(self.instance.actors@.take(base) =~= actors_before.take(base));
                assert(self.outbox@ =~= old(self).outbox@ + spawn_msgs(
                    requests.take(i + 1),
                    tick,
                ));
            }
            i = i + 1;
        }
        self.player_spawn_requests = Vec::new();
        proof {
            assert(requests.take(n as int) =~= requests);
        }
    }

    /// Replicates every registered live actor's state: its position to all
    /// other sessions, and the authoritative sync with the last applied
    /// input order to its owner alone.
    pub fn broadcast_data(&mut self)
        ensures
            final(self).outbox@ == old(self).outbox@ + sync_msgs(
                old(self).instance.actors@,
                old(self).client_map.pairs@,
                old(self).instance.tick,
            ),
            final(self).instance == old(self).instance,
            final(self).tick_data == old(self).tick_data,
            final(self).message_queues == old(self).message_queues,
            final(self).client_map == old(self).client_map,
            final(self).player_spawn_requests == old(self).player_spawn_requests,
            final(self).inputs == old(self).inputs,
    {
        let tick = self.instance.get_tick();
        let n = self.instance.actors.len();
        let mut k: usize = 0;
        proof {
            assert(self.outbox@ =~= old(self).outbox@ + sync_msgs(
                self.instance.actors@.take(0),
                self.client_map.pairs@,
                tick,
            ));
        }
        while k < n
            invariant
                n == self.instance.actors@.len(),
                k <= n,
                self.instance == old(self).instance,
                self.tick_data == old(self).tick_data,
                self.message_queues == old(self).message_queues,
                self.client_map == old(self).client_map,
                self.player_spawn_requests == old(self).player_spawn_requests,
                self.inputs == old(self).inputs,
                tick == self.instance.tick,
                self.outbox@ == old(self).outbox@ + sync_msgs(
                    self.instance.actors@.take(k as int),
                    self.client_map.pairs@,
                    tick,
                ),
            decreases n - k,
        {
            let actor = self.instance.actors[k];
            if actor.alive {
                match self.client_map.get_by_net_obj(actor.net_obj) {
                    Some(client_id) => {
                        self.outbox.push(
                            OutgoingMessage::UnreliableBroadcastExcept(
                                client_id,
                                UnreliableMessageFromServer::PlayerPositionSync(
                                    PlayerPositionSync {
                                        net_obj: actor.net_obj,
                                        position: actor.position,
                                        tick,
                                    },
                                ),
                            ),
                        );
                        self.outbox.push(
                            OutgoingMessage::UnreliableTo(
                                client_id,
                                UnreliableMessageFromServer::OwnedPlayerSync(
                                    OwnedPlayerSync {
                                        net_obj: actor.net_obj,
                                        position: actor.position,
                                        tick,
                                        last_input_order: actor.last_input.order,
                                    },
                                ),
                            ),
                        );
                    },
                    None => {},
                }
            }
            proof {
                lemma_sync_take_step(
                    self.instance.actors@,
                    self.client_map.pairs@,
                    tick,
                    k as int,
                );
                assert(self.outbox@ =~= old(self).outbox@ + sync_msgs(
                    self.instance.actors@.take(k + 1),
                    self.client_map.pairs@,
                    tick,
                ));
            }
            k = k + 1;
        }
        proof {
            assert(self.instance.actors@.take(n as int) =~= self.instance.actors@);
        }
    }

    /// Selects one pending input per actor — the smallest order buffered —
    /// and applies it through the movement resolver, recording the applied
    /// order per actor.
    pub fn apply_inputs(&mut self, dt_bits: u32)
        ensures
            final(self).inputs.view_queues().len() == old(self).inputs.view_queues().len(),
            forall|k: int|
                0 <= k < old(self).inputs.view_queues().len() ==> {
                    let q = old(self).inputs.view_queues()[k];
                    #[trigger] final(self).inputs.view_queues()[k] == (if q.1.len() == 0 {
                        q
                    } else {
                        (q.0, q.1.remove(min_first_idx(q.1)))
                    })
                },
            final(self).instance.actors@.len() == old(self).instance.actors@.len(),
            forall|i: int|
                0 <= i < old(self).instance.actors@.len() ==> {
                    let a = old(self).instance.actors@[i];
                    #[trigger] final(self).instance.actors@[i] == (match input_for(
                        popped(old(self).inputs.view_queues()),
                        a.net_obj,
                    ) {
                        Some(input) => if a.alive {
                            Actor {
                                position: Vec2Bits::from_bits(
                                    crate::player::apply_input_bits(
                                        old(self).instance.physics.world,
                                        a.position.bits(),
                                        input.input.move_direction.bits(),
                                        a.col,
                                        a.rb,
                                        dt_bits,
                                    ),
                                ),
                                last_input: crate::instance::LastInputTracker {
                                    order: input.order,
                                },
                                ..a
                            }
                        } else {
                            a
                        },
                        None => a,
                    })
                },
            final(self).instance.physics == old(self).instance.physics,
            final(self).instance.tick == old(self).instance.tick,
            final(self).instance.id == old(self).instance.id,
            final(self).tick_data == old(self).tick_data,
            final(self).message_queues == old(self).message_queues,
            final(self).client_map == old(self).client_map,
            final(self).player_spawn_requests == old(self).player_spawn_requests,
            final(self).outbox == old(self).outbox,
    {
        let selected = self.inputs.pop_inputs();
        self.instance.apply_inputs(dt_bits, &selected);
    }

    /// Empties every session's message queue; the step is over for them.
    pub fn clear_messages(&mut self)
        ensures
            final(self).message_queues@.len() == old(self).message_queues@.len(),
            forall|i: int|
                0 <= i < old(self).message_queues@.len() ==> {
                    &&& (#[trigger] final(self).message_queues@[i]).0 == old(
                        self,
                    ).message_queues@[i].0
                    &&& final(self).message_queues@[i].1.reliable@.len() == 0
                    &&& final(self).message_queues@[i].1.unreliable@.len() == 0
                },
            final(self).instance == old(self).instance,
            final(self).tick_data == old(self).tick_data,
            final(self).client_map == old(self).client_map,
            final(self).player_spawn_requests == old(self).player_spawn_requests,
            final(self).inputs == old(self).inputs,
            final(self).outbox == old(self).outbox,
    {
        let n = self.message_queues.len();
        let mut i: usize = 0;
        while i < n
            invariant
                n == self.message_queues@.len(),
                i <= n,
                self.message_queues@.len() == old(self).message_queues@.len(),
                forall|j: int|
                    i <= j < n ==> #[trigger] self.message_queues@[j] == old(
                        self,
                    ).message_queues@[j],
                forall|j: int|
                    0 <= j < i ==> {
                        &&& (#[trigger] self.message_queues@[j]).0 == old(
                            self,
                        ).message_queues@[j].0
                        &&& self.message_queues@[j].1.reliable@.len() == 0
                        &&& self.message_queues@[j].1.unreliable@.len() == 0
                    },
                self.instance == old(self).instance,
                self.tick_data == old(self).tick_data,
                self.client_map == old(self).client_map,
                self.player_spawn_requests == old(self).player_spawn_requests,
                self.inputs == old(self).inputs,
                self.outbox == old(self).outbox,
            decreases n - i,
        {
            let client_id = self.message_queues[i].0;
            self.message_queues.set(i, (client_id, MessageQueue::new()));
            i = i + 1;
        }
    }

    /// One authoritative fixed step, in the documented phase order:
    /// advance the tick (broadcasting the periodic correlation when due),
    /// drain queued inputs to their actors, process handshakes, materialize
    /// spawns, replicate state, carry positions into the collision world,
    /// resolve one input per actor, and clear the per-session queues.
    pub fn update(&mut self, dt_nanos: u64, dt_bits: u32)
        requires
            old(self).instance.tick.0 < u64::MAX,
            old(self).tick_data.broadcast_timer_nanos < crate::tick::TICK_BROADCAST_INTERVAL_NANOS,
            dt_nanos <= u64::MAX - crate::tick::TICK_BROADCAST_INTERVAL_NANOS,
        ensures
            final(self).instance.tick.0 == old(self).instance.tick.0 + 1,
            final(self).instance.id == old(self).instance.id,
            final(self).tick_data.broadcast_timer_nanos == (old(
                self,
            ).tick_data.broadcast_timer_nanos + dt_nanos) % (
            crate::tick::TICK_BROADCAST_INTERVAL_NANOS as int),
            final(self).player_spawn_requests@.len() == 0,
            final(self).message_queues@.len() == old(self).message_queues@.len(),
            forall|i: int|
                0 <= i < old(self).message_queues@.len() ==> {
                    &&& (#[trigger] final(self).message_queues@[i]).0 == old(
                        self,
                    ).message_queues@[i].0
                    &&& final(self).message_queues@[i].1.reliable@.len() == 0
                    &&& final(self).message_queues@[i].1.unreliable@.len() == 0
                },
            old(self).outbox@.is_prefix_of(final(self).outbox@),
            old(self).client_map.pairs@.is_prefix_of(final(self).client_map.pairs@),
            final(self).instance.actors@.len() >= old(self).instance.actors@.len(),
            exists|
                v1: GameView,
                v2: GameView,
                v3: GameView,
                v4: GameView,
                v5: GameView,
                v6: GameView,
                v7: GameView,
            |
                #![trigger tick_phase(game_view(*old(self)), v1, dt_nanos), read_phase(v1, v2), conn_phase(v2, v3), spawn_phase(v3, v4), bcast_phase(v4, v5), world_phase(v5, v6), apply_phase(v6, v7, dt_bits)]
                {
                    &&& tick_phase(game_view(*old(self)), v1, dt_nanos)
                    &&& read_phase(v1, v2)
                    &&& conn_phase(v2, v3)
                    &&& spawn_phase(v3, v4)
                    &&& bcast_phase(v4, v5)
                    &&& world_phase(v5, v6)
                    &&& apply_phase(v6, v7, dt_bits)
                    &&& clear_phase(v7, game_view(*final(self)))
                },
    {
        let ghost g0 = *self;
        tick(self, dt_nanos);
        let ghost g1 = *self;
        self.read_inputs();
        let ghost g2 = *self;
        self.handle_connections();
        let ghost g3 = *self;
        self.process_player_spawn_requests();
        let ghost g4 = *self;
        self.broadcast_data();
        let ghost g5 = *self;
        self.instance.update();
        let ghost g6 = *self;
        self.apply_inputs(dt_bits);
        let ghost g7 = *self;
        self.clear_messages();
        proof {
            lemma_prefix_extend(g0.outbox@, g1.outbox@, g3.outbox@);
            lemma_prefix_extend(g0.outbox@, g3.outbox@, g4.outbox@);
            lemma_prefix_extend(g0.outbox@, g4.outbox@, self.outbox@);
            lemma_prefix_extend(g0.client_map.pairs@, g3.client_map.pairs@, self.client_map.pairs@);
            assert(tick_phase(game_view(g0), game_view(g1), dt_nanos));
            assert(read_phase(game_view(g1), game_view(g2)));
            assert(conn_phase(game_view(g2), game_view(g3)));
            assert(spawn_phase(game_view(g3), game_view(g4)));
            assert(bcast_phase(game_view(g4), game_view(g5)));
            assert(world_phase(game_view(g5), game_view(g6)));
            assert(apply_phase(game_view(g6), game_view(g7), dt_bits));
            assert(clear_phase(game_view(g7), game_view(*self)));
        }
    }
}

/// Advances the authoritative tick by one and accumulates wall time toward
/// the periodic tick correlation broadcast, queueing one `TickSync` per
/// interval that fell due, each carrying the fresh tick and a wall-clock
/// reading.
pub fn tick(game: &mut Game, dt_nanos: u64)
    requires
        old(game).instance.tick.0 < u64::MAX,
        old(game).tick_data.broadcast_timer_nanos < crate::tick::TICK_BROADCAST_INTERVAL_NANOS,
        dt_nanos <= u64::MAX - crate::tick::TICK_BROADCAST_INTERVAL_NANOS,
    ensures
        final(game).instance == (Instance {
            tick: Tick((old(game).instance.tick.0 + 1) as u64),
            ..old(game).instance
        }),
        final(game).tick_data.broadcast_timer_nanos == (old(game).tick_data.broadcast_timer_nanos
            + dt_nanos) % (crate::tick::TICK_BROADCAST_INTERVAL_NANOS as int),
        ({
            let due = (old(game).tick_data.broadcast_timer_nanos + dt_nanos) / (
            crate::tick::TICK_BROADCAST_INTERVAL_NANOS as int);
            &&& final(game).outbox@.len() == old(game).outbox@.len() + due
            &&& final(game).outbox@.take(old(game).outbox@.len() as int) == old(game).outbox@
            &&& forall|k: int|
                old(game).outbox@.len() <= k < final(game).outbox@.len()
                    ==> ((#[trigger] final(game).outbox@[k])
                    matches OutgoingMessage::ReliableBroadcast(
                    ReliableMessageFromServer::TickSync(ts),
                ) && ts.tick == old(game).instance.tick.0 + 1)
        }),
        final(game).message_queues == old(game).message_queues,
        final(game).client_map == old(game).client_map,
        final(game).player_spawn_requests == old(game).player_spawn_requests,
        final(game).inputs == old(game).inputs,
{
    game.instance.update_tick();
    let due = game.tick_data.advance(dt_nanos);
    let ghost base = game.outbox@.len() as int;
    let tick_value = game.instance.get_tick();
    let mut sent: u64 = 0;
    while sent < due
        invariant
            sent <= due,
            old(game).instance.tick.0 < u64::MAX,
            game.instance == (Instance {
                tick: Tick((old(game).instance.tick.0 + 1) as u64),
                ..old(game).instance
            }),
            tick_value == game.instance.tick,
            game.tick_data.broadcast_timer_nanos == (old(game).tick_data.broadcast_timer_nanos
                + dt_nanos) % (crate::tick::TICK_BROADCAST_INTERVAL_NANOS as int),
            game.outbox@.len() == base + sent,
            base == old(game).outbox@.len(),
            game.outbox@.take(base) == old(game).outbox@,
            forall|k: int|
                base <= k < game.outbox@.len() ==> ((#[trigger] game.outbox@[k])
                    matches OutgoingMessage::ReliableBroadcast(
                    ReliableMessageFromServer::TickSync(ts),
                ) && ts.tick == old(game).instance.tick.0 + 1),
            game.message_queues == old(game).message_queues,
            game.client_map == old(game).client_map,
            game.player_spawn_requests == old(game).player_spawn_requests,
            game.inputs == old(game).inputs,
        decreases due - sent,
    {
        let millis = get_unix_millis();
        game.outbox.push(
            OutgoingMessage::ReliableBroadcast(
                ReliableMessageFromServer::TickSync(
                    TickSync { tick: tick_value.0, unix_millis: millis },
                ),
            ),
        );
        proof {
            assert(game.outbox@.take(base) =~= old(game).outbox@);
            assert(game.outbox@[game.outbox@.len() - 1] == OutgoingMessage::ReliableBroadcast(
                ReliableMessageFromServer::TickSync(
                    TickSync { tick: tick_value.0, unix_millis: millis },
                ),
            ));
            assert(tick_value.0 == old(game).instance.tick.0 + 1);
        }
        sent = sent + 1;
    }
}

} // verus!
