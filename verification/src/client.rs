//! The client side of one instance: the connection lifecycle state machine
//! from first contact to steady-state play, and the per-step prediction and
//! rollback-reconciliation engine that hides network latency behind locally
//! predicted movement.

use vstd::prelude::*;

use crate::buffer::InputBuffer;
use crate::buffer::PlayerSnapshot;
use crate::buffer::RECONCILE_EPSILON_BITS;
use crate::buffer::SNAPSHOT_HISTORY_LIMIT;
use crate::buffer::SnapshotHistory;
use crate::buffer::Buffer;
use crate::buffer::pruned;
use crate::instance::Actor;
use crate::instance::Instance;
use crate::message::OrderedInput;
use crate::message::OwnedPlayerSync;
use crate::message::PlayerInput;
use crate::message::PlayerPositionSync;
use crate::message::ReliableMessageFromClient;
use crate::message::ReliableMessageFromServer;
use crate::message::Spawn;
use crate::message::NetworkSpawn;
use crate::message::TickSync;
use crate::message::UnreliableMessageFromClient;
use crate::message::UnreliableMessageFromServer;
use crate::net_obj::LastSyncTracker;
use crate::net_obj::NetworkObject;
use crate::player::replay_bits;
use crate::tick::Tick;
use crate::tick::client_tick_from;
use crate::tick::client_tick_value;
use crate::vec2::Vec2Bits;
use crate::vec2::gt_bits;
use crate::vec2::norm_bits;
use crate::vec2::spec_zero_vec;
use crate::vec2::sub_bits;
use crate::vec2::unit_bits;
use crate::vec2::vec2_normalize;

verus! {

/// The stable identity of the locally controlled actor.
#[derive(Debug, Clone, Copy, PartialEq, Eq, Structural)]
pub struct LocalPlayer(pub NetworkObject);

/// Which halves of the remote-loading handshake have been observed.
#[derive(Debug, Clone, Copy, PartialEq, Eq, Structural)]
pub struct LoadRemoteState {
    pub set_player_obj: bool,
    pub tick: bool,
}

impl LoadRemoteState {
    pub fn new() -> (r: LoadRemoteState)
        ensures
            !r.set_player_obj,
            !r.tick,
    {
        LoadRemoteState { set_player_obj: false, tick: false }
    }

    /// Both the player assignment and the tick correlation have arrived.
    pub fn all(&self) -> (r: bool)
        ensures
            r == (self.set_player_obj && self.tick),
    {
        self.set_player_obj && self.tick
    }
}

/// The connection lifecycle of one instance, client side.
#[derive(Debug, Clone, Copy, PartialEq, Eq, Structural)]
pub enum InstanceState {
    Connecting,
    LocalLoaded,
    LoadRemote(LoadRemoteState),
    Done,
}

/// The handshake flags after a batch of reliable messages is observed: a
/// `PlayerInit` sets the player flag, a `TickSync` sets the tick flag, and
/// nothing ever clears one.
pub open spec fn flags_after(
    st: LoadRemoteState,
    msgs: Seq<ReliableMessageFromServer>,
) -> LoadRemoteState
    decreases msgs.len(),
{
    if msgs.len() == 0 {
        st
    } else {
        let prev = flags_after(st, msgs.drop_last());
        match msgs.last() {
            ReliableMessageFromServer::PlayerInit(_) => LoadRemoteState {
                set_player_obj: true,
                ..prev
            },
            ReliableMessageFromServer::TickSync(_) => LoadRemoteState { tick: true, ..prev },
            _ => prev,
        }
    }
}

/// The state machine leaves `LoadRemote` for `Done` only once both a
/// `PlayerInit` and a `TickSync` have been observed at least once —
/// whichever order they arrive in — and a flag, once set, never clears.
pub proof fn lemma_active_needs_both(st: LoadRemoteState, msgs: Seq<ReliableMessageFromServer>)
    ensures
        flags_after(st, msgs).set_player_obj == (st.set_player_obj || exists|i: int|
            0 <= i < msgs.len() && (#[trigger] msgs[i]) is PlayerInit),
        flags_after(st, msgs).tick == (st.tick || exists|i: int|
            0 <= i < msgs.len() && (#[trigger] msgs[i]) is TickSync),
    decreases msgs.len(),
{
    if msgs.len() > 0 {
        lemma_active_needs_both(st, msgs.drop_last());
        let prior = msgs.drop_last();
        if flags_after(st, msgs).set_player_obj {
            if !st.set_player_obj && !(msgs.last() is PlayerInit) {
                let i = choose|i: int| 0 <= i < prior.len() && (#[trigger] prior[i]) is PlayerInit;
                assert(msgs[i] is PlayerInit);
            }
        }
        if st.set_player_obj || exists|i: int|
            0 <= i < msgs.len() && (#[trigger] msgs[i]) is PlayerInit {
            if !st.set_player_obj {
                let i = choose|i: int| 0 <= i < msgs.len() && (#[trigger] msgs[i]) is PlayerInit;
                if i < prior.len() {
                    assert(prior[i] is PlayerInit);
                }
            }
        }
        if flags_after(st, msgs).tick {
            if !st.tick && !(msgs.last() is TickSync) {
                let i = choose|i: int| 0 <= i < prior.len() && (#[trigger] prior[i]) is TickSync;
                assert(msgs[i] is TickSync);
            }
        }
        if st.tick || exists|i: int| 0 <= i < msgs.len() && (#[trigger] msgs[i]) is TickSync {
            if !st.tick {
                let i = choose|i: int| 0 <= i < msgs.len() && (#[trigger] msgs[i]) is TickSync;
                if i < prior.len() {
                    assert(prior[i] is TickSync);
                }
            }
        }
    }
}

/// The last tick correlation in a batch of reliable messages, if any: a
/// client applies them in order, so the last one decides the tick.
pub open spec fn last_tick_sync(msgs: Seq<ReliableMessageFromServer>) -> Option<TickSync>
    decreases msgs.len(),
{
    if msgs.len() == 0 {
        None
    } else {
        match msgs.last() {
            ReliableMessageFromServer::TickSync(ts) => Some(ts),
            _ => last_tick_sync(msgs.drop_last()),
        }
    }
}

/// The remote spawns a client materializes from a batch of reliable
/// messages: every `Spawn` event not describing the local player.
pub open spec fn remote_spawns(
    msgs: Seq<ReliableMessageFromServer>,
    local: Option<NetworkObject>,
) -> Seq<Spawn>
    decreases msgs.len(),
{
    if msgs.len() == 0 {
        Seq::empty()
    } else {
        let head: Seq<Spawn> = match msgs[0] {
            ReliableMessageFromServer::Spawn(s) => if local == Some(s.net_obj) {
                Seq::empty()
            } else {
                seq![s]
            },
            _ => Seq::empty(),
        };
        head + remote_spawns(msgs.skip(1), local)
    }
}

proof fn lemma_remote_spawns_take_step(
    msgs: Seq<ReliableMessageFromServer>,
    local: Option<NetworkObject>,
    k: int,
)
    requires
        0 <= k < msgs.len(),
    ensures
        remote_spawns(msgs.take(k + 1), local) == (match msgs[k] {
            ReliableMessageFromServer::Spawn(s) => if local == Some(s.net_obj) {
                remote_spawns(msgs.take(k), local)
            } else {
                remote_spawns(msgs.take(k), local).push(s)
            },
            _ => remote_spawns(msgs.take(k), local),
        }),
    decreases k,
{
    if k == 0 {
        assert(msgs.take(0) =~= Seq::<ReliableMessageFromServer>::empty());
        assert(msgs.take(1) =~= seq![msgs[0]]);
        assert(msgs.take(1).skip(1) =~= Seq::<ReliableMessageFromServer>::empty());
        match msgs[0] {
            ReliableMessageFromServer::Spawn(s) => {
                if local == Some(s.net_obj) {
                    assert(remote_spawns(msgs.take(1), local) =~= remote_spawns(
                        msgs.take(0),
                        local,
                    ));
                } else {
                    assert(remote_spawns(msgs.take(1), local) =~= remote_spawns(
                        msgs.take(0),
                        local,
                    ).push(s));
                }
            },
            _ => {
                assert(remote_spawns(msgs.take(1), local) =~= remote_spawns(msgs.take(0), local));
            },
        }
    } else {
        let rest = msgs.skip(1);
        assert(msgs.take(k)[0] == msgs[0]);
        assert(msgs.take(k + 1)[0] == msgs[0]);
        assert(msgs.take(k).skip(1) =~= rest.take(k - 1));
        assert(msgs.take(k + 1).skip(1) =~= rest.take(k));
        lemma_remote_spawns_take_step(rest, local, k - 1);
        assert(rest[k - 1] == msgs[k]);
        match msgs[k] {
            ReliableMessageFromServer::Spawn(s) => {
                if local == Some(s.net_obj) {
                    assert(remote_spawns(msgs.take(k + 1), local) =~= remote_spawns(
                        msgs.take(k),
                        local,
                    ));
                } else {
                    assert(remote_spawns(msgs.take(k + 1), local) =~= remote_spawns(
                        msgs.take(k),
                        local,
                    ).push(s));
                }
            },
            _ => {
                assert(remote_spawns(msgs.take(k + 1), local) =~= remote_spawns(
                    msgs.take(k),
                    local,
                ));
            },
        }
    }
}

/// Pruning after each recorded snapshot reaches the same history as
/// recording everything and pruning once: only the most recent entries
/// within the bound survive either way.
pub proof fn lemma_prune_fold(s: Seq<PlayerSnapshot>, x: PlayerSnapshot, limit: int)
    requires
        limit >= 0,
    ensures
        pruned(pruned(s, limit).push(x), limit) == pruned(s.push(x), limit),
{
    assert(pruned(pruned(s, limit).push(x), limit) =~= pruned(s.push(x), limit));
}

/// What the client sends back during one steady-state step.
pub struct ClientStepOutput {
    pub reliable: Vec<ReliableMessageFromClient>,
    pub unreliable: Vec<UnreliableMessageFromClient>,
}

/// The client's view of one instance: its local simulation, the connection
/// lifecycle state, the locally controlled actor, the outgoing input
/// buffer, and the history of predicted position snapshots.
pub struct InstanceData {
    pub instance: Instance,
    pub state: InstanceState,
    pub local_player: Option<(NetworkObject, usize)>,
    pub input_buffer: InputBuffer,
    pub player_history: SnapshotHistory,
}

impl InstanceData {
    pub fn new(instance: Instance) -> (r: InstanceData)
        ensures
            r.instance == instance,
            r.state is Connecting,
            r.local_player is None,
            r.input_buffer.wf(),
            r.input_buffer.count == 0,
            r.input_buffer.buffer@.len() == 0,
            r.player_history@.len() == 0,
    {
        InstanceData {
            instance,
            state: InstanceState::Connecting,
            local_player: None,
            input_buffer: InputBuffer::new(),
            player_history: Buffer::new(),
        }
    }

    /// Samples one local movement intent: the raw direction is normalized
    /// (a zero direction stays zero), buffered under the next sequence
    /// number, and returned as the unreliable `Input` message to send.
    pub fn read_input(&mut self, direction: Vec2Bits) -> (out: UnreliableMessageFromClient)
        requires
            old(self).input_buffer.wf(),
            old(self).input_buffer.count < u64::MAX,
        ensures
            ({
                let dir = if direction == spec_zero_vec() {
                    spec_zero_vec()
                } else {
                    Vec2Bits::from_bits(unit_bits(direction.bits()))
                };
                let entry = OrderedInput {
                    input: PlayerInput { move_direction: dir },
                    order: (old(self).input_buffer.count + 1) as u64,
                };
                &&& final(self).input_buffer.wf()
                &&& final(self).input_buffer.count == old(self).input_buffer.count + 1
                &&& final(self).input_buffer.buffer@ == old(self).input_buffer.buffer@.push(entry)
                &&& out == UnreliableMessageFromClient::Input(entry)
            }),
            final(self).instance == old(self).instance,
            final(self).state == old(self).state,
            final(self).local_player == old(self).local_player,
            final(self).player_history == old(self).player_history,
    {
        let zero = Vec2Bits::zero();
        let dir = if direction == zero {
            zero
        } else {
            vec2_normalize(direction)
        };
        let input = PlayerInput { move_direction: dir };
        let order = self.input_buffer.push_input(input);
        UnreliableMessageFromClient::Input(OrderedInput { input, order })
    }

    /// Materializes the remote spawn events of this step: one live,
    /// non-local actor per `Spawn` not describing the local player, each
    /// guarded by the tick the event carries.
    pub fn spawn(&mut self, reliable: &Vec<ReliableMessageFromServer>)
        ensures
            spawn_rel(
                old(self).instance.actors@,
                final(self).instance.actors@,
                reliable@,
                (match old(self).local_player {
                    Some(lp) => Some(lp.0),
                    None => None,
                }),
            ),
            ({
                let locals = match old(self).local_player {
                    Some(lp) => Some(lp.0),
                    None => None,
                };
                let spawns = remote_spawns(reliable@, locals);
                let base = old(self).instance.actors@.len() as int;
                &&& final(self).instance.actors@.len() == base + spawns.len()
                &&& final(self).instance.actors@.take(base) == old(self).instance.actors@
                &&& forall|k: int|
                    #![trigger spawns[k]]
                    0 <= k < spawns.len() ==> ({
                        let a = final(self).instance.actors@[base + k];
                        &&& a.alive
                        &&& !a.is_local
                        &&& a.net_obj == spawns[k].net_obj
                        &&& a.position == (match spawns[k].net_spawn {
                            NetworkSpawn::Player(p) => p,
                        })
                        &&& a.sync_tracker == Some(
                            LastSyncTracker { last_tick: spawns[k].tick },
                        )
                    })
            }),
            final(self).instance.tick == old(self).instance.tick,
            final(self).instance.id == old(self).instance.id,
            final(self).state == old(self).state,
            final(self).local_player == old(self).local_player,
            final(self).input_buffer == old(self).input_buffer,
            final(self).player_history == old(self).player_history,
    {
        let ghost locals = match self.local_player {
            Some(lp) => Some(lp.0),
            None => None,
        };
        let ghost base = self.instance.actors@.len() as int;
        let n = reliable.len();
        let mut i: usize = 0;
        proof {
            assert(self.instance.actors@.take(base) =~= old(self).instance.actors@);
            assert(remote_spawns(reliable@.take(0), locals) =~= Seq::<Spawn>::empty());
        }
        while i < n
            invariant
                n == reliable@.len(),
                i <= n,
                base == old(self).instance.actors@.len(),
                locals == (match old(self).local_player {
                    Some(lp) => Some(lp.0),
                    None => None,
                }),
                self.instance.actors@.len() == base + remote_spawns(
                    reliable@.take(i as int),
                    locals,
                ).len(),
                self.instance.actors@.take(base) == old(self).instance.actors@,
                forall|k: int|
                    #![trigger remote_spawns(reliable@.take(i as int), locals)[k]]
                    0 <= k < remote_spawns(reliable@.take(i as int), locals).len() ==> ({
                        let spawns = remote_spawns(reliable@.take(i as int), locals);
                        let a = self.instance.actors@[base + k];
                        &&& a.alive
                        &&& !a.is_local
                        &&& a.net_obj == spawns[k].net_obj
                        &&& a.position == (match spawns[k].net_spawn {
                            NetworkSpawn::Player(p) => p,
                        })
                        &&& a.sync_tracker == Some(
                            LastSyncTracker { last_tick: spawns[k].tick },
                        )
                    }),
                self.instance.tick == old(self).instance.tick,
                self.instance.id == old(self).instance.id,
                self.state == old(self).state,
                self.local_player == old(self).local_player,
                self.input_buffer == old(self).input_buffer,
                self.player_history == old(self).player_history,
            decreases n - i,
        {
            let ghost actors_before = self.instance.actors@;
            let message = reliable[i];
            match message {
                ReliableMessageFromServer::Spawn(spawn) => {
                    let is_local = match self.local_player {
                        Some(lp) => lp.0 == spawn.net_obj,
                        None => false,
                    };
                    if !is_local {
                        match spawn.net_spawn {
                            NetworkSpawn::Player(position) => {
                                self.instance.spawn_player(
                                    false,
                                    position,
                                    spawn.net_obj,
                                    Some(spawn.tick),
                                );
                            },
                        }
                        proof {
                            assert(self.instance.actors@.take(base) =~= actors_before.take(base));
                        }
                    }
                },
                _ => {},
            }
            proof {
                lemma_remote_spawns_take_step(reliable@, locals, i as int);
            }
            i = i + 1;
        }
        proof {
            assert(reliable@.take(n as int) =~= reliable@);
        }
    }

    /// Applies a position replication to the matching non-local actors,
    /// each guarded by its monotonic-tick tracker: stale or duplicate
    /// updates fall through without effect.
    pub fn sync_nonlocal(&mut self, position_sync: &PlayerPositionSync)
        ensures
            final(self).instance.actors@ == sync_all(old(self).instance.actors@, *position_sync),
            final(self).instance.actors@.len() == old(self).instance.actors@.len(),
            forall|i: int|
                0 <= i < old(self).instance.actors@.len() ==> {
                    let a = old(self).instance.actors@[i];
                    #[trigger] final(self).instance.actors@[i] == (if a.alive && !a.is_local
                        && a.net_obj == position_sync.net_obj && (match a.sync_tracker {
                        Some(t) => t.accepts(position_sync.tick),
                        None => false,
                    }) {
                        Actor {
                            position: position_sync.position,
                            sync_tracker: Some(
                                LastSyncTracker { last_tick: position_sync.tick },
                            ),
                            ..a
                        }
                    } else {
                        a
                    })
                },
            final(self).instance.tick == old(self).instance.tick,
            final(self).instance.id == old(self).instance.id,
            final(self).instance.physics == old(self).instance.physics,
            final(self).state == old(self).state,
            final(self).local_player == old(self).local_player,
            final(self).input_buffer == old(self).input_buffer,
            final(self).player_history == old(self).player_history,
    {
        let n = self.instance.actors.len();
        let mut i: usize = 0;
        while i < n
            invariant
                n == self.instance.actors@.len(),
                i <= n,
                self.instance.actors@.len() == old(self).instance.actors@.len(),
                forall|j: int|
                    i <= j < n ==> #[trigger] self.instance.actors@[j] == old(
                        self,
                    ).instance.actors@[j],
                forall|j: int|
                    0 <= j < i ==> {
                        let a = old(self).instance.actors@[j];
                        #[trigger] self.instance.actors@[j] == (if a.alive && !a.is_local
                            && a.net_obj == position_sync.net_obj && (match a.sync_tracker {
                            Some(t) => t.accepts(position_sync.tick),
                            None => false,
                        }) {
                            Actor {
                                position: position_sync.position,
                                sync_tracker: Some(
                                    LastSyncTracker { last_tick: position_sync.tick },
                                ),
                                ..a
                            }
                        } else {
                            a
                        })
                    },
                self.instance.tick == old(self).instance.tick,
                self.instance.id == old(self).instance.id,
                self.instance.physics == old(self).instance.physics,
                self.state == old(self).state,
                self.local_player == old(self).local_player,
                self.input_buffer == old(self).input_buffer,
                self.player_history == old(self).player_history,
            decreases n - i,
        {
            let actor = self.instance.actors[i];
            if actor.alive && !actor.is_local && actor.net_obj == position_sync.net_obj {
                match actor.sync_tracker {
                    Some(mut tracker) => {
                        if tracker.should_update(position_sync.tick) {
                            self.instance.actors.set(
                                i,
                                Actor {
                                    position: position_sync.position,
                                    sync_tracker: Some(tracker),
                                    ..actor
                                },
                            );
                        }
                    },
                    None => {},
                }
            }
            i = i + 1;
        }
        proof {
            assert(self.instance.actors@ =~= sync_all(
                old(self).instance.actors@,
                *position_sync,
            ));
        }
    }
}

/// One actor after a position replication is offered to it: accepted only
/// by the live, non-local actor it addresses, and only past its guard.
pub open spec fn sync_one(a: Actor, ps: PlayerPositionSync) -> Actor {
    if a.alive && !a.is_local && a.net_obj == ps.net_obj && (match a.sync_tracker {
        Some(t) => t.accepts(ps.tick),
        None => false,
    }) {
        Actor {
            position: ps.position,
            sync_tracker: Some(LastSyncTracker { last_tick: ps.tick }),
            ..a
        }
    } else {
        a
    }
}

/// The whole actor set after one position replication.
pub open spec fn sync_all(actors: Seq<Actor>, ps: PlayerPositionSync) -> Seq<Actor> {
    actors.map_values(|a: Actor| sync_one(a, ps))
}

/// Whether `owned` addresses the live local actor of `lp`.
pub open spec fn lp_eligible(
    lp: Option<(NetworkObject, usize)>,
    actors: Seq<Actor>,
    owned: OwnedPlayerSync,
) -> bool {
    match lp {
        Some(p) => {
            let h = p.1 as int;
            &&& h < actors.len()
            &&& actors[h].alive
            &&& actors[h].is_local
            &&& actors[h].net_obj == owned.net_obj
            &&& actors[h].sync_tracker is Some
        },
        None => false,
    }
}

/// Whether the local actor's monotonic guard accepts the sync's tick.
pub open spec fn lp_accepts(
    lp: Option<(NetworkObject, usize)>,
    actors: Seq<Actor>,
    owned: OwnedPlayerSync,
) -> bool {
    match lp {
        Some(p) => p.1 < actors.len() && (match actors[p.1 as int].sync_tracker {
            Some(t) => t.accepts(owned.tick),
            None => false,
        }),
        None => false,
    }
}

/// The not-yet-acknowledgeable input set: everything buffered after the
/// last order the server reports applied, minus the most recently sent
/// entry (which the server cannot have seen yet).
pub open spec fn unacked_inputs(buffer: Seq<OrderedInput>, last_input_order: u64) -> Seq<
    OrderedInput,
> {
    let pending = buffer.filter(|e: OrderedInput| e.order > last_input_order);
    if pending.len() > 0 {
        pending.drop_last()
    } else {
        pending
    }
}

/// The actor set and snapshot history after one authoritative sync for the
/// local actor is consumed: the guard steps when it accepts, and the
/// position resets and replays exactly when reconciliation fires.
pub open spec fn owned_step(
    actors: Seq<Actor>,
    history: Seq<PlayerSnapshot>,
    lp: Option<(NetworkObject, usize)>,
    buffer: Seq<OrderedInput>,
    w: rapier2d::pipeline::PhysicsWorld,
    owned: OwnedPlayerSync,
    dt_bits: u32,
) -> (Seq<Actor>, Seq<PlayerSnapshot>) {
    if !(lp_eligible(lp, actors, owned) && lp_accepts(lp, actors, owned)) {
        (actors, history)
    } else {
        let h = (match lp {
            Some(p) => p.1 as int,
            None => 0,
        });
        let a = actors[h];
        let stepped = Some(LastSyncTracker { last_tick: owned.tick });
        let unacked = unacked_inputs(buffer, owned.last_input_order);
        let fires = unacked.len() > 0 && unacked.len() < history.len() && gt_bits(
            norm_bits(
                sub_bits(
                    owned.position.bits(),
                    history[history.len() - 1 - unacked.len()].position.bits(),
                ),
            ),
            RECONCILE_EPSILON_BITS,
        );
        if !fires {
            (actors.update(h, (Actor { sync_tracker: stepped, ..a })), history)
        } else {
            let trace = replay_bits(w, owned.position.bits(), unacked, a.col, a.rb, dt_bits);
            (
                actors.update(
                    h,
                    (Actor {
                        position: Vec2Bits::from_bits(trace[trace.len() - 1]),
                        sync_tracker: stepped,
                        ..a
                    }),
                ),
                pruned(
                    history + trace.map_values(
                        |p: (u32, u32)| PlayerSnapshot { position: Vec2Bits::from_bits(p) },
                    ),
                    SNAPSHOT_HISTORY_LIMIT as int,
                ),
            )
        }
    }
}

/// The actor set and snapshot history after one unreliable message.
pub open spec fn unreliable_step(
    actors: Seq<Actor>,
    history: Seq<PlayerSnapshot>,
    lp: Option<(NetworkObject, usize)>,
    buffer: Seq<OrderedInput>,
    w: rapier2d::pipeline::PhysicsWorld,
    msg: UnreliableMessageFromServer,
    dt_bits: u32,
) -> (Seq<Actor>, Seq<PlayerSnapshot>) {
    match msg {
        UnreliableMessageFromServer::PlayerPositionSync(ps) => (sync_all(actors, ps), history),
        UnreliableMessageFromServer::OwnedPlayerSync(os) => owned_step(
            actors,
            history,
            lp,
            buffer,
            w,
            os,
            dt_bits,
        ),
    }
}

/// The actor set and snapshot history after a whole batch of unreliable
/// messages is consumed in order.
pub open spec fn unreliable_fold(
    actors: Seq<Actor>,
    history: Seq<PlayerSnapshot>,
    lp: Option<(NetworkObject, usize)>,
    buffer: Seq<OrderedInput>,
    w: rapier2d::pipeline::PhysicsWorld,
    msgs: Seq<UnreliableMessageFromServer>,
    dt_bits: u32,
) -> (Seq<Actor>, Seq<PlayerSnapshot>)
    decreases msgs.len(),
{
    if msgs.len() == 0 {
        (actors, history)
    } else {
        let stepped = unreliable_step(actors, history, lp, buffer, w, msgs[0], dt_bits);
        unreliable_fold(stepped.0, stepped.1, lp, buffer, w, msgs.skip(1), dt_bits)
    }
}

/// The actor set and snapshot history after the current step is predicted:
/// the most recent buffered input applied to the live local actor and the
/// reached position recorded, the history pruned to its bound.
pub open spec fn predict_step(
    actors: Seq<Actor>,
    history: Seq<PlayerSnapshot>,
    lp: Option<(NetworkObject, usize)>,
    buffer: Seq<OrderedInput>,
    w: rapier2d::pipeline::PhysicsWorld,
    dt_bits: u32,
) -> (Seq<Actor>, Seq<PlayerSnapshot>) {
    match lp {
        Some(p) => {
            let h = p.1 as int;
            if buffer.len() == 0 {
                (actors, history)
            } else if h < actors.len() && actors[h].alive {
                let a = actors[h];
                let new_pos = Vec2Bits::from_bits(
                    crate::player::apply_input_bits(
                        w,
                        a.position.bits(),
                        buffer.last().input.move_direction.bits(),
                        a.col,
                        a.rb,
                        dt_bits,
                    ),
                );
                (
                    actors.update(h, (Actor { position: new_pos, ..a })),
                    pruned(
                        history.push(PlayerSnapshot { position: new_pos }),
                        SNAPSHOT_HISTORY_LIMIT as int,
                    ),
                )
            } else {
                (actors, history)
            }
        },
        None => (actors, history),
    }
}

/// One whole steady-state step, given the spawned actor set `mid` and the
/// collision world value `w` it ran against: remote spawns materialized,
/// the unreliable batch consumed in order, and the current step predicted.
pub open spec fn done_step_rel(
    before_actors: Seq<Actor>,
    before_history: Seq<PlayerSnapshot>,
    lp: Option<(NetworkObject, usize)>,
    buffer0: Seq<OrderedInput>,
    direction: Vec2Bits,
    count0: u64,
    mid: Seq<Actor>,
    w: rapier2d::pipeline::PhysicsWorld,
    reliable: Seq<ReliableMessageFromServer>,
    unreliable: Seq<UnreliableMessageFromServer>,
    dt_bits: u32,
    after_actors: Seq<Actor>,
    after_history: Seq<PlayerSnapshot>,
) -> bool {
    let lpobj = (match lp {
        Some(p) => Some(p.0),
        None => None::<NetworkObject>,
    });
    let dir = if direction == spec_zero_vec() {
        spec_zero_vec()
    } else {
        Vec2Bits::from_bits(unit_bits(direction.bits()))
    };
    let entry = OrderedInput {
        input: PlayerInput { move_direction: dir },
        order: (count0 + 1) as u64,
    };
    let buffer1 = buffer0.push(entry);
    let synced = unreliable_fold(mid, before_history, lp, buffer1, w, unreliable, dt_bits);
    let predicted = predict_step(synced.0, synced.1, lp, buffer1, w, dt_bits);
    &&& spawn_rel(before_actors, mid, reliable, lpobj)
    &&& after_actors == predicted.0
    &&& after_history == predicted.1
}

/// How the actor set extends when a batch of remote spawn events is
/// materialized: one live, non-local, guard-carrying actor per event, in
/// order, the existing records untouched (the collision handles of the new
/// records are whatever the world handed out).
pub open spec fn spawn_rel(
    before: Seq<Actor>,
    after: Seq<Actor>,
    msgs: Seq<ReliableMessageFromServer>,
    local: Option<NetworkObject>,
) -> bool {
    let spawns = remote_spawns(msgs, local);
    &&& after.len() == before.len() + spawns.len()
    &&& after.take(before.len() as int) == before
    &&& forall|k: int|
        #![trigger spawns[k]]
        0 <= k < spawns.len() ==> ({
            let a = after[before.len() + k];
            &&& a.alive
            &&& !a.is_local
            &&& a.net_obj == spawns[k].net_obj
            &&& a.position == (match spawns[k].net_spawn {
                NetworkSpawn::Player(p) => p,
            })
            &&& a.sync_tracker == Some(LastSyncTracker { last_tick: spawns[k].tick })
        })
}

impl InstanceData {
    /// Whether an authoritative `OwnedPlayerSync` addresses the live local
    /// actor.
    pub open spec fn owns_sync(&self, owned: OwnedPlayerSync) -> bool {
        lp_eligible(self.local_player, self.instance.actors@, owned)
    }

    /// Whether the local actor's monotonic guard accepts the sync's tick.
    pub open spec fn sync_accepted(&self, owned: OwnedPlayerSync) -> bool {
        lp_accepts(self.local_player, self.instance.actors@, owned)
    }

    /// Consumes one authoritative sync for the local actor. The update is
    /// accepted only if its tick is newer than the last accepted one; the
    /// un-acknowledged input set is computed, the snapshot recorded that
    /// many steps back is compared against the authoritative position, and
    /// only if they differ by more than the threshold does reconciliation
    /// fire: the position resets to the authoritative value, every
    /// un-acknowledged input is replayed in increasing order, and a fresh
    /// snapshot is recorded after each, the history pruned to its bound.
    /// With no snapshot reaching that far back, or nothing to replay, no
    /// correction is made.
    pub fn recv_owned_player_sync(&mut self, owned: &OwnedPlayerSync, dt_bits: u32) -> (reconciled:
        bool)
        ensures
            !(old(self).owns_sync(*owned) && old(self).sync_accepted(*owned)) ==> (*final(self)
                == *old(self) && !reconciled),
            (old(self).owns_sync(*owned) && old(self).sync_accepted(*owned)) ==> ({
                let h = (match old(self).local_player {
                    Some(lp) => lp.1 as int,
                    None => 0,
                });
                let a = old(self).instance.actors@[h];
                let stepped = Some(LastSyncTracker { last_tick: owned.tick });
                let unacked = unacked_inputs(
                    old(self).input_buffer.buffer@,
                    owned.last_input_order,
                );
                let hist = old(self).player_history@;
                let fires = unacked.len() > 0 && unacked.len() < hist.len() && gt_bits(
                    norm_bits(
                        sub_bits(
                            owned.position.bits(),
                            hist[hist.len() - 1 - unacked.len()].position.bits(),
                        ),
                    ),
                    RECONCILE_EPSILON_BITS,
                );
                let trace = replay_bits(
                    old(self).instance.physics.world,
                    owned.position.bits(),
                    unacked,
                    a.col,
                    a.rb,
                    dt_bits,
                );
                &&& reconciled == fires
                &&& !fires ==> (final(self).instance.actors@ == old(
                    self,
                ).instance.actors@.update(h, (Actor { sync_tracker: stepped, ..a }))
                    && final(self).player_history@ == hist)
                &&& fires ==> (final(self).instance.actors@ == old(
                    self,
                ).instance.actors@.update(
                    h,
                    (Actor {
                        position: Vec2Bits::from_bits(trace[trace.len() - 1]),
                        sync_tracker: stepped,
                        ..a
                    }),
                ) && final(self).player_history@ == pruned(
                    hist + trace.map_values(
                        |p: (u32, u32)| PlayerSnapshot { position: Vec2Bits::from_bits(p) },
                    ),
                    SNAPSHOT_HISTORY_LIMIT as int,
                ))
            }),
            (final(self).instance.actors@, final(self).player_history@) == owned_step(
                old(self).instance.actors@,
                old(self).player_history@,
                old(self).local_player,
                old(self).input_buffer.buffer@,
                old(self).instance.physics.world,
                *owned,
                dt_bits,
            ),
            final(self).instance.actors@.len() == old(self).instance.actors@.len(),
            final(self).instance.tick == old(self).instance.tick,
            final(self).instance.id == old(self).instance.id,
            final(self).instance.physics == old(self).instance.physics,
            final(self).state == old(self).state,
            final(self).local_player == old(self).local_player,
            final(self).input_buffer == old(self).input_buffer,
    {
        let (_, handle) = match self.local_player {
            Some(lp) => lp,
            None => {
                return false;
            },
        };
        if handle >= self.instance.actors.len() {
            return false;
        }
        let actor = self.instance.actors[handle];
        if !actor.alive || !actor.is_local {
            return false;
        }
        if actor.net_obj != owned.net_obj {
            return false;
        }
        let mut tracker = match actor.sync_tracker {
            Some(t) => t,
            None => {
                return false;
            },
        };
        if !tracker.should_update(owned.tick) {
            return false;
        }
        self.instance.actors.set(handle, Actor { sync_tracker: Some(tracker), ..actor });
        let mut inputs = self.input_buffer.get_after(owned.last_input_order);
        inputs.pop();
        proof {
            assert(inputs@ =~= unacked_inputs(
                self.input_buffer.buffer@,
                owned.last_input_order,
            ));
        }
        if inputs.len() == 0 {
            return false;
        }
        let depth = inputs.len();
        let should_reconcile = match self.player_history.get_nth_latest(depth) {
            Some(snapshot) => snapshot.is_different(owned),
            None => false,
        };
        if !should_reconcile {
            return false;
        }
        let snapshots = self.instance.check_and_rollback(handle, owned, dt_bits, &inputs);
        let ghost trace = replay_bits(
            old(self).instance.physics.world,
            owned.position.bits(),
            inputs@,
            actor.col,
            actor.rb,
            dt_bits,
        );
        let ghost hist0 = self.player_history@;
        let ghost inst_after = self.instance;
        let n = snapshots.len();
        let mut i: usize = 0;
        proof {
            crate::player::lemma_replay_len(
                old(self).instance.physics.world,
                owned.position.bits(),
                inputs@,
                actor.col,
                actor.rb,
                dt_bits,
            );
            assert(snapshots@.map_values(|v: Vec2Bits| v.bits()) == trace);
        }
        while i < n
            invariant
                n == snapshots@.len(),
                i <= n,
                snapshots@.map_values(|v: Vec2Bits| v.bits()) == trace,
                i == 0 ==> self.player_history@ == hist0,
                i > 0 ==> self.player_history@ == pruned(
                    hist0 + trace.map_values(
                        |p: (u32, u32)| PlayerSnapshot { position: Vec2Bits::from_bits(p) },
                    ).take(i as int),
                    SNAPSHOT_HISTORY_LIMIT as int,
                ),
                self.instance == inst_after,
                self.state == old(self).state,
                self.local_player == old(self).local_player,
                self.input_buffer == old(self).input_buffer,
            decreases n - i,
        {
            let snap = snapshots[i];
            self.player_history.push(PlayerSnapshot { position: snap });
            self.player_history.prune(SNAPSHOT_HISTORY_LIMIT);
            proof {
                let smap = trace.map_values(
                    |p: (u32, u32)| PlayerSnapshot { position: Vec2Bits::from_bits(p) },
                );
                assert(smap[i as int] == (PlayerSnapshot { position: snap }));
                if i > 0 {
                    lemma_prune_fold(
                        hist0 + smap.take(i as int),
                        PlayerSnapshot { position: snap },
                        SNAPSHOT_HISTORY_LIMIT as int,
                    );
                }
                assert((hist0 + smap.take(i as int)).push(
                    PlayerSnapshot { position: snap },
                ) =~= hist0 + smap.take(i + 1));
            }
            i = i + 1;
        }
        proof {
            assert(trace.map_values(
                |p: (u32, u32)| PlayerSnapshot { position: Vec2Bits::from_bits(p) },
            ).take(n as int) =~= trace.map_values(
                |p: (u32, u32)| PlayerSnapshot { position: Vec2Bits::from_bits(p) },
            ));
            assert(self.instance.actors@ =~= old(self).instance.actors@.update(
                handle as int,
                (Actor {
                    position: Vec2Bits::from_bits(trace[trace.len() - 1]),
                    sync_tracker: Some(tracker),
                    ..actor
                }),
            ));
        }
        true
    }
}

impl InstanceData {
    /// The predicted position of the local actor, for presentation.
    pub fn get_current_player_position(&self) -> (r: Option<Vec2Bits>)
        ensures
            r == (match self.local_player {
                Some(lp) => if lp.1 < self.instance.actors@.len() && self.instance.actors@[lp.1 as int].alive {
                    Some(self.instance.actors@[lp.1 as int].position)
                } else {
                    None::<Vec2Bits>
                },
                None => None::<Vec2Bits>,
            }),
    {
        match self.local_player {
            Some((_, handle)) => {
                if handle < self.instance.actors.len() {
                    let actor = &self.instance.actors[handle];
                    if actor.alive {
                        Some(actor.position)
                    } else {
                        None
                    }
                } else {
                    None
                }
            },
            None => None,
        }
    }

    /// Predicts the current step: the single most recent buffered input is
    /// applied to the local actor and the reached position is recorded as a
    /// fresh snapshot, the history pruned to its bound. Without a local
    /// actor or a buffered input, nothing happens.
    pub fn predict_movement(&mut self, dt_bits: u32)
        ensures
            (final(self).instance.actors@, final(self).player_history@) == predict_step(
                old(self).instance.actors@,
                old(self).player_history@,
                old(self).local_player,
                old(self).input_buffer.buffer@,
                old(self).instance.physics.world,
                dt_bits,
            ),
            ({
                let buf = old(self).input_buffer.buffer@;
                let unchanged = final(self).instance.actors@ == old(self).instance.actors@
                    && final(self).player_history@ == old(self).player_history@;
                match old(self).local_player {
                    Some(lp) => {
                        let h = lp.1 as int;
                        if buf.len() == 0 {
                            unchanged
                        } else if h < old(self).instance.actors@.len() && old(
                            self,
                        ).instance.actors@[h].alive {
                            let a = old(self).instance.actors@[h];
                            let new_pos = Vec2Bits::from_bits(
                                crate::player::apply_input_bits(
                                    old(self).instance.physics.world,
                                    a.position.bits(),
                                    buf.last().input.move_direction.bits(),
                                    a.col,
                                    a.rb,
                                    dt_bits,
                                ),
                            );
                            &&& final(self).instance.actors@ == old(
                                self,
                            ).instance.actors@.update(h, (Actor { position: new_pos, ..a }))
                            &&& final(self).player_history@ == pruned(
                                old(self).player_history@.push(
                                    PlayerSnapshot { position: new_pos },
                                ),
                                SNAPSHOT_HISTORY_LIMIT as int,
                            )
                        } else {
                            unchanged
                        }
                    },
                    None => unchanged,
                }
            }),
            final(self).instance.tick == old(self).instance.tick,
            final(self).instance.id == old(self).instance.id,
            final(self).instance.physics == old(self).instance.physics,
            final(self).instance.actors@.len() == old(self).instance.actors@.len(),
            final(self).state == old(self).state,
            final(self).local_player == old(self).local_player,
            final(self).input_buffer == old(self).input_buffer,
    {
        let (_, handle) = match self.local_player {
            Some(lp) => lp,
            None => {
                return ;
            },
        };
        let latest = match self.input_buffer.get_latest() {
            Some(input) => *input,
            None => {
                return ;
            },
        };
        match self.instance.apply_input(handle, &latest.input, dt_bits) {
            Some(new_position) => {
                self.player_history.push(PlayerSnapshot { position: new_position });
                self.player_history.prune(SNAPSHOT_HISTORY_LIMIT);
            },
            None => {},
        }
    }

    /// In steady state, every tick correlation received this step re-derives
    /// the working tick; the last one wins. Outside steady state they are
    /// left alone (the loading handshake consumes them instead).
    pub fn recv_tick_update(&mut self, reliable: &Vec<ReliableMessageFromServer>, now_millis: u128)
        ensures
            old(self).state is Done ==> ({
                &&& final(self).instance.tick == (match last_tick_sync(reliable@) {
                    Some(ts) => Tick(client_tick_value(ts.tick, ts.unix_millis, now_millis)),
                    None => old(self).instance.tick,
                })
                &&& final(self).instance.actors@ == old(self).instance.actors@
                &&& final(self).instance.id == old(self).instance.id
                &&& final(self).instance.physics == old(self).instance.physics
                &&& final(self).state == old(self).state
                &&& final(self).local_player == old(self).local_player
                &&& final(self).input_buffer == old(self).input_buffer
                &&& final(self).player_history == old(self).player_history
            }),
            !(old(self).state is Done) ==> *final(self) == *old(self),
    {
        match self.state {
            InstanceState::Done => {
                let n = reliable.len();
                let mut i: usize = 0;
                proof {
                    assert(reliable@.take(0) =~= Seq::<ReliableMessageFromServer>::empty());
                }
                while i < n
                    invariant
                        n == reliable@.len(),
                        i <= n,
                        self.instance.tick == (match last_tick_sync(reliable@.take(i as int)) {
                            Some(ts) => Tick(
                                client_tick_value(ts.tick, ts.unix_millis, now_millis),
                            ),
                            None => old(self).instance.tick,
                        }),
                        self.instance.actors@ == old(self).instance.actors@,
                        self.instance.id == old(self).instance.id,
                        self.instance.physics == old(self).instance.physics,
                        self.state == old(self).state,
                        self.local_player == old(self).local_player,
                        self.input_buffer == old(self).input_buffer,
                        self.player_history == old(self).player_history,
                    decreases n - i,
                {
                    let message = reliable[i];
                    match message {
                        ReliableMessageFromServer::TickSync(sync) => {
                            let next_tick = client_tick_from(
                                sync.tick,
                                sync.unix_millis,
                                now_millis,
                            );
                            self.instance.set_tick(next_tick);
                        },
                        _ => {},
                    }
                    proof {
                        assert(reliable@.take(i + 1).drop_last() =~= reliable@.take(i as int));
                        assert(reliable@.take(i + 1).last() == reliable@[i as int]);
                    }
                    i = i + 1;
                }
                proof {
                    assert(reliable@.take(n as int) =~= reliable@);
                }
            },
            _ => {},
        }
    }

    /// Consumes this step's unreliable state replication: position syncs
    /// for non-local actors, and the authoritative sync for the local one,
    /// each guarded by its monotonic-tick tracker. However many arrive, the
    /// snapshot history never grows past its bound beyond where it started.
    pub fn recv_position_sync(&mut self, unreliable: &Vec<UnreliableMessageFromServer>, dt_bits: u32)
        ensures
            (final(self).instance.actors@, final(self).player_history@) == unreliable_fold(
                old(self).instance.actors@,
                old(self).player_history@,
                old(self).local_player,
                old(self).input_buffer.buffer@,
                old(self).instance.physics.world,
                unreliable@,
                dt_bits,
            ),
            final(self).instance.actors@.len() == old(self).instance.actors@.len(),
            final(self).instance.tick == old(self).instance.tick,
            final(self).instance.id == old(self).instance.id,
            final(self).instance.physics == old(self).instance.physics,
            final(self).state == old(self).state,
            final(self).local_player == old(self).local_player,
            final(self).input_buffer == old(self).input_buffer,
            final(self).player_history@.len() <= old(self).player_history@.len()
                || final(self).player_history@.len() <= SNAPSHOT_HISTORY_LIMIT,
    {
        let n = unreliable.len();
        let mut i: usize = 0;
        proof {
            assert(unreliable@.skip(0) =~= unreliable@);
        }
        while i < n
            invariant
                n == unreliable@.len(),
                i <= n,
                unreliable_fold(
                    self.instance.actors@,
                    self.player_history@,
                    self.local_player,
                    self.input_buffer.buffer@,
                    self.instance.physics.world,
                    unreliable@.skip(i as int),
                    dt_bits,
                ) == unreliable_fold(
                    old(self).instance.actors@,
                    old(self).player_history@,
                    old(self).local_player,
                    old(self).input_buffer.buffer@,
                    old(self).instance.physics.world,
                    unreliable@,
                    dt_bits,
                ),
                self.instance.actors@.len() == old(self).instance.actors@.len(),
                self.instance.tick == old(self).instance.tick,
                self.instance.id == old(self).instance.id,
                self.instance.physics == old(self).instance.physics,
                self.state == old(self).state,
                self.local_player == old(self).local_player,
                self.input_buffer == old(self).input_buffer,
                self.player_history@.len() <= old(self).player_history@.len()
                    || self.player_history@.len() <= SNAPSHOT_HISTORY_LIMIT,
            decreases n - i,
        {
            proof {
                assert(unreliable@.skip(i as int)[0] == unreliable@[i as int]);
                assert(unreliable@.skip(i as int).skip(1) =~= unreliable@.skip(i + 1));
            }
            let message = unreliable[i];
            match message {
                UnreliableMessageFromServer::PlayerPositionSync(position_sync) => {
                    self.sync_nonlocal(&position_sync);
                },
                UnreliableMessageFromServer::OwnedPlayerSync(owned_player_sync) => {
                    self.recv_owned_player_sync(&owned_player_sync, dt_bits);
                },
            }
            i = i + 1;
        }
        proof {
            assert(unreliable@.skip(n as int).len() == 0);
        }
    }

    /// One client fixed step. The working tick advances (and re-syncs on a
    /// received correlation in steady state); then the lifecycle runs:
    /// `Connecting` loads locally and unconditionally becomes
    /// `LocalLoaded`; `LocalLoaded` waits for the transport, sends
    /// `Connected` and becomes `LoadRemote`; `LoadRemote` consumes
    /// `PlayerInit` (spawning the local predicted actor) and `TickSync`
    /// (initializing the tick estimate), and once both were observed sends
    /// `ReadyForUpdates` and becomes `Done`; in `Done` the step samples and
    /// sends the local intent, applies remote spawns and state syncs, and
    /// predicts the current step.
    /// One steady-state step: samples and sends the local intent, applies
    /// remote spawns, consumes the state replication, and predicts the
    /// current step, in that order, against one collision world reading.
    pub fn step_active(
        &mut self,
        reliable: &Vec<ReliableMessageFromServer>,
        unreliable: &Vec<UnreliableMessageFromServer>,
        direction: Vec2Bits,
        dt_bits: u32,
    ) -> (out: ClientStepOutput)
        requires
            old(self).input_buffer.wf(),
            old(self).input_buffer.count < u64::MAX,
        ensures
            final(self).input_buffer.wf(),
            final(self).state == old(self).state,
            final(self).instance.tick == old(self).instance.tick,
            final(self).instance.id == old(self).instance.id,
            final(self).local_player == old(self).local_player,
            ({
                let dir = if direction == spec_zero_vec() {
                    spec_zero_vec()
                } else {
                    Vec2Bits::from_bits(unit_bits(direction.bits()))
                };
                let entry = OrderedInput {
                    input: PlayerInput { move_direction: dir },
                    order: (old(self).input_buffer.count + 1) as u64,
                };
                &&& out.reliable@.len() == 0
                &&& out.unreliable@ == seq![UnreliableMessageFromClient::Input(entry)]
                &&& final(self).input_buffer.count == old(self).input_buffer.count + 1
                &&& final(self).input_buffer.buffer@ == old(self).input_buffer.buffer@.push(
                    entry,
                )
            }),
            exists|mid: Seq<Actor>, w: rapier2d::pipeline::PhysicsWorld|
                #[trigger] done_step_rel(
                    old(self).instance.actors@,
                    old(self).player_history@,
                    old(self).local_player,
                    old(self).input_buffer.buffer@,
                    direction,
                    old(self).input_buffer.count,
                    mid,
                    w,
                    reliable@,
                    unreliable@,
                    dt_bits,
                    final(self).instance.actors@,
                    final(self).player_history@,
                ),
    {
        let mut out = ClientStepOutput { reliable: Vec::new(), unreliable: Vec::new() };

        let input_message = self.read_input(direction);
        out.unreliable.push(input_message);

        self.spawn(reliable);
        let ghost mid_actors = self.instance.actors@;
        let ghost mid_world = self.instance.physics.world;

        self.recv_position_sync(unreliable, dt_bits);

        self.predict_movement(dt_bits);

        self.instance.update();

        proof {
            let lpobjg = (match old(self).local_player {
                Some(lp) => Some(lp.0),
                None => None::<NetworkObject>,
            });
            let dirg = if direction == spec_zero_vec() {
                spec_zero_vec()
            } else {
                Vec2Bits::from_bits(unit_bits(direction.bits()))
            };
            let entryg = OrderedInput {
                input: PlayerInput { move_direction: dirg },
                order: (old(self).input_buffer.count + 1) as u64,
            };
            let buffer1 = old(self).input_buffer.buffer@.push(entryg);
            let synced = unreliable_fold(
                mid_actors,
                old(self).player_history@,
                old(self).local_player,
                buffer1,
                mid_world,
                unreliable@,
                dt_bits,
            );
            let predicted = predict_step(
                synced.0,
                synced.1,
                old(self).local_player,
                buffer1,
                mid_world,
                dt_bits,
            );
            assert(self.input_buffer.buffer@ == buffer1);
            assert(out.unreliable@ =~= seq![UnreliableMessageFromClient::Input(entryg)]);
            assert(spawn_rel(old(self).instance.actors@, mid_actors, reliable@, lpobjg));
            assert(self.instance.actors@ == predicted.0);
            assert(self.player_history@ == predicted.1);
            assert(done_step_rel(
                old(self).instance.actors@,
                old(self).player_history@,
                old(self).local_player,
                old(self).input_buffer.buffer@,
                direction,
                old(self).input_buffer.count,
                mid_actors,
                mid_world,
                reliable@,
                unreliable@,
                dt_bits,
                self.instance.actors@,
                self.player_history@,
            ));
        }

        out
    }

    #[verifier::rlimit(60)]
    #[verifier::spinoff_prover]
    pub fn update(
        &mut self,
        connected: bool,
        reliable: &Vec<ReliableMessageFromServer>,
        unreliable: &Vec<UnreliableMessageFromServer>,
        direction: Vec2Bits,
        now_millis: u128,
        dt_bits: u32,
    ) -> (out: ClientStepOutput)
        requires
            old(self).instance.tick.0 < u64::MAX,
            old(self).input_buffer.wf(),
            old(self).input_buffer.count < u64::MAX,
        ensures
            final(self).input_buffer.wf(),
            final(self).instance.id == old(self).instance.id,
            match old(self).state {
                InstanceState::Connecting => {
                    &&& final(self).state is LocalLoaded
                    &&& out.reliable@.len() == 0
                    &&& out.unreliable@.len() == 0
                    &&& final(self).instance.tick.0 == old(self).instance.tick.0 + 1
                    &&& final(self).instance.actors@ == old(self).instance.actors@
                    &&& final(self).local_player == old(self).local_player
                    &&& final(self).input_buffer == old(self).input_buffer
                    &&& final(self).player_history == old(self).player_history
                },
                InstanceState::LocalLoaded => {
                    &&& final(self).state == (if connected {
                        InstanceState::LoadRemote(
                            LoadRemoteState { set_player_obj: false, tick: false },
                        )
                    } else {
                        InstanceState::LocalLoaded
                    })
                    &&& out.reliable@ == (if connected {
                        seq![ReliableMessageFromClient::Connected]
                    } else {
                        Seq::<ReliableMessageFromClient>::empty()
                    })
                    &&& out.unreliable@.len() == 0
                    &&& final(self).instance.tick.0 == old(self).instance.tick.0 + 1
                    &&& final(self).instance.actors@ == old(self).instance.actors@
                    &&& final(self).local_player == old(self).local_player
                    &&& final(self).input_buffer == old(self).input_buffer
                    &&& final(self).player_history == old(self).player_history
                },
                InstanceState::LoadRemote(st) => ({
                    let flags = flags_after(st, reliable@);
                    &&& final(self).state == (if flags.set_player_obj && flags.tick {
                        InstanceState::Done
                    } else {
                        InstanceState::LoadRemote(flags)
                    })
                    &&& out.reliable@ == (if flags.set_player_obj && flags.tick {
                        seq![ReliableMessageFromClient::ReadyForUpdates]
                    } else {
                        Seq::<ReliableMessageFromClient>::empty()
                    })
                    &&& out.unreliable@.len() == 0
                    &&& final(self).instance.tick == (match last_tick_sync(reliable@) {
                        Some(ts) => Tick(client_tick_value(ts.tick, ts.unix_millis, now_millis)),
                        None => Tick((old(self).instance.tick.0 + 1) as u64),
                    })
                    &&& final(self).instance.actors@.len() >= old(self).instance.actors@.len()
                    &&& ((forall|j: int|
                        0 <= j < reliable@.len() ==> !((#[trigger] reliable@[j]) is PlayerInit))
                        ==> final(self).local_player == old(self).local_player)
                    &&& ((exists|j: int|
                        0 <= j < reliable@.len() && (#[trigger] reliable@[j]) is PlayerInit)
                        ==> final(self).local_player is Some)
                    &&& final(self).input_buffer == old(self).input_buffer
                    &&& final(self).player_history == old(self).player_history
                }),
                InstanceState::Done => ({
                    let dir = if direction == spec_zero_vec() {
                        spec_zero_vec()
                    } else {
                        Vec2Bits::from_bits(unit_bits(direction.bits()))
                    };
                    let entry = OrderedInput {
                        input: PlayerInput { move_direction: dir },
                        order: (old(self).input_buffer.count + 1) as u64,
                    };
                    let lpobj = (match old(self).local_player {
                        Some(lp) => Some(lp.0),
                        None => None::<NetworkObject>,
                    });
                    &&& final(self).state is Done
                    &&& out.reliable@.len() == 0
                    &&& out.unreliable@ == seq![UnreliableMessageFromClient::Input(entry)]
                    &&& final(self).input_buffer.count == old(self).input_buffer.count + 1
                    &&& final(self).input_buffer.buffer@ == old(self).input_buffer.buffer@.push(
                        entry,
                    )
                    &&& final(self).local_player == old(self).local_player
                    &&& final(self).instance.tick == (match last_tick_sync(reliable@) {
                        Some(ts) => Tick(client_tick_value(ts.tick, ts.unix_millis, now_millis)),
                        None => Tick((old(self).instance.tick.0 + 1) as u64),
                    })
                    &&& (exists|mid: Seq<Actor>, w: rapier2d::pipeline::PhysicsWorld|
                        #[trigger] done_step_rel(
                            old(self).instance.actors@,
                            old(self).player_history@,
                            old(self).local_player,
                            old(self).input_buffer.buffer@,
                            direction,
                            old(self).input_buffer.count,
                            mid,
                            w,
                            reliable@,
                            unreliable@,
                            dt_bits,
                            final(self).instance.actors@,
                            final(self).player_history@,
                        ))
                }),
            },
    {
        let mut out = ClientStepOutput { reliable: Vec::new(), unreliable: Vec::new() };

        self.instance.update_tick();
        self.recv_tick_update(reliable, now_millis);

        match self.state {
            InstanceState::Connecting => {
                // Local setup happens outside; the transition is
                // unconditional.
                self.state = InstanceState::LocalLoaded;
            },
            InstanceState::LocalLoaded => {
                if connected {
                    out.reliable.push(ReliableMessageFromClient::Connected);
                    self.state = InstanceState::LoadRemote(LoadRemoteState::new());
                }
            },
            InstanceState::LoadRemote(st) => {
                let mut flags = st;
                let n = reliable.len();
                let mut i: usize = 0;
                proof {
                    assert(reliable@.take(0) =~= Seq::<ReliableMessageFromServer>::empty());
                }
                while i < n
                    invariant
                        n == reliable@.len(),
                        i <= n,
                        old(self).state == InstanceState::LoadRemote(st),
                        flags == flags_after(st, reliable@.take(i as int)),
                        self.state == old(self).state,
                        self.instance.id == old(self).instance.id,
                        self.instance.actors@.len() >= old(self).instance.actors@.len(),
                        self.instance.tick == (match last_tick_sync(reliable@.take(i as int)) {
                            Some(ts) => Tick(
                                client_tick_value(ts.tick, ts.unix_millis, now_millis),
                            ),
                            None => Tick((old(self).instance.tick.0 + 1) as u64),
                        }),
                        (forall|j: int|
                            0 <= j < i ==> !((#[trigger] reliable@[j]) is PlayerInit))
                            ==> self.local_player == old(self).local_player,
                        (exists|j: int|
                            0 <= j < i && (#[trigger] reliable@[j]) is PlayerInit)
                            ==> self.local_player is Some,
                        self.input_buffer == old(self).input_buffer,
                        self.player_history == old(self).player_history,
                        old(self).instance.tick.0 < u64::MAX,
                    decreases n - i,
                {
                    let message = reliable[i];
                    match message {
                        ReliableMessageFromServer::PlayerInit(player_info) => {
                            let entity = self.instance.spawn_player(
                                true,
                                player_info.position,
                                player_info.net_obj,
                                Some(player_info.tick),
                            );
                            self.local_player = Some((player_info.net_obj, entity));
                            flags = LoadRemoteState { set_player_obj: true, ..flags };
                        },
                        ReliableMessageFromServer::TickSync(tick_sync) => {
                            let tick = client_tick_from(
                                tick_sync.tick,
                                tick_sync.unix_millis,
                                now_millis,
                            );
                            self.instance.set_tick(tick);
                            flags = LoadRemoteState { tick: true, ..flags };
                        },
                        _ => {},
                    }
                    proof {
                        assert(reliable@.take(i + 1).drop_last() =~= reliable@.take(i as int));
                        assert(reliable@.take(i + 1).last() == reliable@[i as int]);
                    }
                    i = i + 1;
                }
                proof {
                    assert(reliable@.take(n as int) =~= reliable@);
                }
                if flags.all() {
                    out.reliable.push(ReliableMessageFromClient::ReadyForUpdates);
                    self.state = InstanceState::Done;
                } else {
                    self.state = InstanceState::LoadRemote(flags);
                }
            },
            InstanceState::Done => {
                let active_out = self.step_active(reliable, unreliable, direction, dt_bits);
                return active_out;
            },
        }

        self.instance.update();

        out
    }
}

} // verus!
