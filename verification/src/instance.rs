//! One isolated simulation ("world"): a dense arena of actor records keyed
//! by a stable integer handle, the authoritative tick, and the collision
//! world. Positions are mutated only by the movement resolver or by a
//! reconciliation reset.

use vstd::prelude::*;

use crate::message::OrderedInput;
use crate::message::OwnedPlayerSync;
use crate::message::PlayerInput;
use crate::net_obj::LastSyncTracker;
use crate::net_obj::NetworkObject;
use crate::physics::Physics;
use crate::physics::body_positions;
use crate::physics::world_bodies;
use crate::player::apply_input;
use crate::player::apply_input_bits;
use crate::player::lemma_replay_take_step;
use crate::player::replay_bits;
use crate::tick::Tick;
use crate::vec2::Vec2Bits;

verus! {

/// Bit pattern of the radius of a player's ball collider (50.0 units).
pub const PLAYER_RADIUS_BITS: u32 = 0x42480000;

/// The order of the last input applied to an actor by the simulation.
#[derive(Debug, Clone, Copy, PartialEq, Eq, Structural)]
pub struct LastInputTracker {
    pub order: u64,
}

impl LastInputTracker {
    pub fn new(order: u64) -> (r: Self)
        ensures
            r.order == order,
    {
        LastInputTracker { order }
    }
}

impl Default for LastInputTracker {
    fn default() -> (r: Self)
        ensures
            r.order == 0,
    {
        LastInputTracker { order: 0 }
    }
}

/// One actor record: its stable identity, its authoritative position, the
/// handles of its collision body, and its replication guards. A despawned
/// actor keeps its slot, marked dead, so handles stay stable.
#[derive(Debug, Clone, Copy)]
pub struct Actor {
    pub alive: bool,
    pub is_local: bool,
    pub position: Vec2Bits,
    pub net_obj: NetworkObject,
    pub last_input: LastInputTracker,
    pub rb: (u32, u32),
    pub col: (u32, u32),
    pub sync_tracker: Option<LastSyncTracker>,
}

/// The first input in `inputs` addressed to `obj`, if any.
pub open spec fn input_for(inputs: Seq<(NetworkObject, OrderedInput)>, obj: NetworkObject) -> Option<
    OrderedInput,
>
    decreases inputs.len(),
{
    if inputs.len() == 0 {
        None
    } else if inputs[0].0 == obj {
        Some(inputs[0].1)
    } else {
        input_for(inputs.skip(1), obj)
    }
}

/// Looks up the input addressed to `obj`.
pub fn lookup_input(inputs: &Vec<(NetworkObject, OrderedInput)>, obj: NetworkObject) -> (r: Option<
    OrderedInput,
>)
    ensures
        r == input_for(inputs@, obj),
{
    let n = inputs.len();
    let mut i: usize = 0;
    proof {
        assert(inputs@.skip(0) =~= inputs@);
    }
    while i < n
        invariant
            n == inputs@.len(),
            i <= n,
            input_for(inputs@, obj) == input_for(inputs@.skip(i as int), obj),
        decreases n - i,
    {
        let pair = inputs[i];
        proof {
            assert(inputs@.skip(i as int)[0] == inputs@[i as int]);
            assert(inputs@.skip(i as int).skip(1) =~= inputs@.skip(i + 1));
        }
        if pair.0 == obj {
            return Some(pair.1);
        }
        i = i + 1;
    }
    proof {
        assert(inputs@.skip(n as int).len() == 0);
    }
    None
}

/// One simulation instance: its identity, collision world, actor arena and
/// authoritative tick.
pub struct Instance {
    pub id: u128,
    pub physics: Physics,
    pub actors: Vec<Actor>,
    pub tick: Tick,
}

impl Instance {
    /// Every live actor's body is registered in the collision world, and no
    /// two live actors share one.
    pub open spec fn bodies_registered(&self) -> bool {
        &&& forall|i: int|
            0 <= i < self.actors@.len() && (#[trigger] self.actors@[i]).alive ==> world_bodies(
                self.physics.world,
            ).contains(self.actors@[i].rb)
        &&& forall|i: int, j: int|
            0 <= i < self.actors@.len() && 0 <= j < self.actors@.len() && i != j
                && (#[trigger] self.actors@[i]).alive && (#[trigger] self.actors@[j]).alive
                ==> self.actors@[i].rb != self.actors@[j].rb
    }

    pub fn new(id: u128) -> (r: Instance)
        ensures
            r.id == id,
            r.tick.0 == 0,
            r.actors@.len() == 0,
            world_bodies(r.physics.world) == Set::<(u32, u32)>::empty(),
            r.bodies_registered(),
    {
        Instance { id, physics: Physics::new(), actors: Vec::new(), tick: Tick::new(0) }
    }

    pub fn get_id(&self) -> (r: u128)
        ensures
            r == self.id,
    {
        self.id
    }

    pub fn get_tick(&self) -> (r: Tick)
        ensures
            r == self.tick,
    {
        self.tick
    }

    pub fn set_tick(&mut self, tick: Tick)
        ensures
            *final(self) == (Instance { tick, ..*old(self) }),
    {
        self.tick = tick;
    }

    /// Advances the authoritative tick by exactly one.
    pub fn update_tick(&mut self)
        requires
            old(self).tick.0 < u64::MAX,
        ensures
            *final(self) == (Instance { tick: Tick((old(self).tick.0 + 1) as u64), ..*old(self) }),
    {
        self.tick.increment();
    }

    /// The handle of the first live actor carrying `needle`, if any.
    pub fn find_network_object(&self, needle: NetworkObject) -> (r: Option<usize>)
        ensures
            match r {
                Some(i) => i < self.actors@.len() && self.actors@[i as int].alive
                    && self.actors@[i as int].net_obj == needle,
                None => forall|i: int|
                    0 <= i < self.actors@.len() ==> !((#[trigger] self.actors@[i]).alive
                        && self.actors@[i].net_obj == needle),
            },
    {
        let n = self.actors.len();
        let mut i: usize = 0;
        while i < n
            invariant
                n == self.actors@.len(),
                i <= n,
                forall|j: int|
                    0 <= j < i ==> !((#[trigger] self.actors@[j]).alive && self.actors@[j].net_obj
                        == needle),
            decreases n - i,
        {
            let actor = &self.actors[i];
            if actor.alive && actor.net_obj == needle {
                return Some(i);
            }
            i = i + 1;
        }
        None
    }

    /// Spawns a player actor at `position` with a fresh collision body and
    /// returns its stable handle. The new record is live, tracks no input
    /// yet, and guards replication with `tick` where one is given.
    pub fn spawn_player(
        &mut self,
        local_player: bool,
        position: Vec2Bits,
        net_obj: NetworkObject,
        tick: Option<Tick>,
    ) -> (handle: usize)
        ensures
            handle == old(self).actors@.len(),
            final(self).actors@.len() == old(self).actors@.len() + 1,
            final(self).actors@.subrange(0, old(self).actors@.len() as int) == old(self).actors@,
            ({
                let a = final(self).actors@[handle as int];
                &&& a.alive
                &&& a.is_local == local_player
                &&& a.position == position
                &&& a.net_obj == net_obj
                &&& a.last_input.order == 0
                &&& a.sync_tracker == (match tick {
                    Some(t) => Some(LastSyncTracker { last_tick: t }),
                    None => None,
                })
            }),
            final(self).id == old(self).id,
            final(self).tick == old(self).tick,
            world_bodies(final(self).physics.world) == world_bodies(old(self).physics.world).insert(
                final(self).actors@[handle as int].rb,
            ),
            !world_bodies(old(self).physics.world).contains(final(self).actors@[handle as int].rb),
            body_positions(final(self).physics.world) == body_positions(
                old(self).physics.world,
            ).insert(final(self).actors@[handle as int].rb, position.bits()),
            old(self).bodies_registered() ==> final(self).bodies_registered(),
    {
        let (rb, col) = self.physics.insert_ball_body(position, PLAYER_RADIUS_BITS);
        let sync_tracker = match tick {
            Some(t) => Some(LastSyncTracker::new(t)),
            None => None,
        };
        let handle = self.actors.len();
        self.actors.push(
            Actor {
                alive: true,
                is_local: local_player,
                position,
                net_obj,
                last_input: LastInputTracker::new(0),
                rb,
                col,
                sync_tracker,
            },
        );
        proof {
            assert(self.actors@.subrange(0, old(self).actors@.len() as int) =~= old(self).actors@);
            if old(self).bodies_registered() {
                assert forall|i: int|
                    0 <= i < self.actors@.len() && (#[trigger] self.actors@[i]).alive
                        implies world_bodies(self.physics.world).contains(self.actors@[i].rb) by {
                    if i < old(self).actors@.len() {
                        assert(self.actors@[i] == old(self).actors@[i]);
                    }
                }
                assert forall|i: int, j: int|
                    0 <= i < self.actors@.len() && 0 <= j < self.actors@.len() && i != j
                        && (#[trigger] self.actors@[i]).alive && (#[trigger] self.actors@[j]).alive
                        implies self.actors@[i].rb != self.actors@[j].rb by {
                    if i < old(self).actors@.len() && j < old(self).actors@.len() {
                        assert(self.actors@[i] == old(self).actors@[i]);
                        assert(self.actors@[j] == old(self).actors@[j]);
                    } else if i < old(self).actors@.len() {
                        assert(self.actors@[i] == old(self).actors@[i]);
                        assert(world_bodies(old(self).physics.world).contains(self.actors@[i].rb));
                    } else if j < old(self).actors@.len() {
                        assert(self.actors@[j] == old(self).actors@[j]);
                        assert(world_bodies(old(self).physics.world).contains(self.actors@[j].rb));
                    }
                }
            }
        }
        handle
    }

    /// Marks the actor dead and removes its collision body; the slot stays,
    /// so other handles remain valid. An invalid or dead handle is a no-op.
    pub fn despawn(&mut self, entity: usize)
        ensures
            final(self).actors@.len() == old(self).actors@.len(),
            entity < old(self).actors@.len() && old(self).actors@[entity as int].alive
                ==> final(self).actors@ == old(self).actors@.update(
                entity as int,
                Actor { alive: false, ..old(self).actors@[entity as int] },
            ),
            !(entity < old(self).actors@.len() && old(self).actors@[entity as int].alive)
                ==> final(self).actors@ == old(self).actors@,
            entity < old(self).actors@.len() && old(self).actors@[entity as int].alive
                ==> world_bodies(final(self).physics.world) == world_bodies(
                old(self).physics.world,
            ).remove(old(self).actors@[entity as int].rb),
            entity < old(self).actors@.len() && old(self).actors@[entity as int].alive
                ==> body_positions(final(self).physics.world) == body_positions(
                old(self).physics.world,
            ).remove(old(self).actors@[entity as int].rb),
            !(entity < old(self).actors@.len() && old(self).actors@[entity as int].alive)
                ==> final(self).physics == old(self).physics,
            final(self).id == old(self).id,
            final(self).tick == old(self).tick,
            old(self).bodies_registered() ==> final(self).bodies_registered(),
    {
        if entity >= self.actors.len() {
            return ;
        }
        let actor = self.actors[entity];
        if !actor.alive {
            return ;
        }
        self.physics.remove_body(actor.rb);
        self.actors.set(entity, Actor { alive: false, ..actor });
        proof {
            if old(self).bodies_registered() {
                assert forall|i: int|
                    0 <= i < self.actors@.len() && (#[trigger] self.actors@[i]).alive
                        implies world_bodies(self.physics.world).contains(self.actors@[i].rb) by {
                    assert(self.actors@[i] == old(self).actors@[i]);
                    assert(self.actors@[i].rb != old(self).actors@[entity as int].rb);
                }
            }
        }
    }

    /// Carries every live actor's authoritative position into the collision
    /// world and refreshes its query structures. The actor records, tick and
    /// identity are untouched.
    pub fn update(&mut self)
        ensures
            final(self).actors@ == old(self).actors@,
            final(self).id == old(self).id,
            final(self).tick == old(self).tick,
            world_bodies(final(self).physics.world) == world_bodies(old(self).physics.world),
            old(self).bodies_registered() ==> forall|i: int|
                0 <= i < old(self).actors@.len() && (#[trigger] old(self).actors@[i]).alive
                    ==> body_positions(final(self).physics.world)[old(self).actors@[i].rb] == old(
                    self,
                ).actors@[i].position.bits(),
    {
        let n = self.actors.len();
        let mut i: usize = 0;
        while i < n
            invariant
                n == self.actors@.len(),
                i <= n,
                self.actors@ == old(self).actors@,
                self.id == old(self).id,
                self.tick == old(self).tick,
                world_bodies(self.physics.world) == world_bodies(old(self).physics.world),
                old(self).bodies_registered() ==> forall|j: int|
                    0 <= j < i && (#[trigger] self.actors@[j]).alive ==> body_positions(
                        self.physics.world,
                    )[self.actors@[j].rb] == self.actors@[j].position.bits(),
            decreases n - i,
        {
            let actor = self.actors[i];
            if actor.alive {
                self.physics.set_body_position(actor.rb, actor.position);
            }
            i = i + 1;
        }
        self.physics.refresh();
    }

    /// Applies to every live actor the one pending input selected for it
    /// this step, recording the applied order; actors without a pending
    /// input are untouched.
    pub fn apply_inputs(&mut self, dt_bits: u32, net_obj_inputs: &Vec<(NetworkObject, OrderedInput)>)
        ensures
            final(self).actors@.len() == old(self).actors@.len(),
            forall|i: int|
                0 <= i < old(self).actors@.len() ==> {
                    let a = old(self).actors@[i];
                    #[trigger] final(self).actors@[i] == (match input_for(
                        net_obj_inputs@,
                        a.net_obj,
                    ) {
                        Some(input) => if a.alive {
                            Actor {
                                position: Vec2Bits::from_bits(
                                    apply_input_bits(
                                        old(self).physics.world,
                                        a.position.bits(),
                                        input.input.move_direction.bits(),
                                        a.col,
                                        a.rb,
                                        dt_bits,
                                    ),
                                ),
                                last_input: LastInputTracker { order: input.order },
                                ..a
                            }
                        } else {
                            a
                        },
                        None => a,
                    })
                },
            final(self).physics == old(self).physics,
            final(self).id == old(self).id,
            final(self).tick == old(self).tick,
    {
        let n = self.actors.len();
        let mut i: usize = 0;
        while i < n
            invariant
                n == self.actors@.len(),
                i <= n,
                self.actors@.len() == old(self).actors@.len(),
                self.physics == old(self).physics,
                self.id == old(self).id,
                self.tick == old(self).tick,
                forall|j: int| i <= j < n ==> #[trigger] self.actors@[j] == old(self).actors@[j],
                forall|j: int|
                    0 <= j < i ==> {
                        let a = old(self).actors@[j];
                        #[trigger] self.actors@[j] == (match input_for(
                            net_obj_inputs@,
                            a.net_obj,
                        ) {
                            Some(input) => if a.alive {
                                Actor {
                                    position: Vec2Bits::from_bits(
                                        apply_input_bits(
                                            old(self).physics.world,
                                            a.position.bits(),
                                            input.input.move_direction.bits(),
                                            a.col,
                                            a.rb,
                                            dt_bits,
                                        ),
                                    ),
                                    last_input: LastInputTracker { order: input.order },
                                    ..a
                                }
                            } else {
                                a
                            },
                            None => a,
                        })
                    },
            decreases n - i,
        {
            let actor = self.actors[i];
            if actor.alive {
                match lookup_input(net_obj_inputs, actor.net_obj) {
                    Some(input) => {
                        let mut position = actor.position;
                        apply_input(
                            &self.physics,
                            &mut position,
                            &input.input,
                            actor.col,
                            actor.rb,
                            dt_bits,
                        );
                        self.actors.set(
                            i,
                            Actor {
                                position,
                                last_input: LastInputTracker { order: input.order },
                                ..actor
                            },
                        );
                    },
                    None => {},
                }
            }
            i = i + 1;
        }
    }

    /// Resets the actor to the authoritative position and deterministically
    /// re-applies `inputs` in order, returning the position reached after
    /// each replayed input (for the caller to record as fresh snapshots).
    /// A dead or invalid handle is a no-op returning nothing.
    pub fn check_and_rollback(
        &mut self,
        player: usize,
        owned_player_sync: &OwnedPlayerSync,
        dt_bits: u32,
        inputs: &Vec<OrderedInput>,
    ) -> (snapshots: Vec<Vec2Bits>)
        ensures
            final(self).actors@.len() == old(self).actors@.len(),
            final(self).physics == old(self).physics,
            final(self).id == old(self).id,
            final(self).tick == old(self).tick,
            player < old(self).actors@.len() && old(self).actors@[player as int].alive ==> {
                let a = old(self).actors@[player as int];
                let trace = replay_bits(
                    old(self).physics.world,
                    owned_player_sync.position.bits(),
                    inputs@,
                    a.col,
                    a.rb,
                    dt_bits,
                );
                &&& snapshots@.map_values(|v: Vec2Bits| v.bits()) == trace
                &&& final(self).actors@ == old(self).actors@.update(
                    player as int,
                    Actor {
                        position: if inputs@.len() == 0 {
                            owned_player_sync.position
                        } else {
                            Vec2Bits::from_bits(trace[trace.len() - 1])
                        },
                        ..a
                    },
                )
            },
            !(player < old(self).actors@.len() && old(self).actors@[player as int].alive) ==> {
                &&& final(self).actors@ == old(self).actors@
                &&& snapshots@.len() == 0
            },
    {
        if player >= self.actors.len() {
            return Vec::new();
        }
        let actor = self.actors[player];
        if !actor.alive {
            return Vec::new();
        }
        let mut position = owned_player_sync.position;
        let mut snapshots: Vec<Vec2Bits> = Vec::new();
        let n = inputs.len();
        let mut i: usize = 0;
        while i < n
            invariant
                n == inputs@.len(),
                i <= n,
                self.actors@ == old(self).actors@,
                self.physics == old(self).physics,
                self.id == old(self).id,
                self.tick == old(self).tick,
                player < self.actors@.len(),
                actor == self.actors@[player as int],
                snapshots@.map_values(|v: Vec2Bits| v.bits()) == replay_bits(
                    self.physics.world,
                    owned_player_sync.position.bits(),
                    inputs@.take(i as int),
                    actor.col,
                    actor.rb,
                    dt_bits,
                ),
                position.bits() == (if i == 0 {
                    owned_player_sync.position.bits()
                } else {
                    snapshots@[i - 1].bits()
                }),
                snapshots@.len() == i,
            decreases n - i,
        {
            let input = inputs[i];
            apply_input(&self.physics, &mut position, &input.input, actor.col, actor.rb, dt_bits);
            snapshots.push(position);
            proof {
                lemma_replay_take_step(
                    self.physics.world,
                    owned_player_sync.position.bits(),
                    inputs@,
                    actor.col,
                    actor.rb,
                    dt_bits,
                    i as int,
                );
                assert(snapshots@.map_values(|v: Vec2Bits| v.bits()) =~= replay_bits(
                    self.physics.world,
                    owned_player_sync.position.bits(),
                    inputs@.take(i + 1),
                    actor.col,
                    actor.rb,
                    dt_bits,
                ));
            }
            i = i + 1;
        }
        proof {
            assert(inputs@.take(n as int) =~= inputs@);
        }
        self.actors.set(player, Actor { position, ..actor });
        snapshots
    }

    /// Applies one movement intent to the actor and returns the position it
    /// reached, or nothing for a dead or invalid handle.
    pub fn apply_input(&mut self, player: usize, input: &PlayerInput, dt_bits: u32) -> (r: Option<
        Vec2Bits,
    >)
        ensures
            final(self).actors@.len() == old(self).actors@.len(),
            final(self).physics == old(self).physics,
            final(self).id == old(self).id,
            final(self).tick == old(self).tick,
            player < old(self).actors@.len() && old(self).actors@[player as int].alive ==> {
                let a = old(self).actors@[player as int];
                let new_pos = Vec2Bits::from_bits(
                    apply_input_bits(
                        old(self).physics.world,
                        a.position.bits(),
                        input.move_direction.bits(),
                        a.col,
                        a.rb,
                        dt_bits,
                    ),
                );
                &&& r == Some(new_pos)
                &&& final(self).actors@ == old(self).actors@.update(
                    player as int,
                    Actor { position: new_pos, ..a },
                )
            },
            !(player < old(self).actors@.len() && old(self).actors@[player as int].alive) ==> {
                &&& r is None
                &&& final(self).actors@ == old(self).actors@
            },
    {
        if player >= self.actors.len() {
            return None;
        }
        let actor = self.actors[player];
        if !actor.alive {
            return None;
        }
        let mut position = actor.position;
        apply_input(&self.physics, &mut position, input, actor.col, actor.rb, dt_bits);
        self.actors.set(player, Actor { position, ..actor });
        Some(position)
    }
}

} // verus!
