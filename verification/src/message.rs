//! The logical message set exchanged between a simulation instance and its
//! clients, encoding-agnostic. Reliable messages carry handshake, lifecycle
//! and roster events; unreliable messages carry per-step inputs and state,
//! whose staleness is tolerated by tick comparison rather than by channel
//! guarantees.

use vstd::prelude::*;

use crate::net_obj::NetworkObject;
use crate::tick::Tick;
use crate::vec2::Vec2Bits;

verus! {

/// A movement intent sampled from the local player for one fixed step.
#[derive(Debug, Clone, Copy, PartialEq, Eq, Structural)]
pub struct PlayerInput {
    pub move_direction: Vec2Bits,
}

/// A movement intent stamped with its strictly increasing per-producer
/// sequence number.
#[derive(Debug, Clone, Copy, PartialEq, Eq, Structural)]
pub struct OrderedInput {
    pub input: PlayerInput,
    pub order: u64,
}

/// Periodic correlation of the authoritative tick with the server wall clock.
#[derive(Debug, Clone, Copy, PartialEq, Eq, Structural)]
pub struct TickSync {
    pub tick: u64,
    pub unix_millis: u128,
}

/// What kind of actor a spawn event materializes, with its initial state.
#[derive(Debug, Clone, Copy, PartialEq, Eq, Structural)]
pub enum NetworkSpawn {
    Player(Vec2Bits),
}

/// Roster event: an actor entered the instance.
#[derive(Debug, Clone, Copy, PartialEq, Eq, Structural)]
pub struct Spawn {
    pub net_obj: NetworkObject,
    pub net_spawn: NetworkSpawn,
    pub tick: Tick,
}

/// Handshake reply assigning the connecting client its own actor.
#[derive(Debug, Clone, Copy, PartialEq, Eq, Structural)]
pub struct PlayerInit {
    pub net_obj: NetworkObject,
    pub position: Vec2Bits,
    pub tick: Tick,
}

/// Reliable channel, server to client.
#[derive(Debug, Clone, Copy, PartialEq, Eq, Structural)]
pub enum ReliableMessageFromServer {
    InstanceId(u128),
    TickSync(TickSync),
    Spawn(Spawn),
    PlayerInit(PlayerInit),
    Despawn(NetworkObject),
}

/// Best-effort position replication for an actor the receiver does not own.
#[derive(Debug, Clone, Copy, PartialEq, Eq, Structural)]
pub struct PlayerPositionSync {
    pub net_obj: NetworkObject,
    pub position: Vec2Bits,
    pub tick: Tick,
}

/// Best-effort authoritative state for the receiver's own actor, carrying the
/// order of the last input the server applied to it.
#[derive(Debug, Clone, Copy, PartialEq, Eq, Structural)]
pub struct OwnedPlayerSync {
    pub net_obj: NetworkObject,
    pub position: Vec2Bits,
    pub tick: Tick,
    pub last_input_order: u64,
}

/// Unreliable channel, server to client.
#[derive(Debug, Clone, Copy, PartialEq, Eq, Structural)]
pub enum UnreliableMessageFromServer {
    PlayerPositionSync(PlayerPositionSync),
    OwnedPlayerSync(OwnedPlayerSync),
}

/// Reliable channel, client to server.
#[derive(Debug, Clone, Copy, PartialEq, Eq, Structural)]
pub enum ReliableMessageFromClient {
    Connected,
    ReadyForUpdates,
}

/// Unreliable channel, client to server.
#[derive(Debug, Clone, Copy, PartialEq, Eq, Structural)]
pub enum UnreliableMessageFromClient {
    Input(OrderedInput),
}

/// A reliable client message paired with the transport session it came from.
#[derive(Debug, Clone, Copy, PartialEq, Eq, Structural)]
pub struct ReliableMessageWithSender {
    pub client_id: u64,
    pub message: ReliableMessageFromClient,
}

/// An unreliable client message paired with the transport session it came
/// from.
#[derive(Debug, Clone, Copy, PartialEq, Eq, Structural)]
pub struct UnreliableMessageWithSender {
    pub client_id: u64,
    pub message: UnreliableMessageFromClient,
}

} // verus!
