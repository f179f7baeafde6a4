use netplay::buffer::PlayerSnapshot;
use netplay::client::InstanceData;
use netplay::client::InstanceState;
use netplay::instance::Instance;
use netplay::message::OrderedInput;
use netplay::message::OwnedPlayerSync;
use netplay::message::PlayerInit;
use netplay::message::PlayerInput;
use netplay::message::PlayerPositionSync;
use netplay::message::ReliableMessageFromClient;
use netplay::message::ReliableMessageFromServer;
use netplay::message::TickSync;
use netplay::message::UnreliableMessageFromClient;
use netplay::message::UnreliableMessageFromServer;
use netplay::net_obj::NetworkObject;
use netplay::server::Game;
use netplay::server::ClientInputs;
use netplay::server::OutgoingMessage;
use netplay::tick::Tick;
use netplay::vec2::Vec2Bits;

fn v(x: f32, y: f32) -> Vec2Bits {
    Vec2Bits { x: x.to_bits(), y: y.to_bits() }
}

fn dtb() -> u32 {
    0.016666666f32.to_bits()
}

fn input(x: f32, y: f32) -> PlayerInput {
    PlayerInput { move_direction: v(x, y) }
}

#[test]
fn movement_in_free_space_covers_the_full_displacement() {
    let mut instance = Instance::new(1);
    let handle = instance.spawn_player(true, v(100.0, 100.0), NetworkObject::Static(1), None);
    instance.update();
    let new_pos = instance.apply_input(handle, &input(1.0, 0.0), dtb()).unwrap();
    let dt = 0.016666666f32;
    let expected_x = 100.0f32 + (1.0f32 * 500.0f32) * dt;
    assert_eq!(new_pos.x, expected_x.to_bits());
    assert_eq!(new_pos.y, 100.0f32.to_bits());
    assert_eq!(instance.actors[handle].position.x, expected_x.to_bits());
}

#[test]
fn zero_direction_requests_no_movement() {
    let mut instance = Instance::new(1);
    let handle = instance.spawn_player(true, v(3.0, 4.0), NetworkObject::Static(1), None);
    instance.update();
    let new_pos = instance.apply_input(handle, &input(0.0, 0.0), dtb()).unwrap();
    assert_eq!(new_pos.x, 3.0f32.to_bits());
    assert_eq!(new_pos.y, 4.0f32.to_bits());
}

#[test]
fn movement_clamps_at_the_first_obstacle() {
    let mut instance = Instance::new(1);
    let mover = instance.spawn_player(true, v(0.0, 0.0), NetworkObject::Static(1), None);
    // A second ball of radius 50 at x = 105: the surfaces are 5 units
    // apart, less than the step's free displacement of ~8.33 units.
    instance.spawn_player(false, v(105.0, 0.0), NetworkObject::Static(2), None);
    instance.update();
    let new_pos = instance.apply_input(mover, &input(1.0, 0.0), dtb()).unwrap();
    let x = f32::from_bits(new_pos.x);
    let free = 500.0f32 * 0.016666666f32;
    assert!(x > 0.0, "movement should make some progress, got {x}");
    assert!(x < free, "movement should be clamped short of {free}, got {x}");
}

#[test]
fn replaying_identical_inputs_is_deterministic() {
    let mut instance = Instance::new(1);
    let handle = instance.spawn_player(true, v(0.0, 0.0), NetworkObject::Static(1), None);
    instance.spawn_player(false, v(105.0, 0.0), NetworkObject::Static(2), None);
    instance.update();
    let owned = OwnedPlayerSync {
        net_obj: NetworkObject::Static(1),
        position: v(0.0, 0.0),
        tick: Tick::new(1),
        last_input_order: 0,
    };
    let inputs = vec![
        OrderedInput { input: input(1.0, 0.0), order: 1 },
        OrderedInput { input: input(0.0, 1.0), order: 2 },
        OrderedInput { input: input(1.0, 0.0), order: 3 },
    ];
    let first = instance.check_and_rollback(handle, &owned, dtb(), &inputs);
    let second = instance.check_and_rollback(handle, &owned, dtb(), &inputs);
    assert_eq!(first.len(), 3);
    assert_eq!(first, second);
}

#[test]
fn reconciliation_fires_and_replays_unacknowledged_inputs() {
    let mut data = InstanceData::new(Instance::new(7));
    let obj = NetworkObject::Static(5);
    let handle = data.instance.spawn_player(true, v(10.0, 10.0), obj, Some(Tick::new(0)));
    data.local_player = Some((obj, handle));
    // Orders 1..=8 are buffered; 8 is the most recently sent.
    for _ in 0..8 {
        data.input_buffer.push_input(input(0.0, 0.0));
    }
    for _ in 0..4 {
        data.player_history.push(PlayerSnapshot { position: v(10.0, 10.0) });
    }
    // The server acknowledged order 4, so orders 5, 6, 7 are the
    // un-acknowledged set (N = 3), and the snapshot recorded 3 steps back
    // sits 0.5 units from the authoritative position.
    let owned = OwnedPlayerSync {
        net_obj: obj,
        position: v(10.5, 10.0),
        tick: Tick::new(3),
        last_input_order: 4,
    };
    let reconciled = data.recv_owned_player_sync(&owned, dtb());
    assert!(reconciled);
    // The position reset to the authoritative value; the replayed inputs
    // were all zero intents, so it stays there, and three fresh snapshots
    // were recorded.
    assert_eq!(data.instance.actors[handle].position, v(10.5, 10.0));
    assert_eq!(data.player_history.len(), 7);
    assert_eq!(
        data.player_history.get_latest().unwrap().position,
        v(10.5, 10.0)
    );
    // The monotonic guard recorded the accepted tick.
    assert_eq!(
        data.instance.actors[handle].sync_tracker.unwrap().last_tick.0,
        3
    );
}

#[test]
fn reconciliation_skips_when_nothing_is_unacknowledged() {
    let mut data = InstanceData::new(Instance::new(7));
    let obj = NetworkObject::Static(5);
    let handle = data.instance.spawn_player(true, v(10.0, 10.0), obj, Some(Tick::new(0)));
    data.local_player = Some((obj, handle));
    for _ in 0..8 {
        data.input_buffer.push_input(input(0.0, 0.0));
    }
    for _ in 0..4 {
        data.player_history.push(PlayerSnapshot { position: v(10.0, 10.0) });
    }
    // The server acknowledged the most recent locally sent order (N = 0):
    // no reconciliation regardless of the positional difference.
    let owned = OwnedPlayerSync {
        net_obj: obj,
        position: v(900.0, 900.0),
        tick: Tick::new(3),
        last_input_order: 8,
    };
    let reconciled = data.recv_owned_player_sync(&owned, dtb());
    assert!(!reconciled);
    assert_eq!(data.instance.actors[handle].position, v(10.0, 10.0));
    assert_eq!(data.player_history.len(), 4);
    // The accepted tick still advanced the guard.
    assert_eq!(
        data.instance.actors[handle].sync_tracker.unwrap().last_tick.0,
        3
    );
}

#[test]
fn remote_spawns_materialize_and_local_echo_is_skipped() {
    let mut data = InstanceData::new(Instance::new(7));
    let local = NetworkObject::Static(5);
    let handle = data.instance.spawn_player(true, v(0.0, 0.0), local, Some(Tick::new(0)));
    data.local_player = Some((local, handle));
    let msgs = vec![
        ReliableMessageFromServer::Spawn(netplay::message::Spawn {
            net_obj: NetworkObject::Static(6),
            net_spawn: netplay::message::NetworkSpawn::Player(v(7.0, 8.0)),
            tick: Tick::new(12),
        }),
        // The roster echo of the local player is not materialized again.
        ReliableMessageFromServer::Spawn(netplay::message::Spawn {
            net_obj: local,
            net_spawn: netplay::message::NetworkSpawn::Player(v(0.0, 0.0)),
            tick: Tick::new(12),
        }),
    ];
    data.spawn(&msgs);
    assert_eq!(data.instance.actors.len(), 2);
    let added = data.instance.actors[1];
    assert!(added.alive && !added.is_local);
    assert_eq!(added.net_obj, NetworkObject::Static(6));
    assert_eq!(added.position, v(7.0, 8.0));
    assert_eq!(added.sync_tracker.unwrap().last_tick.0, 12);
}

#[test]
fn current_player_position_follows_the_local_actor() {
    let mut data = InstanceData::new(Instance::new(7));
    assert!(data.get_current_player_position().is_none());
    let obj = NetworkObject::Static(5);
    let handle = data.instance.spawn_player(true, v(2.0, 3.0), obj, None);
    data.local_player = Some((obj, handle));
    assert_eq!(data.get_current_player_position(), Some(v(2.0, 3.0)));
    data.instance.despawn(handle);
    assert!(data.get_current_player_position().is_none());
}

#[test]
fn stale_position_syncs_are_dropped() {
    let mut data = InstanceData::new(Instance::new(7));
    let obj = NetworkObject::Static(9);
    let handle = data.instance.spawn_player(false, v(0.0, 0.0), obj, Some(Tick::new(10)));
    data.sync_nonlocal(&PlayerPositionSync {
        net_obj: obj,
        position: v(1.0, 1.0),
        tick: Tick::new(11),
    });
    assert_eq!(data.instance.actors[handle].position, v(1.0, 1.0));
    // A duplicate or older tick falls through without effect.
    data.sync_nonlocal(&PlayerPositionSync {
        net_obj: obj,
        position: v(2.0, 2.0),
        tick: Tick::new(11),
    });
    assert_eq!(data.instance.actors[handle].position, v(1.0, 1.0));
}

#[test]
fn handshake_reaches_active_with_init_before_tick() {
    let mut data = InstanceData::new(Instance::new(1));
    let no_r: Vec<ReliableMessageFromServer> = Vec::new();
    let no_u: Vec<UnreliableMessageFromServer> = Vec::new();

    let out = data.update(false, &no_r, &no_u, v(0.0, 0.0), 0, dtb());
    assert!(matches!(data.state, InstanceState::LocalLoaded));
    assert!(out.reliable.is_empty());

    let out = data.update(true, &no_r, &no_u, v(0.0, 0.0), 0, dtb());
    assert!(matches!(data.state, InstanceState::LoadRemote(_)));
    assert!(matches!(out.reliable[0], ReliableMessageFromClient::Connected));

    let init = vec![ReliableMessageFromServer::PlayerInit(PlayerInit {
        net_obj: NetworkObject::Static(5),
        position: v(0.0, 0.0),
        tick: Tick::new(1),
    })];
    let out = data.update(true, &init, &no_u, v(0.0, 0.0), 0, dtb());
    assert!(matches!(data.state, InstanceState::LoadRemote(_)));
    assert!(out.reliable.is_empty());

    let sync = vec![ReliableMessageFromServer::TickSync(TickSync { tick: 100, unix_millis: 0 })];
    let out = data.update(true, &sync, &no_u, v(0.0, 0.0), 0, dtb());
    assert!(matches!(data.state, InstanceState::Done));
    assert!(matches!(
        out.reliable[0],
        ReliableMessageFromClient::ReadyForUpdates
    ));
}

#[test]
fn handshake_reaches_active_with_tick_before_init() {
    let mut data = InstanceData::new(Instance::new(1));
    let no_r: Vec<ReliableMessageFromServer> = Vec::new();
    let no_u: Vec<UnreliableMessageFromServer> = Vec::new();

    data.update(false, &no_r, &no_u, v(0.0, 0.0), 0, dtb());
    data.update(true, &no_r, &no_u, v(0.0, 0.0), 0, dtb());

    let sync = vec![ReliableMessageFromServer::TickSync(TickSync { tick: 100, unix_millis: 0 })];
    let out = data.update(true, &sync, &no_u, v(0.0, 0.0), 0, dtb());
    assert!(matches!(data.state, InstanceState::LoadRemote(_)));
    assert!(out.reliable.is_empty());

    let init = vec![ReliableMessageFromServer::PlayerInit(PlayerInit {
        net_obj: NetworkObject::Static(5),
        position: v(0.0, 0.0),
        tick: Tick::new(1),
    })];
    let out = data.update(true, &init, &no_u, v(0.0, 0.0), 0, dtb());
    assert!(matches!(data.state, InstanceState::Done));
    assert!(matches!(
        out.reliable[0],
        ReliableMessageFromClient::ReadyForUpdates
    ));
}

#[test]
fn steady_state_sends_one_input_per_step() {
    let mut data = InstanceData::new(Instance::new(1));
    let no_r: Vec<ReliableMessageFromServer> = Vec::new();
    let no_u: Vec<UnreliableMessageFromServer> = Vec::new();
    data.update(false, &no_r, &no_u, v(0.0, 0.0), 0, dtb());
    data.update(true, &no_r, &no_u, v(0.0, 0.0), 0, dtb());
    let both = vec![
        ReliableMessageFromServer::TickSync(TickSync { tick: 100, unix_millis: 0 }),
        ReliableMessageFromServer::PlayerInit(PlayerInit {
            net_obj: NetworkObject::Static(5),
            position: v(0.0, 0.0),
            tick: Tick::new(1),
        }),
    ];
    data.update(true, &both, &no_u, v(0.0, 0.0), 0, dtb());
    assert!(matches!(data.state, InstanceState::Done));

    let out = data.update(true, &no_r, &no_u, v(1.0, 0.0), 0, dtb());
    assert!(out.reliable.is_empty());
    assert_eq!(out.unreliable.len(), 1);
    match &out.unreliable[0] {
        UnreliableMessageFromClient::Input(oi) => {
            assert_eq!(oi.order, 1);
            assert_eq!(oi.input.move_direction, v(1.0, 0.0));
        }
    }
    // The prediction applied that input to the local actor.
    let (_, handle) = data.local_player.unwrap();
    let x = f32::from_bits(data.instance.actors[handle].position.x);
    let expected = (1.0f32 * 500.0) * 0.016666666f32;
    assert_eq!(x, expected);
    assert_eq!(data.player_history.len(), 1);
}

#[test]
fn input_selection_takes_the_smallest_order_first() {
    let mut inputs = ClientInputs::new();
    let obj = NetworkObject::Static(3);
    inputs.push_input(obj, OrderedInput { input: input(0.0, 0.0), order: 3 });
    inputs.push_input(obj, OrderedInput { input: input(0.0, 0.0), order: 1 });
    inputs.push_input(obj, OrderedInput { input: input(0.0, 0.0), order: 2 });
    let selected = inputs.pop_inputs();
    assert_eq!(selected.len(), 1);
    assert_eq!(selected[0].1.order, 1);
    assert_eq!(inputs.pop_inputs()[0].1.order, 2);
    assert_eq!(inputs.pop_inputs()[0].1.order, 3);
    assert!(inputs.pop_inputs().is_empty());
}

#[test]
fn full_input_queues_discard_new_arrivals() {
    let mut inputs = ClientInputs::new();
    let obj = NetworkObject::Static(3);
    for order in 1..=12u64 {
        inputs.push_input(obj, OrderedInput { input: input(0.0, 0.0), order });
    }
    // The queue is bounded at 10: the newest two were dropped, the oldest
    // intents kept.
    let mut seen = Vec::new();
    loop {
        let selected = inputs.pop_inputs();
        if selected.is_empty() {
            break;
        }
        seen.push(selected[0].1.order);
    }
    assert_eq!(seen, (1..=10u64).collect::<Vec<u64>>());
}

#[test]
fn connect_handshake_registers_and_answers_the_session() {
    let mut game = Game::new(1);
    game.handle_client_connected(42);
    let registered = game.handle_connected(42).unwrap();
    assert!(matches!(registered, NetworkObject::Dynamic(_)));
    assert_eq!(game.client_map.pairs.len(), 1);
    assert_eq!(game.player_spawn_requests.len(), 1);
    assert_eq!(game.outbox.len(), 2);
    assert!(matches!(
        &game.outbox[0],
        OutgoingMessage::ReliableTo(42, ReliableMessageFromServer::PlayerInit(_))
    ));
    assert!(matches!(
        &game.outbox[1],
        OutgoingMessage::ReliableTo(42, ReliableMessageFromServer::TickSync(_))
    ));
    // A second announcement from the same session is ignored.
    assert!(game.handle_connected(42).is_none());
    assert_eq!(game.client_map.pairs.len(), 1);
}

#[test]
fn ready_for_updates_receives_the_full_roster() {
    let mut game = Game::new(1);
    game.instance.spawn_player(false, v(1.0, 0.0), NetworkObject::Static(1), None);
    game.instance.spawn_player(false, v(2.0, 0.0), NetworkObject::Static(2), None);
    let before = game.outbox.len();
    game.handle_ready_for_updates(7);
    assert_eq!(game.outbox.len(), before + 2);
    for entry in &game.outbox[before..] {
        assert!(matches!(
            entry,
            OutgoingMessage::ReliableTo(7, ReliableMessageFromServer::Spawn(_))
        ));
    }
}

#[test]
fn server_step_applies_one_input_and_replicates_state() {
    let mut game = Game::new(1);
    game.handle_client_connected(42);
    game.queue_reliable(42, ReliableMessageFromClient::Connected);
    game.update(16_666_666, dtb());
    assert_eq!(game.instance.actors.len(), 1);
    assert!(game.instance.actors[0].alive);
    let obj = game.instance.actors[0].net_obj;

    game.queue_unreliable(
        42,
        UnreliableMessageFromClient::Input(OrderedInput { input: input(1.0, 0.0), order: 1 }),
    );
    game.outbox.clear();
    game.update(16_666_666, dtb());
    let x = f32::from_bits(game.instance.actors[0].position.x);
    assert_eq!(x, (1.0f32 * 500.0) * 0.016666666f32);
    assert_eq!(game.instance.actors[0].last_input.order, 1);
    let has_owned_sync = game.outbox.iter().any(|m| {
        matches!(
            m,
            OutgoingMessage::UnreliableTo(42, UnreliableMessageFromServer::OwnedPlayerSync(s))
                if s.net_obj == obj
        )
    });
    assert!(has_owned_sync);
}

#[test]
fn disconnect_removes_one_identity_and_broadcasts_one_despawn() {
    let mut game = Game::new(1);
    game.handle_client_connected(42);
    game.queue_reliable(42, ReliableMessageFromClient::Connected);
    game.update(16_666_666, dtb());
    let obj = game.instance.actors[0].net_obj;
    let before = game.outbox.len();

    game.handle_client_disconnected(42);

    assert_eq!(game.client_map.pairs.len(), 0);
    assert!(!game.instance.actors[0].alive);
    let despawns: Vec<&OutgoingMessage> = game.outbox[before..]
        .iter()
        .filter(|m| {
            matches!(
                m,
                OutgoingMessage::ReliableBroadcast(ReliableMessageFromServer::Despawn(d))
                    if *d == obj
            )
        })
        .collect();
    assert_eq!(despawns.len(), 1);
    assert_eq!(game.outbox.len(), before + 1);
    assert_eq!(game.message_queues.len(), 0);
}

#[test]
fn tick_broadcast_falls_due_every_interval() {
    let mut game = Game::new(1);
    game.handle_client_connected(42);
    let before = game.outbox.len();
    // One full broadcast interval elapses in a single step.
    netplay::server::tick(&mut game, 10_000_000_000);
    assert_eq!(game.instance.tick.get(), 1);
    let syncs = game.outbox[before..]
        .iter()
        .filter(|m| {
            matches!(
                m,
                OutgoingMessage::ReliableBroadcast(ReliableMessageFromServer::TickSync(_))
            )
        })
        .count();
    assert_eq!(syncs, 1);
}
