use netplay::backend::EnterGame;
use netplay::backend::Error;
use netplay::backend::LocalBackend;
use netplay::backend::Message;
use netplay::backend::parse_control_message;
use netplay::buffer::Buffer;
use netplay::buffer::InputBuffer;
use netplay::buffer::PlayerSnapshot;
use netplay::game::CharacterKind;
use netplay::game::Rarity;
use netplay::message::OwnedPlayerSync;
use netplay::message::PlayerInput;
use netplay::net_obj::LastSyncTracker;
use netplay::net_obj::NetworkObject;
use netplay::tick::Tick;
use netplay::tick::TickData;
use netplay::tick::client_tick_from;
use netplay::tick::get_client_tick;
use netplay::vec2::Vec2Bits;

fn v(x: f32, y: f32) -> Vec2Bits {
    Vec2Bits { x: x.to_bits(), y: y.to_bits() }
}

fn zero_input() -> PlayerInput {
    PlayerInput { move_direction: v(0.0, 0.0) }
}

#[test]
fn tick_basics() {
    let mut t = Tick::new(41);
    assert_eq!(t.get(), 41);
    t.increment();
    assert_eq!(t.get(), 42);
}

#[test]
fn client_tick_33ms_after_broadcast_is_one_tick_later() {
    // server_tick = 1000 at wall time T; reading the clock at T + 33 ms with
    // a tick period just under 17 ms lands exactly one full period later.
    let t: u128 = 1_700_000_000_000;
    let tick = client_tick_from(1000, t, t + 33);
    assert_eq!(tick.get(), 1001);
}

#[test]
fn client_tick_tolerates_clock_skew() {
    // A local clock behind the server's saturates the elapsed time at zero.
    let t: u128 = 1_700_000_000_000;
    let tick = client_tick_from(1000, t, t - 5);
    assert_eq!(tick.get(), 1000);
}

#[test]
fn client_tick_more_periods() {
    let t: u128 = 5_000;
    // 100 ms at 60 ticks per second is exactly 6 ticks.
    assert_eq!(client_tick_from(7, t, t + 100).get(), 13);
    // 16 ms is still within the first period (16.67 ms).
    assert_eq!(client_tick_from(7, t, t + 16).get(), 7);
}

#[test]
fn get_client_tick_never_precedes_server_tick() {
    let tick = get_client_tick(123, 0);
    assert!(tick.get() >= 123);
}

#[test]
fn tick_broadcast_timer_counts_due_intervals() {
    let mut data = TickData::new();
    assert_eq!(data.advance(5_000_000_000), 0);
    assert_eq!(data.broadcast_timer_nanos, 5_000_000_000);
    // 5 s accumulated + 15 s elapsed crosses the 10 s interval twice.
    assert_eq!(data.advance(15_000_000_000), 2);
    assert_eq!(data.broadcast_timer_nanos, 0);
}

#[test]
fn sync_tracker_rejects_stale_and_duplicate_ticks() {
    let mut tracker = LastSyncTracker::new(Tick::new(0));
    assert!(tracker.should_update(Tick::new(5)));
    // Having accepted tick 5, anything at or below 5 is rejected and the
    // tracker stays where it is.
    assert!(!tracker.should_update(Tick::new(3)));
    assert!(!tracker.should_update(Tick::new(5)));
    assert_eq!(tracker.last_tick.0, 5);
    assert!(tracker.should_update(Tick::new(6)));
    assert_eq!(tracker.last_tick.0, 6);
}

#[test]
fn network_object_constructors() {
    assert_eq!(NetworkObject::new_static(9), NetworkObject::Static(9));
    assert!(matches!(NetworkObject::new_rand(), NetworkObject::Dynamic(_)));
}

#[test]
fn pushing_n_inputs_yields_orders_one_to_n() {
    let mut buffer = InputBuffer::new();
    for expected in 1..=5u64 {
        let order = buffer.push_input(zero_input());
        assert_eq!(order, expected);
    }
    let all = buffer.get_after(0);
    assert_eq!(all.len(), 5);
    for (i, entry) in all.iter().enumerate() {
        assert_eq!(entry.order, i as u64 + 1);
    }
}

#[test]
fn get_after_returns_entries_past_the_cutoff_in_order() {
    let mut buffer = InputBuffer::new();
    for _ in 0..7 {
        buffer.push_input(zero_input());
    }
    let after = buffer.get_after(4);
    let orders: Vec<u64> = after.iter().map(|e| e.order).collect();
    assert_eq!(orders, vec![5, 6, 7]);
    assert!(buffer.get_after(7).is_empty());
    assert!(buffer.get_after(9).is_empty());
    assert_eq!(buffer.get_latest().unwrap().order, 7);
}

#[test]
fn snapshot_history_never_exceeds_its_bound() {
    let mut history: Buffer<PlayerSnapshot> = Buffer::new();
    for i in 0..150u32 {
        history.push(PlayerSnapshot { position: v(i as f32, 0.0) });
        history.prune(100);
        assert!(history.len() <= 100);
    }
    assert_eq!(history.len(), 100);
    // The oldest entries were evicted first: the front is snapshot 50.
    assert_eq!(history.get(0).position.x, 50.0f32.to_bits());
    assert_eq!(history.get_latest().unwrap().position.x, 149.0f32.to_bits());
    assert_eq!(history.get_nth_latest(99).unwrap().position.x, 50.0f32.to_bits());
    assert!(history.get_nth_latest(100).is_none());
}

#[test]
fn buffer_iter_exposes_entries_in_insertion_order() {
    let mut history: Buffer<PlayerSnapshot> = Buffer::new();
    history.push(PlayerSnapshot { position: v(1.0, 0.0) });
    history.push(PlayerSnapshot { position: v(2.0, 0.0) });
    let entries = history.iter();
    assert_eq!(entries.len(), 2);
    assert_eq!(entries[0].position, v(1.0, 0.0));
    assert_eq!(entries[1].position, v(2.0, 0.0));
}

#[test]
fn snapshot_difference_uses_the_tenth_unit_threshold() {
    let snapshot = PlayerSnapshot { position: v(10.0, 10.0) };
    let far = OwnedPlayerSync {
        net_obj: NetworkObject::Static(1),
        position: v(10.5, 10.0),
        tick: Tick::new(1),
        last_input_order: 0,
    };
    let near = OwnedPlayerSync { position: v(10.05, 10.0), ..far };
    assert!(snapshot.is_different(&far));
    assert!(!snapshot.is_different(&near));
}

#[test]
fn create_character_rejects_the_normal_kind() {
    let mut backend = LocalBackend::new();
    assert!(matches!(
        backend.create_character("ada", CharacterKind::Normal),
        Err(Error::InvalidCharacterKind)
    ));
    let c = backend.create_character("ada", CharacterKind::SoloAccount).unwrap();
    assert_eq!(c.character_id, 0);
    assert_eq!(c.name, "ada");
    let d = backend.create_character("bob", CharacterKind::SoloCharacter).unwrap();
    assert_eq!(d.character_id, 1);
}

#[test]
fn enter_game_reuses_the_home_instance() {
    let mut backend = LocalBackend::new();
    assert!(matches!(
        backend.enter_game_target(0),
        Err(Error::InvalidCharacterId)
    ));
    backend.create_character("ada", CharacterKind::SoloAccount).unwrap();
    assert!(matches!(
        backend.enter_game_target(0),
        Ok(EnterGame::NeedsNewInstance)
    ));
    backend.complete_enter_game(0, 99);
    assert!(matches!(
        backend.enter_game_target(0),
        Ok(EnterGame::UseExisting(99))
    ));
    assert_eq!(backend.get_current_instance(), Some(99));
    assert_eq!(backend.get_connected_instances(), vec![99]);
    let current = backend.get_current_character().unwrap();
    assert_eq!(current.name, "ada");
    assert_eq!(current.character_id, 0);
}

#[test]
fn control_lines_parse_to_messages() {
    assert_eq!(parse_control_message(b"shutdown"), Some(Message::Shutdown));
    assert_eq!(parse_control_message(b"teapot"), Some(Message::Teapot));
    assert_eq!(parse_control_message(b"restart"), None);
    assert_eq!(parse_control_message(b""), None);
}

#[test]
fn rarity_explicit_counts() {
    assert_eq!(Rarity::Insignificant.maximum_explicit_count(), 0);
    assert_eq!(Rarity::Fabled.maximum_explicit_count(), 3);
    assert_eq!(Rarity::Legendary.maximum_explicit_count(), 5);
    assert_eq!(Rarity::Epic.maximum_explicit_count(), 7);
    assert_eq!(Rarity::Mythic.maximum_explicit_count(), 0);
}
