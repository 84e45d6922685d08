use game::game::Game;
use game::game::Phase;
use game::game::FRAME_MICROS;
use game::msg::clock_offset_or_zero;
use game::msg::create_player_start_msg;
use game::msg::is_client;
use game::msg::whoami;
use game::msg::ConnectionMessage;
use game::msg::FirstFrame;
use game::msg::GameError;
use game::msg::Player;
use game::msg::Position;
use game::msg::SerializationType;
use game::msg::ENTITY_RANGE;
use game::msg::SPAWN_X;
use game::msg::SPAWN_Y;
use game::msg::WHO_AM_I_CLIENT;
use game::msg::WHO_AM_I_UNKNOWN;

#[test]
fn whoami_identifies_client() {
    let r = whoami(FirstFrame::Whoami(WHO_AM_I_CLIENT));
    assert_eq!(r, Ok(WHO_AM_I_CLIENT));
    assert!(is_client(&r));
}

#[test]
fn whoami_rejects_other_first_frame() {
    let r = whoami(FirstFrame::OtherMessage);
    assert_eq!(r, Err(GameError::ExpectedWhoami));
    assert!(!is_client(&r));
}

#[test]
fn whoami_rejects_malformed_frame() {
    let r = whoami(FirstFrame::Malformed);
    assert_eq!(r, Err(GameError::MalformedFrame));
    assert!(!is_client(&r));
}

#[test]
fn whoami_unknown_without_usable_frame() {
    assert_eq!(whoami(FirstFrame::Absent), Ok(WHO_AM_I_UNKNOWN));
    assert_eq!(whoami(FirstFrame::NotBinary), Ok(WHO_AM_I_UNKNOWN));
    assert!(!is_client(&whoami(FirstFrame::Absent)));
}

#[test]
fn clock_sync_is_best_effort() {
    assert_eq!(clock_offset_or_zero(Some(42)), 42);
    assert_eq!(clock_offset_or_zero(Some(-7)), -7);
    assert_eq!(clock_offset_or_zero(None), 0);
}

#[test]
fn start_msg_has_disjoint_entity_ranges() {
    let p = Player { id: 3, position: Position { x: 10, y: 20 }, clock_diff: 0 };
    let m = create_player_start_msg(&p, 7);
    assert_eq!(m.entity_id, 3 * ENTITY_RANGE as usize);
    assert_eq!(m.range, ENTITY_RANGE);
    assert_eq!(m.seed, 7);
    assert_eq!(m.position, Position { x: 10, y: 20 });
}

#[test]
fn scenario_single_player_match_starts() {
    let mut g = Game::new(5, 1, 100, 1, SerializationType::Binary);
    assert_eq!(g.player_count(), 0);
    let r = whoami(FirstFrame::Whoami(WHO_AM_I_CLIENT));
    assert!(is_client(&r));
    let id = g.add_player(clock_offset_or_zero(None));
    assert_eq!(id, 0);
    assert!(g.is_ready());
    assert_eq!(g.phase(), Phase::Starting);
    let msgs = g.start_game();
    assert_eq!(g.phase(), Phase::Running);
    assert_eq!(msgs.len(), 1);
    let (to, m) = msgs[0];
    assert_eq!(to, 0);
    assert_eq!(m.entity_id, 0);
    assert_eq!(m.entity_id + m.range as usize, 500);
    assert_eq!(m.seed, 5);
    assert_eq!(m.position, Position { x: SPAWN_X, y: SPAWN_Y });
}

#[test]
fn scenario_bad_first_frame_leaves_population_unchanged() {
    let mut g = Game::new(5, 1, 100, 1, SerializationType::Binary);
    let r = whoami(FirstFrame::OtherMessage);
    assert!(!is_client(&r));
    // The connection is closed by the caller; the registry is untouched and
    // the match keeps waiting.
    assert_eq!(g.player_count(), 0);
    assert_eq!(g.phase(), Phase::Admitting);
    assert!(!g.is_ready());
    // A later valid connection is still admitted.
    let id = g.add_player(0);
    assert_eq!(id, 0);
    assert!(g.is_ready());
}

#[test]
fn scenario_three_players_close_one_keeps_running() {
    let mut g = Game::new(9, 2, 100, 3, SerializationType::Binary);
    assert_eq!(g.add_player(0), 0);
    assert!(!g.is_ready());
    assert_eq!(g.add_player(1), 1);
    assert!(!g.is_ready());
    assert_eq!(g.add_player(-3), 2);
    assert!(g.is_ready());
    assert_eq!(g.phase(), Phase::Starting);
    let msgs = g.start_game();
    assert_eq!(msgs.len(), 3);
    assert_eq!(msgs[1].0, 1);
    assert_eq!(msgs[1].1.entity_id, 500);
    assert_eq!(g.phase(), Phase::Running);

    let tx = g.sender();
    tx.try_send(ConnectionMessage::Close(1)).unwrap();
    let step = g.tick(1, 0);
    assert_eq!(g.player_count(), 2);
    assert!(!step.done);
    assert_eq!(g.phase(), Phase::Running);
}

#[test]
fn scenario_population_zero_ends_match() {
    let mut g = Game::new(3, 4, 100, 1, SerializationType::Json);
    g.add_player(0);
    let _ = g.start_game();
    let tx = g.sender();
    tx.try_send(ConnectionMessage::Close(0)).unwrap();
    let step = g.tick(1, 0);
    assert_eq!(g.player_count(), 0);
    assert!(step.done);
    assert_eq!(g.phase(), Phase::Finished);
}

#[test]
fn repeated_close_is_a_noop() {
    let mut g = Game::new(3, 4, 100, 2, SerializationType::Binary);
    g.add_player(0);
    g.add_player(0);
    let _ = g.start_game();
    g.process_message(ConnectionMessage::Close(1));
    assert_eq!(g.player_count(), 1);
    g.process_message(ConnectionMessage::Close(1));
    assert_eq!(g.player_count(), 1);
    // A close for a slot that was never filled changes nothing either.
    g.process_message(ConnectionMessage::Close(57));
    assert_eq!(g.player_count(), 1);
}

#[test]
fn inbound_message_event_keeps_registry() {
    let mut g = Game::new(3, 4, 100, 1, SerializationType::Binary);
    g.add_player(0);
    let _ = g.start_game();
    g.process_message(ConnectionMessage::Msg(0, vec![1, 2, 3]));
    assert_eq!(g.player_count(), 1);
}

#[test]
fn empty_drain_is_a_noop() {
    let mut g = Game::new(3, 4, 100, 1, SerializationType::Binary);
    g.add_player(0);
    let _ = g.start_game();
    let msgs = g.get_messages();
    assert!(msgs.is_empty());
    let step = g.tick(1, 0);
    assert_eq!(g.player_count(), 1);
    assert!(!step.done);
    assert_eq!(g.phase(), Phase::Running);
}

#[test]
fn queue_conveys_events_to_the_loop() {
    let mut g = Game::new(3, 4, 100, 2, SerializationType::Binary);
    g.add_player(0);
    g.add_player(0);
    let _ = g.start_game();
    let tx = g.sender();
    tx.try_send(ConnectionMessage::Msg(0, vec![9])).unwrap();
    tx.try_send(ConnectionMessage::Close(0)).unwrap();
    tx.try_send(ConnectionMessage::Close(0)).unwrap();
    let step = g.tick(1, 0);
    assert_eq!(g.player_count(), 1);
    assert!(!step.done);
}

#[test]
fn tick_sleeps_to_the_fixed_origin_deadline() {
    let mut g = Game::new(3, 4, 100, 1, SerializationType::Binary);
    g.add_player(0);
    let _ = g.start_game();
    // Ahead of schedule: sleep exactly to the deadline measured from the
    // loop's start, not from the previous tick.
    let step = g.tick(3, 0);
    assert_eq!(step.wait_micros, 3 * FRAME_MICROS as u128);
    let step = g.tick(2, 10_000);
    assert_eq!(step.wait_micros, 2 * FRAME_MICROS as u128 - 10_000);
    // Behind schedule: proceed immediately, without correction.
    let step = g.tick(2, 100_000);
    assert_eq!(step.wait_micros, 0);
}

#[test]
fn population_counts_each_admission() {
    let mut g = Game::new(3, 4, 5, 3, SerializationType::Binary);
    assert_eq!(g.player_count(), 0);
    g.add_player(10);
    assert_eq!(g.player_count(), 1);
    g.add_player(20);
    assert_eq!(g.player_count(), 2);
    g.add_player(30);
    assert_eq!(g.player_count(), 3);
    assert!(g.player_count() <= 5);
}

#[test]
fn configuration_is_kept() {
    let g = Game::new(11, 22, 33, 4, SerializationType::Json);
    assert_eq!(g.seed(), 11);
    assert_eq!(g.game_id(), 22);
    assert_eq!(g.target(), 4);
    assert_eq!(g.ser_type(), SerializationType::Json);
}
