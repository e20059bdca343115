use platformer_core::collision::{player_collision, CollisionEvent};
use platformer_core::timer::Timer;

const PLAYER_ID: u64 = 11;

fn finished_jump_timer() -> Timer {
    let mut t = Timer::new(700, false);
    t.start(700, false);
    t.tick(700);
    assert!(t.finished());
    t
}

#[test]
fn started_collision_with_player_first_resets_timer() {
    let mut t = finished_jump_timer();
    let events = vec![CollisionEvent::Started(PLAYER_ID, 3)];
    player_collision(&events, PLAYER_ID, &mut t);
    assert!(!t.started);
    assert!(!t.finished());
    assert_eq!(t.elapsed_ms(), 0);
    assert_eq!(t.duration_ms, 700);
}

#[test]
fn started_collision_with_player_second_resets_timer() {
    let mut t = finished_jump_timer();
    let events = vec![CollisionEvent::Started(3, PLAYER_ID)];
    player_collision(&events, PLAYER_ID, &mut t);
    assert!(!t.started);
    assert!(!t.finished());
}

#[test]
fn started_collision_between_others_is_ignored() {
    let mut t = finished_jump_timer();
    let before = t;
    let events = vec![CollisionEvent::Started(3, 4)];
    player_collision(&events, PLAYER_ID, &mut t);
    assert_eq!(t, before);
}

#[test]
fn stopped_collision_is_ignored() {
    let mut t = finished_jump_timer();
    let before = t;
    let events = vec![
        CollisionEvent::Stopped(PLAYER_ID, 3),
        CollisionEvent::Stopped(3, PLAYER_ID),
    ];
    player_collision(&events, PLAYER_ID, &mut t);
    assert_eq!(t, before);
}

#[test]
fn empty_event_stream_is_ignored() {
    let mut t = finished_jump_timer();
    let before = t;
    let events: Vec<CollisionEvent> = Vec::new();
    player_collision(&events, PLAYER_ID, &mut t);
    assert_eq!(t, before);
}

#[test]
fn one_relevant_event_among_many_resets_timer() {
    let mut t = finished_jump_timer();
    let events = vec![
        CollisionEvent::Stopped(3, 4),
        CollisionEvent::Started(5, 6),
        CollisionEvent::Started(5, PLAYER_ID),
        CollisionEvent::Started(8, 9),
    ];
    player_collision(&events, PLAYER_ID, &mut t);
    assert!(!t.started);
    assert!(!t.finished());
}
