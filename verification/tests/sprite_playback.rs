use platformer_core::anim::{advance_frame, animation_tick, AnimState, AnimStateTuple, SpriteAnim};

const FRAME_COUNT: u32 = 4;

fn transition_pending() -> AnimStateTuple {
    AnimStateTuple {
        prev: Some(AnimState::Idle),
        current: Some(AnimState::Run),
    }
}

#[test]
fn spawn_playback_starts_at_frame_zero() {
    let s = SpriteAnim::new();
    assert_eq!(s.index, 0);
    assert!(s.frame_timer.started);
    assert!(s.frame_timer.repeating);
    assert_eq!(s.frame_timer.duration_ms, 150);
}

#[test]
fn tick_shorter_than_frame_period_changes_nothing() {
    let mut sprite = SpriteAnim::new();
    sprite.index = 2;
    let mut tuple = transition_pending();
    animation_tick(&mut sprite, &mut tuple, 100, FRAME_COUNT);
    assert_eq!(sprite.index, 2);
    assert_eq!(tuple, transition_pending());
}

#[test]
fn transition_tick_resets_frame_index_to_zero() {
    let mut sprite = SpriteAnim::new();
    sprite.index = 3;
    let mut tuple = transition_pending();
    animation_tick(&mut sprite, &mut tuple, 150, FRAME_COUNT);
    assert_eq!(sprite.index, 0);
    assert_eq!(tuple.prev, Some(AnimState::Run));
    assert_eq!(tuple.current, Some(AnimState::Run));
}

#[test]
fn steady_state_ticks_increment_modulo_frame_count() {
    let mut sprite = SpriteAnim::new();
    let mut tuple = AnimStateTuple {
        prev: Some(AnimState::Run),
        current: Some(AnimState::Run),
    };
    let mut seen = Vec::new();
    for _ in 0..6 {
        animation_tick(&mut sprite, &mut tuple, 150, FRAME_COUNT);
        seen.push(sprite.index);
    }
    assert_eq!(seen, vec![1, 2, 3, 0, 1, 2]);
}

#[test]
fn frame_index_round_trips_after_frame_count_ticks() {
    let mut sprite = SpriteAnim::new();
    sprite.index = 2;
    let mut tuple = AnimStateTuple {
        prev: Some(AnimState::Glide),
        current: Some(AnimState::Glide),
    };
    for _ in 0..FRAME_COUNT {
        animation_tick(&mut sprite, &mut tuple, 150, FRAME_COUNT);
    }
    assert_eq!(sprite.index, 2);
}

#[test]
fn advance_frame_wraps_at_frame_count() {
    assert_eq!(advance_frame(0, 6), 1);
    assert_eq!(advance_frame(4, 6), 5);
    assert_eq!(advance_frame(5, 6), 0);
    assert_eq!(advance_frame(0, 1), 0);
}
