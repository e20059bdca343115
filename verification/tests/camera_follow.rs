use platformer_core::camera::camera_tick;

#[test]
fn player_beyond_right_dead_zone_starts_rightward_chase() {
    // half-width 200, margin 50: dead zone ends 150 to the right of the camera
    let v = camera_tick(0, 300, -200, 200, 0);
    assert_eq!(v, 100);
}

#[test]
fn chase_stops_once_camera_catches_up() {
    let v = camera_tick(300, 300, -200, 200, 100);
    assert_eq!(v, 0);
    let v = camera_tick(310, 300, -200, 200, 100);
    assert_eq!(v, 0);
}

#[test]
fn player_beyond_left_dead_zone_starts_leftward_chase() {
    let v = camera_tick(0, -300, -200, 200, 0);
    assert_eq!(v, -100);
    let v = camera_tick(-300, -300, -200, 200, -100);
    assert_eq!(v, 0);
}

#[test]
fn player_inside_dead_zone_keeps_velocity_at_rest() {
    let v = camera_tick(0, 100, -200, 200, 0);
    assert_eq!(v, 0);
    let v = camera_tick(0, -149, -200, 200, 0);
    assert_eq!(v, 0);
}

#[test]
fn ongoing_chase_continues_inside_dead_zone_until_centered() {
    // camera still behind the player: the chase keeps its velocity
    let v = camera_tick(200, 300, -200, 200, 100);
    assert_eq!(v, 100);
}
