use crime_download::entities::Player;
use crime_download::geom::Vec2I;
use crime_download::input::{check_restart, keyboard_input, ButtonInteraction, InputState};
use crime_download::timer::Timer;

fn input_with(up: bool, down: bool, left: bool, right: bool, space: bool) -> InputState {
    InputState {
        up,
        down,
        left,
        right,
        space,
        enter: false,
        key_r: false,
        button: ButtonInteraction::Idle,
    }
}

#[test]
fn repeating_timer_fires_every_period() {
    let mut t = Timer::new(250, true);
    assert!(t.tick(250));
    assert_eq!(t.elapsed_ms, 0);
    assert!(!t.tick(100));
    assert_eq!(t.elapsed_ms, 100);
    assert!(t.tick(200));
    assert_eq!(t.elapsed_ms, 50);
}

#[test]
fn once_timer_fires_once_and_stays_finished() {
    let mut t = Timer::new(800, false);
    assert!(!t.tick(700));
    assert!(!t.finished());
    assert!(t.tick(100));
    assert!(t.finished());
    assert!(!t.tick(10));
    assert!(t.finished());
    t.reset();
    assert!(!t.finished());
    assert_eq!(t.elapsed_ms, 0);
}

#[test]
fn keyboard_moves_at_base_speed() {
    let mut p = Player::default();
    p.dash_cooldown.elapsed_ms = 800;
    p.dash_duration.elapsed_ms = 100;
    keyboard_input(&mut p, &input_with(false, false, false, true, false), 0);
    assert_eq!(p.vel, Vec2I { x: 240_000, y: 0 });
    assert_eq!(p.pos, Vec2I { x: 0, y: 0 });
}

#[test]
fn keyboard_diagonal_uses_fixed_angle() {
    let mut p = Player::default();
    p.dash_cooldown.elapsed_ms = 800;
    p.dash_duration.elapsed_ms = 100;
    keyboard_input(&mut p, &input_with(true, false, false, true, false), 0);
    // diagonal component 0.707 of 240 units/s
    assert_eq!(p.vel, Vec2I { x: 169_680, y: 169_680 });
}

#[test]
fn keyboard_conflicting_keys_yield_zero() {
    let mut p = Player::default();
    p.dash_cooldown.elapsed_ms = 800;
    p.dash_duration.elapsed_ms = 100;
    keyboard_input(&mut p, &input_with(true, true, false, false, false), 0);
    assert_eq!(p.vel, Vec2I { x: 0, y: 0 });
}

#[test]
fn dash_quadruples_speed_when_cooldown_had_finished() {
    let mut p = Player::default();
    p.dash_cooldown.elapsed_ms = 800;
    p.dash_duration.elapsed_ms = 100;
    keyboard_input(&mut p, &input_with(false, false, false, true, true), 0);
    assert_eq!(p.vel, Vec2I { x: 960_000, y: 0 });
    // pressing restarted both clocks
    assert_eq!(p.dash_cooldown.elapsed_ms, 0);
    assert_eq!(p.dash_duration.elapsed_ms, 0);
}

#[test]
fn dash_tap_before_cooldown_grants_no_dash_but_restarts_cooldown() {
    let mut p = Player::default();
    p.dash_cooldown.elapsed_ms = 400;
    p.dash_duration.elapsed_ms = 100;
    keyboard_input(&mut p, &input_with(false, false, false, true, true), 0);
    // no dash: base speed; but the cooldown clock starts over
    assert_eq!(p.vel, Vec2I { x: 240_000, y: 0 });
    assert_eq!(p.dash_cooldown.elapsed_ms, 0);
    assert_eq!(p.dash_duration.elapsed_ms, 100);
}

#[test]
fn restart_on_keys_or_button() {
    let mut i = InputState::none();
    assert!(!check_restart(&i));
    i.space = true;
    assert!(check_restart(&i));
    let mut i = InputState::none();
    i.enter = true;
    assert!(check_restart(&i));
    let mut i = InputState::none();
    i.key_r = true;
    assert!(check_restart(&i));
    let mut i = InputState::none();
    i.button = ButtonInteraction::Pressed;
    assert!(check_restart(&i));
    i.button = ButtonInteraction::Hovered;
    assert!(!check_restart(&i));
}
