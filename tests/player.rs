use space_invaders::field::{HALF_WIDTH, SHOT_Y, UNIT};
use space_invaders::player::{move_player, start_game_on_button_press, Controls, GamepadInput};
use space_invaders::projectile::PlayerShot;

fn keys(left: bool, right: bool, fire: bool) -> Controls {
    Controls {
        gamepads: Vec::new(),
        left_held: left,
        right_held: right,
        fire_key_pressed: fire,
        fire_key_held: fire,
    }
}

fn pad(stick: Option<i32>, pressed: bool, held: bool) -> GamepadInput {
    GamepadInput { stick_x: stick, fire_pressed: pressed, fire_held: held }
}

#[test]
fn arrow_keys_move_at_full_speed() {
    assert_eq!(move_player(0, &keys(false, true, false), 500_000).0, 64 * UNIT);
    assert_eq!(move_player(0, &keys(true, false, false), 500_000).0, -64 * UNIT);
    assert_eq!(move_player(5, &keys(true, true, false), 500_000).0, 5);
}

#[test]
fn player_stays_on_the_field() {
    assert_eq!(move_player(120 * UNIT, &keys(false, true, false), 1_000_000).0, HALF_WIDTH);
    assert_eq!(move_player(-120 * UNIT, &keys(true, false, false), 1_000_000).0, -HALF_WIDTH);
}

#[test]
fn stick_dead_zone_and_rescale() {
    let mut c = keys(false, false, false);
    c.gamepads = vec![pad(Some(199_999), false, false)];
    assert_eq!(move_player(0, &c, 1_000_000).0, 0);
    c.gamepads = vec![pad(Some(1_000_000), false, false)];
    assert_eq!(move_player(0, &c, 1_000_000).0, 128 * UNIT);
    c.gamepads = vec![pad(Some(-600_000), false, false)];
    assert_eq!(move_player(0, &c, 500_000).0, -32 * UNIT);
    c.gamepads = vec![pad(Some(200_000), false, false)];
    assert_eq!(move_player(7, &c, 500_000).0, 7);
}

#[test]
fn fire_key_shoots_from_the_player() {
    let (x, shots) = move_player(10 * UNIT, &keys(false, true, true), 250_000);
    assert_eq!(x, 42 * UNIT);
    assert_eq!(shots, vec![PlayerShot { x: 42 * UNIT, y: SHOT_Y }]);
    assert_eq!(SHOT_Y, -88 * UNIT);
}

#[test]
fn gamepad_shot_comes_before_key_shot() {
    let mut c = keys(false, true, true);
    c.gamepads = vec![pad(None, true, true)];
    let (x, shots) = move_player(0, &c, 250_000);
    assert_eq!(x, 32 * UNIT);
    assert_eq!(shots, vec![PlayerShot { x: 0, y: SHOT_Y }, PlayerShot { x: 32 * UNIT, y: SHOT_Y }]);
}

#[test]
fn fire_held_starts_the_game() {
    assert!(!start_game_on_button_press(&keys(false, false, false)));
    assert!(start_game_on_button_press(&keys(false, false, true)));
    let mut c = keys(false, false, false);
    c.gamepads = vec![pad(None, false, false), pad(None, false, true)];
    assert!(start_game_on_button_press(&c));
}
