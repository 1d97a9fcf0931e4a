use vstd::prelude::*;

use crate::field::{HALF_WIDTH, PLAYER_MAX_SPEED, SHOT_Y};
use crate::projectile::PlayerShot;

verus! {

/// A stick reading of full deflection; readings run from `-AXIS_FULL` to `AXIS_FULL`.
pub const AXIS_FULL: i64 = 1_000_000;

/// Stick readings of smaller magnitude than this are ignored; larger ones are
/// rescaled so that the dead zone's edge reads as zero.
pub const DEAD_ZONE: i64 = 200_000;

/// What one gamepad reports for a tick.
#[derive(Clone, Copy, Debug, PartialEq, Eq, Structural)]
pub struct GamepadInput {
    /// Horizontal reading of the left stick, if the gamepad has one.
    pub stick_x: Option<i32>,
    /// The fire button went down this tick.
    pub fire_pressed: bool,
    /// The fire button is down.
    pub fire_held: bool,
}

/// The player's controls for a tick: every gamepad, and the keyboard.
#[derive(Debug)]
pub struct Controls {
    pub gamepads: Vec<GamepadInput>,
    pub left_held: bool,
    pub right_held: bool,
    /// The fire key went down this tick.
    pub fire_key_pressed: bool,
    /// The fire key is down.
    pub fire_key_held: bool,
}

pub open spec fn clamp_to_field(x: int) -> int {
    if x < -HALF_WIDTH {
        -HALF_WIDTH as int
    } else if x > HALF_WIDTH {
        HALF_WIDTH as int
    } else {
        x
    }
}

/// Horizontal distance that a stick reading moves the player in `dt`
/// microseconds: zero inside the dead zone, else the rescaled reading times
/// `PLAYER_MAX_SPEED * dt`, rounded toward zero.
pub open spec fn stick_shift(stick: int, dt: int) -> int {
    let span = AXIS_FULL - DEAD_ZONE;
    if -DEAD_ZONE < stick < DEAD_ZONE {
        0
    } else if stick < 0 {
        -(((-stick - DEAD_ZONE) * PLAYER_MAX_SPEED * dt) / span)
    } else {
        ((stick - DEAD_ZONE) * PLAYER_MAX_SPEED * dt) / span
    }
}

pub open spec fn shot_at(x: int) -> PlayerShot {
    PlayerShot { x: x as i64, y: SHOT_Y }
}

/// The player's position and the fire commands after the gamepads of `pads`,
/// in order: each stick moves the player, kept within the field, and each
/// fire press fires from where the player then is.
pub open spec fn after_gamepads(x: int, pads: Seq<GamepadInput>, dt: int) -> (int, Seq<PlayerShot>)
    decreases pads.len(),
{
    if pads.len() == 0 {
        (x, Seq::empty())
    } else {
        let (x1, shots) = after_gamepads(x, pads.drop_last(), dt);
        let p = pads.last();
        let x2 = match p.stick_x {
            Some(s) => clamp_to_field(x1 + stick_shift(s as int, dt)),
            None => x1,
        };
        (x2, if p.fire_pressed {
            shots.push(shot_at(x2))
        } else {
            shots
        })
    }
}

/// The player's position and the tick's fire commands: the gamepads first,
/// then the arrow keys (each moving at `PLAYER_MAX_SPEED`, the result kept
/// within the field), then the fire key.
pub open spec fn player_step(x: int, c: Controls, dt: int) -> (int, Seq<PlayerShot>) {
    let (x1, shots) = after_gamepads(x, c.gamepads@, dt);
    let left = if c.left_held {
        PLAYER_MAX_SPEED * dt
    } else {
        0
    };
    let right = if c.right_held {
        PLAYER_MAX_SPEED * dt
    } else {
        0
    };
    let x2 = clamp_to_field(x1 - left + right);
    (x2, if c.fire_key_pressed {
        shots.push(shot_at(x2))
    } else {
        shots
    })
}

/// A fire button or the fire key is held down.
pub open spec fn fire_held(c: Controls) -> bool {
    c.fire_key_held || exists|i: int|
        0 <= i < c.gamepads@.len() && #[trigger] c.gamepads@[i].fire_held
}

fn clamp_i128(x: i128) -> (r: i64)
    ensures
        r == clamp_to_field(x as int),
        -HALF_WIDTH <= r <= HALF_WIDTH,
{
    if x < -(HALF_WIDTH as i128) {
        -HALF_WIDTH
    } else if x > HALF_WIDTH as i128 {
        HALF_WIDTH
    } else {
        x as i64
    }
}

fn stick_distance(stick: i32, dt: u64) -> (r: i128)
    ensures
        r == stick_shift(stick as int, dt as int),
        -0x1_0000_0000_0000_0000_0000_0000_0000 <= r <= 0x1_0000_0000_0000_0000_0000_0000_0000,
{
    let s: i128 = stick as i128;
    let dead: i128 = DEAD_ZONE as i128;
    let span: i128 = (AXIS_FULL - DEAD_ZONE) as i128;
    let speed: i128 = PLAYER_MAX_SPEED as i128;
    let t: i128 = dt as i128;
    if -dead < s && s < dead {
        0
    } else {
        let m: i128 = if s < 0 {
            -s - dead
        } else {
            s - dead
        };
        assert(0 <= m * speed * t <= 0x1_0000_0000 * 128 * 0x1_0000_0000_0000_0000) by (nonlinear_arith)
            requires
                0 <= m <= 0x1_0000_0000,
                speed == 128,
                0 <= t < 0x1_0000_0000_0000_0000,
        ;
        let num: i128 = m * speed * t;
        let q: i128 = num / span;
        assert(0 <= q <= num) by (nonlinear_arith)
            requires
                q == num / span,
                0 <= num,
                span > 0,
        ;
        if s < 0 {
            -q
        } else {
            q
        }
    }
}

/// Moves the player from `x` by one tick of `dt` microseconds and collects
/// the tick's fire commands, in order.
pub fn move_player(x: i64, controls: &Controls, dt: u64) -> (r: (i64, Vec<PlayerShot>))
    ensures
        (r.0 as int, r.1@) == player_step(x as int, *controls, dt as int),
        -HALF_WIDTH <= r.0 <= HALF_WIDTH,
{
    let n = controls.gamepads.len();
    let mut pos: i64 = x;
    let mut shots: Vec<PlayerShot> = Vec::new();
    let mut i: usize = 0;
    while i < n
        invariant
            n == controls.gamepads@.len(),
            i <= n,
            (pos as int, shots@) == after_gamepads(x as int, controls.gamepads@.take(i as int), dt as int),
        decreases n - i,
    {
        let p = controls.gamepads[i];
        assert(controls.gamepads@.take(i as int + 1).drop_last() =~= controls.gamepads@.take(i as int));
        assert(controls.gamepads@.take(i as int + 1).last() == p);
        if let Some(s) = p.stick_x {
            let d = stick_distance(s, dt);
            pos = clamp_i128(pos as i128 + d);
        }
        if p.fire_pressed {
            shots.push(PlayerShot { x: pos, y: SHOT_Y });
        }
        i = i + 1;
    }
    assert(controls.gamepads@.take(n as int) =~= controls.gamepads@);
    let step: i128 = (PLAYER_MAX_SPEED as i128) * (dt as i128);
    let mut moved: i128 = pos as i128;
    if controls.left_held {
        moved = moved - step;
    }
    if controls.right_held {
        moved = moved + step;
    }
    let pos = clamp_i128(moved);
    if controls.fire_key_pressed {
        shots.push(PlayerShot { x: pos, y: SHOT_Y });
    }
    (pos, shots)
}

/// Whether the fire button of a gamepad or the fire key is held down: the
/// signal that starts a match.
pub fn start_game_on_button_press(controls: &Controls) -> (r: bool)
    ensures
        r == fire_held(*controls),
{
    if controls.fire_key_held {
        return true;
    }
    let n = controls.gamepads.len();
    let mut i: usize = 0;
    while i < n
        invariant
            n == controls.gamepads@.len(),
            i <= n,
            forall|j: int| 0 <= j < i ==> !#[trigger] controls.gamepads@[j].fire_held,
        decreases n - i,
    {
        if controls.gamepads[i].fire_held {
            return true;
        }
        i = i + 1;
    }
    false
}

} // verus!
