use vstd::prelude::*;

use crate::field::{BULLET_SPEED, HALF_HEIGHT};

verus! {

/// A projectile fired by the player, flying upward.
#[derive(Clone, Copy, Debug, PartialEq, Eq, Structural)]
pub struct Bullet {
    pub x: i64,
    pub y: i64,
}

/// A fire command: where a new projectile starts.
#[derive(Clone, Copy, Debug, PartialEq, Eq, Structural)]
pub struct PlayerShot {
    pub x: i64,
    pub y: i64,
}

pub open spec fn bullet_points(bullets: Seq<Bullet>) -> Seq<(int, int)> {
    bullets.map_values(|b: Bullet| (b.x as int, b.y as int))
}

/// The projectile that the last fire command of a tick creates.
pub open spec fn bullet_of(shot: PlayerShot) -> Bullet {
    Bullet { x: shot.x, y: shot.y }
}

/// The projectiles after a tick's fire commands: only the last one of the
/// tick creates a projectile.
pub open spec fn after_shots(bullets: Seq<Bullet>, shots: Seq<PlayerShot>) -> Seq<Bullet> {
    if shots.len() == 0 {
        bullets
    } else {
        bullets.push(bullet_of(shots.last()))
    }
}

/// Height of a projectile after `dt` microseconds of flight.
pub open spec fn flown(y: int, dt: int) -> int {
    y + BULLET_SPEED * dt
}

/// The projectiles after a tick of `dt` microseconds: each moved up, and
/// those that reached the top edge of the field removed, order kept.
pub open spec fn moved_bullets(bullets: Seq<Bullet>, dt: int) -> Seq<Bullet>
    decreases bullets.len(),
{
    if bullets.len() == 0 {
        Seq::empty()
    } else {
        let rest = moved_bullets(bullets.drop_last(), dt);
        let b = bullets.last();
        if flown(b.y as int, dt) >= HALF_HEIGHT {
            rest
        } else {
            rest.push(Bullet { x: b.x, y: flown(b.y as int, dt) as i64 })
        }
    }
}

/// Creates the projectile of the last fire command of the tick, if any.
/// Returns whether one was created.
pub fn spawn_bullet(bullets: &mut Vec<Bullet>, shots: &Vec<PlayerShot>) -> (spawned: bool)
    ensures
        spawned == (shots@.len() > 0),
        final(bullets)@ == after_shots(old(bullets)@, shots@),
{
    let n = shots.len();
    if n == 0 {
        false
    } else {
        let last = shots[n - 1];
        bullets.push(Bullet { x: last.x, y: last.y });
        true
    }
}

/// Moves every projectile up by `BULLET_SPEED * dt` and removes those that
/// reached the top edge of the field.
pub fn move_bullets(bullets: &mut Vec<Bullet>, dt: u64)
    ensures
        final(bullets)@ == moved_bullets(old(bullets)@, dt as int),
{
    let n = bullets.len();
    let rise: i128 = (BULLET_SPEED as i128) * (dt as i128);
    let mut kept: Vec<Bullet> = Vec::with_capacity(n);
    let mut i: usize = 0;
    while i < n
        invariant
            *bullets == *old(bullets),
            n == bullets@.len(),
            i <= n,
            rise == BULLET_SPEED * dt,
            kept@ == moved_bullets(bullets@.take(i as int), dt as int),
        decreases n - i,
    {
        let b = bullets[i];
        let y: i128 = (b.y as i128) + rise;
        assert(bullets@.take(i as int + 1).drop_last() =~= bullets@.take(i as int));
        assert(bullets@.take(i as int + 1).last() == b);
        if y < HALF_HEIGHT as i128 {
            kept.push(Bullet { x: b.x, y: y as i64 });
        }
        i = i + 1;
    }
    assert(bullets@.take(n as int) =~= bullets@);
    *bullets = kept;
}

} // verus!
