use rand::Rng;
use vstd::prelude::*;

use crate::field::COLLISION_DIST;
use crate::projectile::Bullet;
use crate::swarm::{abs, Alien};

verus! {

/// Number of values a destruction sound roll is drawn from.
pub const SOUND_ROLL_RANGE: usize = 10;

/// Number of destruction sounds; a roll below it selects the sound of that index.
pub const DESTRUCTION_SOUNDS: usize = 5;

/// A projectile and an alien are within `COLLISION_DIST` on both axes.
pub open spec fn near(b: Bullet, a: Alien) -> bool {
    abs(a.x - b.x) <= COLLISION_DIST && abs(a.y - b.y) <= COLLISION_DIST
}

pub open spec fn hits_any(b: Bullet, aliens: Seq<Alien>) -> bool {
    exists|j: int| 0 <= j < aliens.len() && #[trigger] near(b, aliens[j])
}

/// `j` is the first alien that `b` hits.
pub open spec fn is_first_hit(b: Bullet, aliens: Seq<Alien>, j: int) -> bool {
    &&& 0 <= j < aliens.len()
    &&& near(b, aliens[j])
    &&& forall|k: int| 0 <= k < j ==> !#[trigger] near(b, aliens[k])
}

pub open spec fn first_hit(b: Bullet, aliens: Seq<Alien>) -> int {
    choose|j: int| is_first_hit(b, aliens, j)
}

/// One pass of the resolver: the projectiles in order, each against the
/// aliens still alive. A projectile that hits is consumed together with the
/// first alien it hits; one that hits nothing is kept. Returns the kept
/// projectiles and the aliens left.
pub open spec fn resolve(bullets: Seq<Bullet>, aliens: Seq<Alien>) -> (Seq<Bullet>, Seq<Alien>)
    decreases bullets.len(),
{
    if bullets.len() == 0 {
        (Seq::empty(), aliens)
    } else {
        let (kept, left) = resolve(bullets.drop_last(), aliens);
        let b = bullets.last();
        if hits_any(b, left) {
            (kept, left.remove(first_hit(b, left)))
        } else {
            (kept.push(b), left)
        }
    }
}

/// Each hit removes one projectile and one alien.
proof fn resolve_counts(bullets: Seq<Bullet>, aliens: Seq<Alien>)
    ensures
        resolve(bullets, aliens).0.len() <= bullets.len(),
        bullets.len() - resolve(bullets, aliens).0.len() == aliens.len() - resolve(
            bullets,
            aliens,
        ).1.len(),
    decreases bullets.len(),
{
    if bullets.len() > 0 {
        resolve_counts(bullets.drop_last(), aliens);
        let (kept, left) = resolve(bullets.drop_last(), aliens);
        let b = bullets.last();
        if hits_any(b, left) {
            let j = choose|j: int| 0 <= j < left.len() && #[trigger] near(b, left[j]);
            first_hit_exists(b, left, j);
        }
    }
}

/// Whenever `b` hits some alien, the first alien it hits is well defined.
proof fn first_hit_exists(b: Bullet, aliens: Seq<Alien>, j: int)
    requires
        0 <= j < aliens.len(),
        near(b, aliens[j]),
    ensures
        is_first_hit(b, aliens, first_hit(b, aliens)),
    decreases j,
{
    if forall|k: int| 0 <= k < j ==> !#[trigger] near(b, aliens[k]) {
        assert(is_first_hit(b, aliens, j));
    } else {
        let k = choose|k: int| 0 <= k < j && #[trigger] near(b, aliens[k]);
        first_hit_exists(b, aliens, k);
    }
}

/// A pass over one projectile and one alien removes both when they are within
/// `COLLISION_DIST` of each other on both axes, and removes neither when they
/// are farther apart than that on either axis.
pub proof fn single_pair_resolution(b: Bullet, a: Alien)
    ensures
        near(b, a) ==> resolve(seq![b], seq![a]) == (Seq::<Bullet>::empty(), Seq::<Alien>::empty()),
        !near(b, a) ==> resolve(seq![b], seq![a]) == (seq![b], seq![a]),
{
    let bs = seq![b];
    let aliens = seq![a];
    assert(bs.drop_last() =~= Seq::<Bullet>::empty());
    assert(resolve(Seq::<Bullet>::empty(), aliens) == (Seq::<Bullet>::empty(), aliens));
    if near(b, a) {
        assert(near(b, aliens[0]));
        first_hit_exists(b, aliens, 0);
        assert(aliens.remove(0) =~= Seq::<Alien>::empty());
    } else {
        assert(!hits_any(b, aliens)) by {
            assert forall|j: int| 0 <= j < aliens.len() implies !#[trigger] near(b, aliens[j]) by {
                assert(aliens[j] == a);
            }
        }
        assert(Seq::<Bullet>::empty().push(b) =~= bs);
    }
}

fn is_near(b: Bullet, a: Alien) -> (r: bool)
    ensures
        r == near(b, a),
{
    let dx: i128 = (a.x as i128) - (b.x as i128);
    let dy: i128 = (a.y as i128) - (b.y as i128);
    -(COLLISION_DIST as i128) <= dx && dx <= COLLISION_DIST as i128 && -(COLLISION_DIST as i128)
        <= dy && dy <= COLLISION_DIST as i128
}

/// Index of the first alien that `b` hits, if any.
fn find_hit(b: Bullet, aliens: &Vec<Alien>) -> (r: Option<usize>)
    ensures
        r matches Some(j) ==> j == first_hit(b, aliens@) && is_first_hit(b, aliens@, j as int),
        r is None ==> !hits_any(b, aliens@),
{
    let n = aliens.len();
    let mut j: usize = 0;
    while j < n
        invariant
            n == aliens@.len(),
            j <= n,
            forall|k: int| 0 <= k < j ==> !#[trigger] near(b, aliens@[k]),
        decreases n - j,
    {
        if is_near(b, aliens[j]) {
            proof {
                assert(is_first_hit(b, aliens@, j as int));
                first_hit_exists(b, aliens@, j as int);
                let f = first_hit(b, aliens@);
                assert(f == j as int) by {
                    if f < j {
                        assert(!near(b, aliens@[f]));
                    } else if f > j {
                        assert(near(b, aliens@[j as int]));
                    }
                }
            }
            return Some(j);
        }
        j = j + 1;
    }
    None
}

/// Resolves the collisions of one tick: every projectile that hits an alien
/// still alive is removed together with the first such alien. Returns the
/// number of hits.
pub fn detect_collision(bullets: &mut Vec<Bullet>, aliens: &mut Vec<Alien>) -> (hits: usize)
    ensures
        (final(bullets)@, final(aliens)@) == resolve(old(bullets)@, old(aliens)@),
        hits == old(bullets)@.len() - final(bullets)@.len(),
        hits == old(aliens)@.len() - final(aliens)@.len(),
{
    let ghost initial_aliens = aliens@;
    let n = bullets.len();
    let mut kept: Vec<Bullet> = Vec::with_capacity(n);
    let mut hits: usize = 0;
    let mut i: usize = 0;
    while i < n
        invariant
            *bullets == *old(bullets),
            initial_aliens == old(aliens)@,
            n == bullets@.len(),
            i <= n,
            (kept@, aliens@) == resolve(bullets@.take(i as int), initial_aliens),
            hits == i - kept@.len(),
        decreases n - i,
    {
        let b = bullets[i];
        assert(bullets@.take(i as int + 1).drop_last() =~= bullets@.take(i as int));
        assert(bullets@.take(i as int + 1).last() == b);
        proof {
            resolve_counts(bullets@.take(i as int), initial_aliens);
        }
        match find_hit(b, aliens) {
            Some(j) => {
                aliens.remove(j);
                hits = hits + 1;
            },
            None => {
                kept.push(b);
            },
        }
        i = i + 1;
    }
    assert(bullets@.take(n as int) =~= bullets@);
    proof {
        resolve_counts(bullets@, initial_aliens);
    }
    *bullets = kept;
    hits
}

/// Relies on rand's `thread_rng` and `Rng::gen_range`: a value drawn from
/// `0..bound`, which is below `bound` (the call panics on an empty range).
#[verifier::external_body]
fn draw_below(bound: usize) -> (r: usize)
    requires
        bound > 0,
    ensures
        r < bound,
{
    rand::thread_rng().gen_range(0..bound)
}

/// The destruction sound that a roll selects: rolls below
/// `DESTRUCTION_SOUNDS` pick the sound of that index, the others none.
pub fn destruction_sound(roll: usize) -> (r: Option<usize>)
    ensures
        r == (if roll < DESTRUCTION_SOUNDS {
            Some(roll)
        } else {
            None
        }),
{
    if roll < DESTRUCTION_SOUNDS {
        Some(roll)
    } else {
        None
    }
}

/// Rolls a destruction sound for each of `hits` destroyed aliens, drawing
/// from `0..SOUND_ROLL_RANGE`, and returns the sounds selected, in order.
pub fn roll_destruction_sounds(hits: usize) -> (sounds: Vec<usize>)
    ensures
        sounds@.len() <= hits,
        forall|i: int| 0 <= i < sounds@.len() ==> #[trigger] sounds@[i] < DESTRUCTION_SOUNDS,
{
    let mut sounds: Vec<usize> = Vec::new();
    let mut i: usize = 0;
    while i < hits
        invariant
            i <= hits,
            sounds@.len() <= i,
            forall|k: int| 0 <= k < sounds@.len() ==> #[trigger] sounds@[k] < DESTRUCTION_SOUNDS,
        decreases hits - i,
    {
        let roll = draw_below(SOUND_ROLL_RANGE);
        if let Some(sound) = destruction_sound(roll) {
            sounds.push(sound);
        }
        i = i + 1;
    }
    sounds
}

} // verus!
