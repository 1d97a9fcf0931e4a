use vstd::prelude::*;

use crate::field::DEFENSE_LINE;
use crate::swarm::Alien;

verus! {

pub open spec fn below_defense(a: Alien) -> bool {
    a.y <= DEFENSE_LINE
}

/// The outcome of a match as the swarm stands: a win once no alien is left,
/// a loss once an alien is at or below the defense line, else none yet.
pub open spec fn outcome_of(aliens: Seq<Alien>) -> Option<bool> {
    if aliens.len() == 0 {
        Some(true)
    } else if exists|i: int| 0 <= i < aliens.len() && #[trigger] below_defense(aliens[i]) {
        Some(false)
    } else {
        None
    }
}

/// `Some(true)` when the swarm is empty, `Some(false)` when an alien is at
/// or below the defense line, `None` while the match goes on.
pub fn detect_win_or_loss(aliens: &Vec<Alien>) -> (r: Option<bool>)
    ensures
        r == outcome_of(aliens@),
{
    let n = aliens.len();
    if n == 0 {
        return Some(true);
    }
    let mut i: usize = 0;
    while i < n
        invariant
            n == aliens@.len(),
            i <= n,
            forall|j: int| 0 <= j < i ==> !#[trigger] below_defense(aliens@[j]),
        decreases n - i,
    {
        if aliens[i].y <= DEFENSE_LINE {
            assert(below_defense(aliens@[i as int]));
            return Some(false);
        }
        i = i + 1;
    }
    None
}

/// Whether the win sound must start: the swarm is empty and the sound is not
/// playing already.
pub fn detect_win(aliens: &Vec<Alien>, win_sound_playing: bool) -> (start: bool)
    ensures
        start == (aliens@.len() == 0 && !win_sound_playing),
{
    aliens.len() == 0 && !win_sound_playing
}

} // verus!
