use space_invaders::field::{DEFENSE_LINE, HALF_HEIGHT, PADDING, PLAYER_HEIGHT, UNIT};
use space_invaders::outcome::{detect_win, detect_win_or_loss};
use space_invaders::swarm::Alien;

#[test]
fn empty_swarm_is_a_win() {
    assert_eq!(detect_win_or_loss(&Vec::new()), Some(true));
}

#[test]
fn alien_on_defense_line_is_a_loss() {
    assert_eq!(DEFENSE_LINE, -HALF_HEIGHT + 4_500_000 + PLAYER_HEIGHT + PADDING);
    assert_eq!(DEFENSE_LINE, -75_500_000);
    let aliens = vec![Alien { x: 0, y: 0 }, Alien { x: 0, y: DEFENSE_LINE }];
    assert_eq!(detect_win_or_loss(&aliens), Some(false));
}

#[test]
fn alien_above_defense_line_goes_on() {
    let aliens = vec![Alien { x: 0, y: DEFENSE_LINE + 1 }, Alien { x: 0, y: 100 * UNIT }];
    assert_eq!(detect_win_or_loss(&aliens), None);
}

#[test]
fn win_sound_starts_once() {
    assert!(detect_win(&Vec::new(), false));
    assert!(!detect_win(&Vec::new(), true));
    assert!(!detect_win(&vec![Alien { x: 0, y: 0 }], false));
}
