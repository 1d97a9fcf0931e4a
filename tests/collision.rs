use space_invaders::collision::{
    destruction_sound, detect_collision, roll_destruction_sounds, DESTRUCTION_SOUNDS,
};
use space_invaders::field::{COLLISION_DIST, UNIT};
use space_invaders::projectile::Bullet;
use space_invaders::swarm::Alien;

#[test]
fn pair_within_distance_is_removed() {
    let mut bullets = vec![Bullet { x: 0, y: 0 }];
    let mut aliens = vec![Alien { x: COLLISION_DIST, y: -COLLISION_DIST }];
    assert_eq!(detect_collision(&mut bullets, &mut aliens), 1);
    assert!(bullets.is_empty());
    assert!(aliens.is_empty());
}

#[test]
fn pair_just_beyond_distance_is_kept() {
    let mut bullets = vec![Bullet { x: 0, y: 0 }];
    let mut aliens = vec![Alien { x: COLLISION_DIST + 1, y: 0 }];
    assert_eq!(detect_collision(&mut bullets, &mut aliens), 0);
    assert_eq!(bullets.len(), 1);
    assert_eq!(aliens.len(), 1);

    let mut aliens = vec![Alien { x: 0, y: -COLLISION_DIST - 1 }];
    assert_eq!(detect_collision(&mut bullets, &mut aliens), 0);
    assert_eq!(bullets.len(), 1);
    assert_eq!(aliens.len(), 1);
}

#[test]
fn box_test_is_not_circular() {
    let mut bullets = vec![Bullet { x: 0, y: 0 }];
    let mut aliens = vec![Alien { x: COLLISION_DIST, y: COLLISION_DIST }];
    assert_eq!(detect_collision(&mut bullets, &mut aliens), 1);
}

#[test]
fn a_projectile_destroys_one_alien_only() {
    let mut bullets = vec![Bullet { x: 0, y: 0 }];
    let mut aliens = vec![
        Alien { x: 50 * UNIT, y: 0 },
        Alien { x: UNIT, y: 0 },
        Alien { x: -UNIT, y: 0 },
    ];
    assert_eq!(detect_collision(&mut bullets, &mut aliens), 1);
    assert!(bullets.is_empty());
    assert_eq!(aliens, vec![Alien { x: 50 * UNIT, y: 0 }, Alien { x: -UNIT, y: 0 }]);
}

#[test]
fn two_projectiles_on_one_alien() {
    let mut bullets = vec![Bullet { x: 0, y: 0 }, Bullet { x: UNIT, y: 0 }];
    let mut aliens = vec![Alien { x: 0, y: UNIT }];
    assert_eq!(detect_collision(&mut bullets, &mut aliens), 1);
    assert_eq!(bullets, vec![Bullet { x: UNIT, y: 0 }]);
    assert!(aliens.is_empty());
}

#[test]
fn nothing_to_collide() {
    let mut bullets: Vec<Bullet> = Vec::new();
    let mut aliens = vec![Alien { x: 0, y: 0 }];
    assert_eq!(detect_collision(&mut bullets, &mut aliens), 0);
    assert_eq!(aliens.len(), 1);
}

#[test]
fn low_rolls_select_a_sound() {
    assert_eq!(destruction_sound(0), Some(0));
    assert_eq!(destruction_sound(4), Some(4));
    assert_eq!(destruction_sound(5), None);
    assert_eq!(destruction_sound(9), None);
}

#[test]
fn rolled_sounds_are_valid_and_some_are_selected() {
    let sounds = roll_destruction_sounds(200);
    assert!(sounds.len() <= 200);
    assert!(!sounds.is_empty());
    assert!(sounds.iter().all(|&s| s < DESTRUCTION_SOUNDS));
    assert!(roll_destruction_sounds(0).is_empty());
}
