use space_invaders::field::{
    ALIEN_FLOOR, ALIEN_SPEED, GRID_SIZE, HALF_HEIGHT, HALF_WIDTH, ROW_STEP, UNIT,
};
use space_invaders::swarm::{Alien, Direction, Motion, Swarm};

/// One sixty-fourth of a second: the swarm covers exactly one unit.
const TICK_ONE_UNIT: u64 = 15_625;

fn swarm_of(points: &[(i64, i64)], motion: Motion) -> Swarm {
    Swarm { aliens: points.iter().map(|&(x, y)| Alien { x, y }).collect(), motion }
}

fn advance(s: &mut Swarm, dt: u64) {
    assert!(s.can_advance(dt));
    s.advance(dt);
}

#[test]
fn grid_has_three_rows_of_eight() {
    let s = Swarm::spawn_grid();
    assert_eq!(s.aliens.len(), GRID_SIZE);
    assert_eq!(s.aliens.len(), 24);
    assert_eq!(s.motion, Motion::Horizontal(Direction::Right));
    assert_eq!(s.aliens[0], Alien { x: -128 * UNIT, y: 128 * UNIT });
    assert_eq!(s.aliens[7], Alien { x: -30 * UNIT, y: 128 * UNIT });
    assert_eq!(s.aliens[8], Alien { x: -128 * UNIT, y: 114 * UNIT });
    assert_eq!(s.aliens[23], Alien { x: -30 * UNIT, y: 100 * UNIT });
}

#[test]
fn sweep_moves_by_speed_times_dt() {
    let mut s = swarm_of(&[(0, 0), (10 * UNIT, 5 * UNIT)], Motion::Horizontal(Direction::Right));
    advance(&mut s, 250_000);
    assert_eq!(s.aliens[0], Alien { x: 16 * UNIT, y: 0 });
    assert_eq!(s.aliens[1], Alien { x: 26 * UNIT, y: 5 * UNIT });
    assert_eq!(s.motion, Motion::Horizontal(Direction::Right));

    let mut s = swarm_of(&[(0, 0)], Motion::Horizontal(Direction::Left));
    advance(&mut s, 1_000_000);
    assert_eq!(s.aliens[0].x, -ALIEN_SPEED * 1_000_000);
}

#[test]
fn zero_tick_moves_nothing() {
    let mut s = swarm_of(&[(3, 4)], Motion::Horizontal(Direction::Left));
    advance(&mut s, 0);
    assert_eq!(s.aliens[0], Alien { x: 3, y: 4 });
    assert_eq!(s.motion, Motion::Horizontal(Direction::Left));
}

#[test]
fn stopped_swarm_stays_put() {
    let mut s = swarm_of(&[(1, 2), (3, 4)], Motion::Stopped);
    advance(&mut s, 1_000_000);
    assert_eq!(s.aliens, vec![Alien { x: 1, y: 2 }, Alien { x: 3, y: 4 }]);
    assert_eq!(s.motion, Motion::Stopped);
}

#[test]
fn crossing_right_edge_starts_descent_to_the_left() {
    let mut s = swarm_of(&[(127 * UNIT, 0), (0, 0)], Motion::Horizontal(Direction::Right));
    advance(&mut s, TICK_ONE_UNIT);
    assert_eq!(s.aliens[0].x, HALF_WIDTH);
    assert_eq!(s.motion, Motion::Descending { remaining: ROW_STEP, next: Direction::Left });
}

#[test]
fn crossing_left_edge_starts_descent_to_the_right() {
    let mut s = swarm_of(&[(-127 * UNIT, 0)], Motion::Horizontal(Direction::Left));
    advance(&mut s, 7_812);
    assert_eq!(s.motion, Motion::Horizontal(Direction::Left));
    advance(&mut s, 7_813);
    assert_eq!(s.aliens[0].x, -HALF_WIDTH);
    assert_eq!(s.motion, Motion::Descending { remaining: ROW_STEP, next: Direction::Right });
}

#[test]
fn descent_lowers_and_counts_down() {
    let mut s = swarm_of(&[(5, 0)], Motion::Descending { remaining: ROW_STEP, next: Direction::Left });
    advance(&mut s, 4 * TICK_ONE_UNIT);
    assert_eq!(s.aliens[0], Alien { x: 5, y: -4 * UNIT });
    assert_eq!(s.motion, Motion::Descending { remaining: 10 * UNIT, next: Direction::Left });
}

#[test]
fn descent_completes_after_a_full_row_step() {
    let mut s = swarm_of(&[(HALF_WIDTH, 0)], Motion::Horizontal(Direction::Right));
    advance(&mut s, TICK_ONE_UNIT);
    assert_eq!(s.motion, Motion::Descending { remaining: ROW_STEP, next: Direction::Left });
    for _ in 0..13 {
        advance(&mut s, TICK_ONE_UNIT);
        assert!(matches!(s.motion, Motion::Descending { .. }));
    }
    advance(&mut s, TICK_ONE_UNIT);
    assert_eq!(s.motion, Motion::Horizontal(Direction::Left));
    assert_eq!(s.aliens[0].y, -14 * UNIT);
    advance(&mut s, TICK_ONE_UNIT);
    assert_eq!(s.aliens[0].x, HALF_WIDTH);
}

#[test]
fn long_tick_ends_descent_at_once() {
    let mut s = swarm_of(&[(0, 0)], Motion::Descending { remaining: ROW_STEP, next: Direction::Right });
    advance(&mut s, 1_000_000);
    assert_eq!(s.motion, Motion::Horizontal(Direction::Right));
    assert_eq!(s.aliens[0].y, -64 * UNIT);
}

#[test]
fn reaching_the_floor_stops_the_swarm() {
    let mut s = swarm_of(&[(0, ALIEN_FLOOR + UNIT), (0, 0)], Motion::Descending {
        remaining: ROW_STEP,
        next: Direction::Right,
    });
    advance(&mut s, TICK_ONE_UNIT);
    assert_eq!(s.aliens[0].y, ALIEN_FLOOR);
    assert_eq!(s.motion, Motion::Stopped);
    advance(&mut s, TICK_ONE_UNIT);
    assert_eq!(s.aliens[0].y, ALIEN_FLOOR);
}

#[test]
fn single_alien_flips_after_three_point_nine_three_seven_five_seconds() {
    let mut s = swarm_of(&[(-124 * UNIT, HALF_HEIGHT)], Motion::Horizontal(Direction::Right));
    advance(&mut s, 3_937_499);
    assert_eq!(s.motion, Motion::Horizontal(Direction::Right));
    let mut s = swarm_of(&[(-124 * UNIT, HALF_HEIGHT)], Motion::Horizontal(Direction::Right));
    advance(&mut s, 3_937_500);
    assert_eq!(s.aliens[0].x, 128 * UNIT);
    assert_eq!(s.motion, Motion::Descending { remaining: ROW_STEP, next: Direction::Left });
}

#[test]
fn grid_flips_exactly_once_in_three_point_nine_three_seven_five_seconds() {
    let mut s = Swarm::spawn_grid();
    let mut flips = 0;
    let mut previous = s.motion;
    for _ in 0..252 {
        advance(&mut s, TICK_ONE_UNIT);
        if let (Motion::Horizontal(_), Motion::Descending { .. }) = (previous, s.motion) {
            flips += 1;
        }
        previous = s.motion;
    }
    assert_eq!(flips, 1);
    assert_eq!(s.motion, Motion::Horizontal(Direction::Left));
}

#[test]
fn overflowing_tick_is_refused() {
    let s = swarm_of(&[(i64::MAX - 10, 0)], Motion::Horizontal(Direction::Right));
    assert!(!s.can_advance(1));
    assert!(s.can_advance(0));
    let s = swarm_of(&[], Motion::Horizontal(Direction::Right));
    assert!(!s.can_advance(u64::MAX));
}

#[test]
fn direction_other_flips() {
    assert_eq!(Direction::Left.other(), Direction::Right);
    assert_eq!(Direction::Right.other(), Direction::Left);
}
