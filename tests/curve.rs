use space_invaders::curve::{CurveError, Keyframe, MovementCurve, CURVE_LIMIT, GRID_SWEEP};
use space_invaders::field::{ROW_STEP, UNIT};
use space_invaders::swarm::Alien;

fn key(time: u64, x: i64, y: i64) -> Keyframe {
    Keyframe { time, x, y }
}

fn curve(keys: Vec<Keyframe>) -> MovementCurve {
    match MovementCurve::new(keys) {
        Ok(c) => c,
        Err(e) => panic!("valid keyframes refused: {:?}", e),
    }
}

#[test]
fn empty_keyframes_are_refused() {
    assert_eq!(MovementCurve::new(Vec::new()).err(), Some(CurveError::Empty));
}

#[test]
fn non_increasing_times_are_refused() {
    let keys = vec![key(0, 0, 0), key(10, 1, 1), key(10, 2, 2)];
    assert_eq!(MovementCurve::new(keys).err(), Some(CurveError::NotIncreasing));
    let keys = vec![key(5, 0, 0), key(4, 1, 1)];
    assert_eq!(MovementCurve::new(keys).err(), Some(CurveError::NotIncreasing));
}

#[test]
fn out_of_range_coordinates_are_refused() {
    let keys = vec![key(0, 0, 0), key(10, CURVE_LIMIT + 1, 0)];
    assert_eq!(MovementCurve::new(keys).err(), Some(CurveError::OutOfRange));
    let keys = vec![key(0, 0, -CURVE_LIMIT), key(10, CURVE_LIMIT, 0)];
    assert!(MovementCurve::new(keys).is_ok());
}

#[test]
fn sampling_interpolates_and_clamps() {
    let c = curve(vec![key(100, 0, 0), key(200, 10, -10), key(300, 10, -30)]);
    assert_eq!(c.sample(0), (0, 0));
    assert_eq!(c.sample(100), (0, 0));
    assert_eq!(c.sample(150), (5, -5));
    assert_eq!(c.sample(199), (9, -9));
    assert_eq!(c.sample(200), (10, -10));
    assert_eq!(c.sample(250), (10, -20));
    assert_eq!(c.sample(300), (10, -30));
    assert_eq!(c.sample(u64::MAX), (10, -30));
}

#[test]
fn single_keyframe_holds_everywhere() {
    let c = curve(vec![key(7, 3, 4)]);
    assert_eq!(c.sample(0), (3, 4));
    assert_eq!(c.sample(1_000), (3, 4));
}

#[test]
fn zig_zag_goes_right_down_left_down() {
    let c = match MovementCurve::zig_zag(100, 20, 2, 2) {
        Ok(c) => c,
        Err(e) => panic!("zig-zag refused: {:?}", e),
    };
    assert_eq!(c.sample(0), (0, 0));
    assert_eq!(c.sample(25), (50, 0));
    assert_eq!(c.sample(50), (100, 0));
    assert_eq!(c.sample(55), (100, -10));
    assert_eq!(c.sample(60), (100, -20));
    assert_eq!(c.sample(110), (0, -20));
    assert_eq!(c.sample(120), (0, -40));
    assert_eq!(c.sample(1_000), (0, -40));
}

#[test]
fn zig_zag_too_fast_to_take_time_is_refused() {
    assert_eq!(MovementCurve::zig_zag(10, 1, 2, 1).err(), Some(CurveError::NotIncreasing));
    assert!(MovementCurve::zig_zag(10, 1, 2, 0).is_ok());
}

#[test]
fn swarm_path_uses_the_grid_sweep_and_row_step() {
    assert_eq!(GRID_SWEEP, 158 * UNIT);
    let c = MovementCurve::swarm_path(3);
    assert_eq!(c.sample(2_468_750), (158 * UNIT, 0));
    assert_eq!(c.sample(2_468_750 + 218_750), (158 * UNIT, -ROW_STEP));
    assert_eq!(c.sample(2 * 2_687_500), (0, -2 * ROW_STEP));
    assert_eq!(c.sample(u64::MAX), (158 * UNIT, -3 * ROW_STEP));
}

#[test]
fn alien_follows_the_curve_from_its_spawn() {
    let c = curve(vec![key(0, 0, 0), key(1_000, 100, 0)]);
    let origin = Alien { x: -50, y: 7 };
    assert_eq!(c.position_at(origin, 500, 400), Alien { x: -50, y: 7 });
    assert_eq!(c.position_at(origin, 500, 1_000), Alien { x: 0, y: 7 });
    assert_eq!(c.position_at(origin, 500, 5_000), Alien { x: 50, y: 7 });
}
