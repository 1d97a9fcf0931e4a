use vstd::prelude::*;

use crate::field::{ALIEN_SPEED, COLUMN_STEP, HALF_WIDTH, ROW_STEP};
use crate::swarm::Alien;

verus! {

/// Largest magnitude of a keyframe coordinate, and of an alien's origin when
/// it follows a curve.
pub const CURVE_LIMIT: i64 = 0x2000_0000_0000_0000;

/// Horizontal distance of one sweep of the spawn grid, from flush against
/// one edge of the field to flush against the other: the grid's eight
/// columns span seven column steps.
pub const GRID_SWEEP: i64 = 2 * HALF_WIDTH - 7 * COLUMN_STEP;

/// Largest number of sweeps that `MovementCurve::swarm_path` builds.
pub const MAX_SWARM_SWEEPS: u64 = 1_000_000;

/// A sample of a movement curve: the offset at a point in time.
#[derive(Clone, Copy, Debug, PartialEq, Eq, Structural)]
pub struct Keyframe {
    /// Microseconds since the start of the curve.
    pub time: u64,
    pub x: i64,
    pub y: i64,
}

/// Why a movement curve cannot be built from a keyframe sequence.
#[derive(Clone, Copy, Debug, PartialEq, Eq, Structural)]
pub enum CurveError {
    /// There is no keyframe.
    Empty,
    /// A coordinate lies beyond `CURVE_LIMIT`.
    OutOfRange,
    /// The keyframe times do not strictly increase.
    NotIncreasing,
}

pub open spec fn in_range(k: Keyframe) -> bool {
    -CURVE_LIMIT <= k.x <= CURVE_LIMIT && -CURVE_LIMIT <= k.y <= CURVE_LIMIT
}

pub open spec fn all_in_range(ks: Seq<Keyframe>) -> bool {
    forall|i: int| 0 <= i < ks.len() ==> #[trigger] in_range(ks[i])
}

pub open spec fn increasing(ks: Seq<Keyframe>) -> bool {
    forall|i: int, j: int| 0 <= i < j < ks.len() ==> #[trigger] ks[i].time < #[trigger] ks[j].time
}

/// What building a curve from `ks` yields.
pub open spec fn curve_check(ks: Seq<Keyframe>) -> Result<(), CurveError> {
    if ks.len() == 0 {
        Err(CurveError::Empty)
    } else if !all_in_range(ks) {
        Err(CurveError::OutOfRange)
    } else if !increasing(ks) {
        Err(CurveError::NotIncreasing)
    } else {
        Ok(())
    }
}

/// `a / b` rounded toward zero, for `b > 0`.
pub open spec fn div_toward_zero(a: int, b: int) -> int {
    if a >= 0 {
        a / b
    } else {
        -((-a) / b)
    }
}

/// The value a fraction `num / den` of the way from `a` to `b`, rounded
/// toward `a`.
pub open spec fn lerp(a: int, b: int, num: int, den: int) -> int {
    a + div_toward_zero((b - a) * num, den)
}

/// `j` starts the segment of the curve that holds time `t`.
pub open spec fn is_segment(ks: Seq<Keyframe>, t: int, j: int) -> bool {
    0 <= j < ks.len() - 1 && ks[j].time <= t < ks[j + 1].time
}

/// The curve's offset at time `t`: the first keyframe's up to its time, the
/// last keyframe's from its time on, and in between the linear interpolation
/// of the two keyframes around `t`.
pub open spec fn sample_at(ks: Seq<Keyframe>, t: int) -> (int, int) {
    if t <= ks[0].time {
        (ks[0].x as int, ks[0].y as int)
    } else if t >= ks.last().time {
        (ks.last().x as int, ks.last().y as int)
    } else {
        let j = choose|j: int| is_segment(ks, t, j);
        let (a, b) = (ks[j], ks[j + 1]);
        let num = t - a.time;
        let den = b.time - a.time;
        (lerp(a.x as int, b.x as int, num, den), lerp(a.y as int, b.y as int, num, den))
    }
}

/// Keyframe `k` of a zig-zag path: from the origin, sweeps of `sweep` steps
/// alternately right and left, each followed by a drop of `drop` steps, at
/// `speed` steps per microsecond. Keyframe `2 * i + 1` ends sweep `i`,
/// keyframe `2 * i + 2` ends the drop after it.
pub open spec fn zig_zag_point(sweep: int, drop: int, speed: int, k: int) -> Keyframe {
    let sweep_time = sweep / speed;
    let drop_time = drop / speed;
    let i = (k - 1) / 2;
    let x = if i % 2 == 0 {
        sweep
    } else {
        0
    };
    if k == 0 {
        Keyframe { time: 0, x: 0, y: 0 }
    } else if k % 2 == 1 {
        Keyframe {
            time: ((i + 1) * sweep_time + i * drop_time) as u64,
            x: x as i64,
            y: (-(i * drop)) as i64,
        }
    } else {
        Keyframe {
            time: ((i + 1) * (sweep_time + drop_time)) as u64,
            x: x as i64,
            y: (-((i + 1) * drop)) as i64,
        }
    }
}

pub open spec fn zig_zag_keyframes(sweep: int, drop: int, speed: int, sweeps: int) -> Seq<Keyframe> {
    Seq::new((2 * sweeps + 1) as nat, |k: int| zig_zag_point(sweep, drop, speed, k))
}

/// Time of keyframe `k` of a zig-zag path whose sweeps take `ts` and whose
/// drops take `td` microseconds.
spec fn zig_zag_time(ts: int, td: int, k: int) -> int {
    let i = (k - 1) / 2;
    if k == 0 {
        0
    } else if k % 2 == 1 {
        (i + 1) * ts + i * td
    } else {
        (i + 1) * (ts + td)
    }
}

proof fn zig_zag_time_facts(ts: int, td: int, k: int, sweeps: int)
    requires
        ts > 0,
        td > 0,
        0 <= k,
        k + 1 <= 2 * sweeps,
    ensures
        0 <= zig_zag_time(ts, td, k) < zig_zag_time(ts, td, k + 1) <= sweeps * (ts + td),
{
    let i = (k - 1) / 2;
    let j = k / 2;
    if k == 0 {
        assert(zig_zag_time(ts, td, 1) == ts) by (nonlinear_arith)
            requires
                zig_zag_time(ts, td, 1) == (0 + 1) * ts + 0 * td,
        ;
        assert(ts <= sweeps * (ts + td)) by (nonlinear_arith)
            requires
                sweeps >= 1,
                ts > 0,
                td > 0,
        ;
    } else if k % 2 == 1 {
        assert((k + 1 - 1) / 2 == i && (k + 1) % 2 == 0 && k == 2 * i + 1);
        assert(0 <= (i + 1) * ts + i * td < (i + 1) * (ts + td) <= sweeps * (ts + td)) by (nonlinear_arith)
            requires
                i >= 0,
                ts > 0,
                td > 0,
                2 * i + 2 <= 2 * sweeps,
        ;
    } else {
        assert(k == 2 * i + 2 && (k + 1 - 1) / 2 == i + 1 && (k + 1) % 2 == 1);
        assert(0 <= (i + 1) * (ts + td) < (i + 2) * ts + (i + 1) * td <= sweeps * (ts + td))
            by (nonlinear_arith)
            requires
                i >= 0,
                ts > 0,
                td > 0,
                2 * i + 3 <= 2 * sweeps,
        ;
    }
}

proof fn zig_zag_time_increasing(ts: int, td: int, a: int, b: int, sweeps: int)
    requires
        ts > 0,
        td > 0,
        0 <= a < b <= 2 * sweeps,
    ensures
        zig_zag_time(ts, td, a) < zig_zag_time(ts, td, b),
    decreases b - a,
{
    zig_zag_time_facts(ts, td, b - 1, sweeps);
    if a < b - 1 {
        zig_zag_time_increasing(ts, td, a, b - 1, sweeps);
    }
}

/// A zig-zag path whose sweeps and drops take some time, and whose numbers
/// fit, passes the curve check.
proof fn zig_zag_valid(sweep: int, drop: int, speed: int, sweeps: int)
    requires
        0 <= sweep <= CURVE_LIMIT,
        0 <= drop,
        speed > 0,
        0 <= sweeps,
        sweeps * drop <= CURVE_LIMIT,
        sweeps * (sweep / speed + drop / speed) <= u64::MAX,
        sweep / speed > 0,
        drop / speed > 0,
    ensures
        curve_check(zig_zag_keyframes(sweep, drop, speed, sweeps)) == Ok::<(), CurveError>(()),
{
    let ks = zig_zag_keyframes(sweep, drop, speed, sweeps);
    let ts = sweep / speed;
    let td = drop / speed;
    assert forall|k: int| 0 <= k < ks.len() implies #[trigger] ks[k].time == zig_zag_time(ts, td, k)
        && in_range(ks[k]) by {
        assert(ks[k] == zig_zag_point(sweep, drop, speed, k));
        if k > 0 {
            zig_zag_time_facts(ts, td, k - 1, sweeps);
            let i = (k - 1) / 2;
            assert(0 <= i * drop <= sweeps * drop && 0 <= (i + 1) * drop <= sweeps * drop)
                by (nonlinear_arith)
                requires
                    0 <= i,
                    2 * i + 1 <= 2 * sweeps,
                    drop >= 0,
            ;
        }
    }
    assert forall|k: int| 0 <= k < ks.len() implies #[trigger] in_range(ks[k]) by {
        assert(ks[k].time == zig_zag_time(ts, td, k));
    }
    assert forall|a: int, b: int| 0 <= a < b < ks.len() implies #[trigger] ks[a].time
        < #[trigger] ks[b].time by {
        zig_zag_time_increasing(ts, td, a, b, sweeps);
        assert(ks[a].time == zig_zag_time(ts, td, a));
        assert(ks[b].time == zig_zag_time(ts, td, b));
    }
}

/// A keyframed path that a swarm follows: strictly increasing times,
/// linearly interpolated, held at the first and last keyframes.
pub struct MovementCurve {
    keyframes: Vec<Keyframe>,
}

impl View for MovementCurve {
    type V = Seq<Keyframe>;

    closed spec fn view(&self) -> Seq<Keyframe> {
        self.keyframes@
    }
}

fn lerp_exec(a: i64, b: i64, num: u64, den: u64) -> (r: i64)
    requires
        -CURVE_LIMIT <= a <= CURVE_LIMIT,
        -CURVE_LIMIT <= b <= CURVE_LIMIT,
        num < den,
    ensures
        r == lerp(a as int, b as int, num as int, den as int),
        a <= b ==> a <= r <= b,
        b <= a ==> b <= r <= a,
{
    let d: i128 = b as i128 - a as i128;
    let m: i128 = if d < 0 {
        -d
    } else {
        d
    };
    assert(0 <= (m as int) * (num as int) <= 0x4000_0000_0000_0000 * 0x1_0000_0000_0000_0000)
        by (nonlinear_arith)
        requires
            0 <= m <= 0x4000_0000_0000_0000,
            0 <= num < 0x1_0000_0000_0000_0000,
    ;
    let p: i128 = m * (num as i128);
    let q: i128 = p / (den as i128);
    assert(0 <= q <= m) by (nonlinear_arith)
        requires
            q == (p as int) / (den as int),
            p == m * num,
            0 <= m,
            0 <= num < den,
    ;
    assert((d as int) * (num as int) == if d < 0 {
        -(p as int)
    } else {
        p as int
    }) by (nonlinear_arith)
        requires
            p == m * num,
            m == if d < 0 {
                -(d as int)
            } else {
                d as int
            },
    ;
    if d < 0 {
        (a as i128 - q) as i64
    } else {
        (a as i128 + q) as i64
    }
}

/// There is a segment of the curve that holds every `t` strictly between
/// the first and the last keyframe times, and only one.
proof fn segment_unique(ks: Seq<Keyframe>, t: int, j: int)
    requires
        increasing(ks),
        is_segment(ks, t, j),
    ensures
        (choose|i: int| is_segment(ks, t, i)) == j,
{
    let i = choose|i: int| is_segment(ks, t, i);
    assert(is_segment(ks, t, i));
    if i < j {
        assert(ks[i + 1].time <= ks[j].time) by {
            if i + 1 < j {
                assert(ks[i + 1].time < ks[j].time);
            }
        }
    } else if i > j {
        assert(ks[j + 1].time <= ks[i].time) by {
            if j + 1 < i {
                assert(ks[j + 1].time < ks[i].time);
            }
        }
    }
}

impl MovementCurve {
    pub open spec fn wf(&self) -> bool {
        curve_check(self@) == Ok::<(), CurveError>(())
    }

    /// Builds a curve from keyframes, checking that there is one at least,
    /// that every coordinate is within `CURVE_LIMIT`, and that the times
    /// strictly increase.
    pub fn new(keyframes: Vec<Keyframe>) -> (r: Result<MovementCurve, CurveError>)
        ensures
            match r {
                Ok(c) => c@ == keyframes@ && c.wf(),
                Err(e) => curve_check(keyframes@) == Err::<(), CurveError>(e),
            },
            r is Ok <==> curve_check(keyframes@) is Ok,
    {
        let n = keyframes.len();
        if n == 0 {
            return Err(CurveError::Empty);
        }
        let mut i: usize = 0;
        while i < n
            invariant
                n == keyframes@.len(),
                i <= n,
                forall|k: int| 0 <= k < i ==> #[trigger] in_range(keyframes@[k]),
            decreases n - i,
        {
            let k = keyframes[i];
            if k.x < -CURVE_LIMIT || k.x > CURVE_LIMIT || k.y < -CURVE_LIMIT || k.y > CURVE_LIMIT {
                assert(!in_range(keyframes@[i as int]));
                return Err(CurveError::OutOfRange);
            }
            i = i + 1;
        }
        let mut i: usize = 1;
        while i < n
            invariant
                n == keyframes@.len(),
                1 <= i <= n,
                all_in_range(keyframes@),
                forall|a: int, b: int|
                    0 <= a < b < i ==> #[trigger] keyframes@[a].time < #[trigger] keyframes@[b].time,
            decreases n - i,
        {
            if keyframes[i - 1].time >= keyframes[i].time {
                assert(!increasing(keyframes@)) by {
                    assert(!(keyframes@[i - 1].time < keyframes@[i as int].time));
                }
                return Err(CurveError::NotIncreasing);
            }
            assert forall|a: int, b: int| 0 <= a < b < i + 1 implies #[trigger] keyframes@[a].time
                < #[trigger] keyframes@[b].time by {
                if b == i && a < i - 1 {
                    assert(keyframes@[a].time < keyframes@[i - 1].time);
                }
            }
            i = i + 1;
        }
        Ok(MovementCurve { keyframes })
    }

    /// The zig-zag path of `sweeps` sweeps of `sweep` steps, each followed by
    /// a drop of `drop` steps, at `speed` steps per microsecond; the time of
    /// each sweep and drop is its distance over the speed, rounded down.
    pub fn zig_zag(sweep: i64, drop: i64, speed: i64, sweeps: u64) -> (r: Result<
        MovementCurve,
        CurveError,
    >)
        requires
            0 <= sweep <= CURVE_LIMIT,
            0 <= drop,
            speed > 0,
            sweeps * drop <= CURVE_LIMIT,
            sweeps * (sweep / speed + drop / speed) <= u64::MAX,
        ensures
            match r {
                Ok(c) => c@ == zig_zag_keyframes(sweep as int, drop as int, speed as int, sweeps as int),
                Err(e) => curve_check(
                    zig_zag_keyframes(sweep as int, drop as int, speed as int, sweeps as int),
                ) == Err::<(), CurveError>(e),
            },
            r is Ok <==> curve_check(
                zig_zag_keyframes(sweep as int, drop as int, speed as int, sweeps as int),
            ) is Ok,
            sweep / speed > 0 && drop / speed > 0 ==> r is Ok,
    {
        let ghost target = zig_zag_keyframes(sweep as int, drop as int, speed as int, sweeps as int);
        let sweep_time: u64 = (sweep / speed) as u64;
        let drop_time: u64 = (drop / speed) as u64;
        let mut keyframes: Vec<Keyframe> = Vec::new();
        keyframes.push(Keyframe { time: 0, x: 0, y: 0 });
        let mut time: u64 = 0;
        let mut x: i64 = 0;
        let mut y: i64 = 0;
        let mut i: u64 = 0;
        while i < sweeps
            invariant
                0 <= sweep <= CURVE_LIMIT,
                0 <= drop,
                speed > 0,
                sweeps * drop <= CURVE_LIMIT,
                sweeps * (sweep_time + drop_time) <= u64::MAX,
                sweep_time == sweep / speed,
                drop_time == drop / speed,
                i <= sweeps,
                time == i * (sweep_time + drop_time),
                y == -(i * drop),
                x == if i % 2 == 0 {
                    0
                } else {
                    sweep as int
                },
                keyframes@.len() == 2 * i + 1,
                forall|k: int|
                    0 <= k < keyframes@.len() ==> keyframes@[k] == #[trigger] zig_zag_point(
                        sweep as int,
                        drop as int,
                        speed as int,
                        k,
                    ),
            decreases sweeps - i,
        {
            assert(0 <= i * (sweep_time + drop_time) && (i + 1) * (sweep_time + drop_time) <= sweeps * (
            sweep_time + drop_time)) by (nonlinear_arith)
                requires
                    i < sweeps,
                    sweep_time >= 0,
                    drop_time >= 0,
            ;
            assert(0 <= i * drop && (i + 1) * drop <= sweeps * drop) by (nonlinear_arith)
                requires
                    i < sweeps,
                    drop >= 0,
            ;
            assert((i + 1) * (sweep_time + drop_time) == i * (sweep_time + drop_time) + sweep_time
                + drop_time) by (nonlinear_arith);
            assert((i + 1) * drop == i * drop + drop) by (nonlinear_arith);
            let swept: u64 = time + sweep_time;
            x = if i % 2 == 0 {
                sweep
            } else {
                0
            };
            let ghost k1 = 2 * i + 1;
            assert((k1 - 1) / 2 == i && k1 % 2 == 1) by (nonlinear_arith)
                requires
                    k1 == 2 * i + 1,
            ;
            assert(i * (sweep_time + drop_time) + sweep_time == (i + 1) * sweep_time + i * drop_time)
                by (nonlinear_arith);
            keyframes.push(Keyframe { time: swept, x, y });
            time = swept + drop_time;
            y = y - drop;
            let ghost k2 = 2 * i + 2;
            assert((k2 - 1) / 2 == i && k2 % 2 == 0) by (nonlinear_arith)
                requires
                    k2 == 2 * i + 2,
            ;
            keyframes.push(Keyframe { time, x, y });
            i = i + 1;
        }
        assert(keyframes@ =~= target);
        proof {
            if sweep / speed > 0 && drop / speed > 0 {
                zig_zag_valid(sweep as int, drop as int, speed as int, sweeps as int);
            }
        }
        MovementCurve::new(keyframes)
    }

    /// The spawn grid's path: `sweeps` sweeps of `GRID_SWEEP`, each followed
    /// by a drop of one row step, at `ALIEN_SPEED`.
    pub fn swarm_path(sweeps: u64) -> (r: MovementCurve)
        requires
            sweeps <= MAX_SWARM_SWEEPS,
        ensures
            r@ == zig_zag_keyframes(GRID_SWEEP as int, ROW_STEP as int, ALIEN_SPEED as int, sweeps as int),
            r.wf(),
    {
        assert(sweeps * ROW_STEP <= CURVE_LIMIT && sweeps * (GRID_SWEEP / ALIEN_SPEED + ROW_STEP
            / ALIEN_SPEED) <= u64::MAX) by (nonlinear_arith)
            requires
                sweeps <= 1_000_000,
                GRID_SWEEP == 158_000_000,
                ROW_STEP == 14_000_000,
                ALIEN_SPEED == 64,
        ;
        match MovementCurve::zig_zag(GRID_SWEEP, ROW_STEP, ALIEN_SPEED, sweeps) {
            Ok(c) => c,
            Err(_) => {
                assert(false);
                MovementCurve { keyframes: Vec::new() }
            },
        }
    }

    /// The curve's offset at `t` microseconds.
    pub fn sample(&self, t: u64) -> (r: (i64, i64))
        requires
            self.wf(),
        ensures
            (r.0 as int, r.1 as int) == sample_at(self@, t as int),
            -CURVE_LIMIT <= r.0 <= CURVE_LIMIT,
            -CURVE_LIMIT <= r.1 <= CURVE_LIMIT,
    {
        let ks = &self.keyframes;
        let n = ks.len();
        assert(in_range(ks@[0]));
        assert(in_range(ks@[n - 1]));
        if t <= ks[0].time {
            return (ks[0].x, ks[0].y);
        }
        if t >= ks[n - 1].time {
            return (ks[n - 1].x, ks[n - 1].y);
        }
        let mut j: usize = 0;
        while ks[j + 1].time <= t
            invariant
                n == ks@.len(),
                increasing(ks@),
                j < n - 1,
                ks@[j as int].time <= t,
                t < ks@[n - 1].time,
            decreases n - j,
        {
            j = j + 1;
        }
        proof {
            segment_unique(ks@, t as int, j as int);
        }
        let a = ks[j];
        let b = ks[j + 1];
        assert(in_range(ks@[j as int]));
        assert(in_range(ks@[j + 1]));
        let num: u64 = t - a.time;
        let den: u64 = b.time - a.time;
        (lerp_exec(a.x, b.x, num, den), lerp_exec(a.y, b.y, num, den))
    }

    /// Where an alien that spawned at `origin` at time `spawn` is at time
    /// `now`: its origin moved by the curve's offset at the time since it
    /// spawned (none before it spawned).
    pub fn position_at(&self, origin: Alien, spawn: u64, now: u64) -> (r: Alien)
        requires
            self.wf(),
            -CURVE_LIMIT <= origin.x <= CURVE_LIMIT,
            -CURVE_LIMIT <= origin.y <= CURVE_LIMIT,
        ensures
            ({
                let off = sample_at(self@, if now >= spawn { now - spawn } else { 0 });
                r.x == origin.x + off.0 && r.y == origin.y + off.1
            }),
    {
        let t: u64 = if now >= spawn {
            now - spawn
        } else {
            0
        };
        let (dx, dy) = self.sample(t);
        Alien { x: origin.x + dx, y: origin.y + dy }
    }
}

} // verus!
