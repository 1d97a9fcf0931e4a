use vstd::prelude::*;

use crate::field::{
    ALIEN_FLOOR, ALIEN_SPEED, COLUMN_STEP, GRID_COLUMNS, GRID_ROWS, GRID_SIZE, HALF_HEIGHT,
    HALF_WIDTH, ROW_STEP,
};

verus! {

/// One alien of the swarm, at its position.
#[derive(Clone, Copy, Debug, PartialEq, Eq, Structural)]
pub struct Alien {
    pub x: i64,
    pub y: i64,
}

/// Horizontal direction of a sweep.
#[derive(Clone, Copy, Debug, PartialEq, Eq, Structural)]
pub enum Direction {
    Left,
    Right,
}

impl Direction {
    pub open spec fn opposite(self) -> Direction {
        match self {
            Direction::Left => Direction::Right,
            Direction::Right => Direction::Left,
        }
    }

    /// `-1` for a sweep to the left, `1` for one to the right.
    pub open spec fn sign(self) -> int {
        match self {
            Direction::Left => -1,
            Direction::Right => 1,
        }
    }

    pub fn other(&self) -> (r: Direction)
        ensures
            r == self.opposite(),
            r.sign() == -self.sign(),
    {
        match self {
            Direction::Left => Direction::Right,
            Direction::Right => Direction::Left,
        }
    }
}

/// The one movement state shared by the whole swarm.
#[derive(Clone, Copy, Debug, PartialEq, Eq, Structural)]
pub enum Motion {
    /// Sweeping sideways.
    Horizontal(Direction),
    /// Dropping by `remaining` more steps, then sweeping towards `next`.
    Descending { remaining: i64, next: Direction },
    /// An alien reached the floor: the swarm no longer moves.
    Stopped,
}

/// The swarm as mathematical values: alien positions as integer pairs, and
/// the movement state.
pub struct SwarmModel {
    pub aliens: Seq<(int, int)>,
    pub motion: Motion,
}

pub open spec fn alien_points(aliens: Seq<Alien>) -> Seq<(int, int)> {
    aliens.map_values(|a: Alien| (a.x as int, a.y as int))
}

/// Every point moved by `(dx, dy)`.
pub open spec fn shift(points: Seq<(int, int)>, dx: int, dy: int) -> Seq<(int, int)> {
    points.map_values(|p: (int, int)| (p.0 + dx, p.1 + dy))
}

/// `x` lies on or beyond the field's edge that a sweep towards `d` runs into.
pub open spec fn past_edge(x: int, d: Direction) -> bool {
    match d {
        Direction::Left => x <= -HALF_WIDTH,
        Direction::Right => x >= HALF_WIDTH,
    }
}

pub open spec fn crosses_edge(points: Seq<(int, int)>, d: Direction) -> bool {
    exists|i: int| 0 <= i < points.len() && #[trigger] past_edge(points[i].0, d)
}

pub open spec fn below_floor(y: int) -> bool {
    y <= ALIEN_FLOOR
}

pub open spec fn reaches_floor(points: Seq<(int, int)>) -> bool {
    exists|i: int| 0 <= i < points.len() && #[trigger] below_floor(points[i].1)
}

/// Distance the swarm covers in `dt` microseconds.
pub open spec fn swarm_delta(dt: int) -> int {
    ALIEN_SPEED * dt
}

/// One tick of `dt` microseconds of the swarm's movement.
pub open spec fn step(m: SwarmModel, dt: int) -> SwarmModel {
    let delta = swarm_delta(dt);
    match m.motion {
        Motion::Horizontal(d) => {
            let moved = shift(m.aliens, d.sign() * delta, 0);
            SwarmModel {
                aliens: moved,
                motion: if crosses_edge(moved, d) {
                    Motion::Descending { remaining: ROW_STEP, next: d.opposite() }
                } else {
                    Motion::Horizontal(d)
                },
            }
        },
        Motion::Descending { remaining, next } => {
            let moved = shift(m.aliens, 0, -delta);
            SwarmModel {
                aliens: moved,
                motion: if reaches_floor(moved) {
                    Motion::Stopped
                } else if remaining <= delta {
                    Motion::Horizontal(next)
                } else {
                    Motion::Descending { remaining: (remaining - delta) as i64, next }
                },
            }
        },
        Motion::Stopped => m,
    }
}

/// The ticks of `dts` applied in order.
pub open spec fn run(m: SwarmModel, dts: Seq<int>) -> SwarmModel
    decreases dts.len(),
{
    if dts.len() == 0 {
        m
    } else {
        step(run(m, dts.drop_last()), dts.last())
    }
}

pub open spec fn fits_i64(v: int) -> bool {
    i64::MIN <= v <= i64::MAX
}

/// Every coordinate can be held in an `i64`.
pub open spec fn points_fit(points: Seq<(int, int)>) -> bool {
    forall|i: int|
        0 <= i < points.len() ==> fits_i64((#[trigger] points[i]).0) && fits_i64(points[i].1)
}

/// A tick of `dt` microseconds keeps every number of the swarm within `i64`.
pub open spec fn advance_fits(m: SwarmModel, dt: int) -> bool {
    &&& swarm_delta(dt) <= i64::MAX
    &&& points_fit(step(m, dt).aliens)
}

/// Position of the alien with index `k` in a freshly spawned swarm, filled
/// row by row from the top left.
pub open spec fn grid_point(k: int) -> (int, int) {
    (-HALF_WIDTH + (k % GRID_COLUMNS as int) * COLUMN_STEP, HALF_HEIGHT - (k / GRID_COLUMNS as int)
        * ROW_STEP)
}

/// A freshly spawned swarm: the full grid, sweeping right.
pub open spec fn initial_swarm() -> SwarmModel {
    SwarmModel {
        aliens: Seq::new(GRID_SIZE as nat, |k: int| grid_point(k)),
        motion: Motion::Horizontal(Direction::Right),
    }
}

/// Sum of the tick lengths of `dts`.
pub open spec fn total(dts: Seq<int>) -> int
    decreases dts.len(),
{
    if dts.len() == 0 {
        0
    } else {
        total(dts.drop_last()) + dts.last()
    }
}

pub open spec fn all_nonnegative(dts: Seq<int>) -> bool {
    forall|i: int| 0 <= i < dts.len() ==> #[trigger] dts[i] >= 0
}

pub open spec fn abs(v: int) -> int {
    if v < 0 {
        -v
    } else {
        v
    }
}

/// Every tick keeps the number of aliens. A sweeping swarm moves each alien
/// sideways by exactly `ALIEN_SPEED * dt`, towards its direction, and leaves
/// its height alone; a stopped swarm does not move at all.
pub proof fn sweep_displacement(m: SwarmModel, dt: int)
    requires
        dt >= 0,
    ensures
        step(m, dt).aliens.len() == m.aliens.len(),
        m.motion is Horizontal ==> forall|i: int|
            0 <= i < m.aliens.len() ==> {
                let before = m.aliens[i];
                let after = #[trigger] step(m, dt).aliens[i];
                &&& abs(after.0 - before.0) == ALIEN_SPEED * dt
                &&& after.0 - before.0 == m.motion->Horizontal_0.sign() * (ALIEN_SPEED * dt)
                &&& after.1 == before.1
            },
        m.motion is Stopped ==> step(m, dt) == m,
{
    assert(ALIEN_SPEED * dt >= 0) by (nonlinear_arith)
        requires
            dt >= 0,
            ALIEN_SPEED > 0,
    ;
}

/// A sweep towards `d` turns into a descent of one full row step towards the
/// opposite direction exactly on the tick after which an alien is on or past
/// the edge ahead; on any other tick the sweep goes on towards `d`. A descent
/// never changes the direction it will resume in, so each crossing flips the
/// direction once.
pub proof fn flip_at_edge(m: SwarmModel, dt: int)
    requires
        dt >= 0,
    ensures
        m.motion is Horizontal ==> {
            let d = m.motion->Horizontal_0;
            &&& crosses_edge(step(m, dt).aliens, d) ==> step(m, dt).motion == (Motion::Descending {
                remaining: ROW_STEP,
                next: d.opposite(),
            })
            &&& !crosses_edge(step(m, dt).aliens, d) ==> step(m, dt).motion == Motion::Horizontal(d)
            &&& d.opposite().sign() == -d.sign()
        },
        m.motion is Descending ==> {
            let next = m.motion->next;
            ||| step(m, dt).motion == Motion::Stopped
            ||| step(m, dt).motion == Motion::Horizontal(next)
            ||| step(m, dt).motion is Descending && step(m, dt).motion->next == next
        },
{
}

/// Once an alien is on or below the floor, it stays there.
proof fn floor_is_kept(m: SwarmModel, dt: int)
    requires
        dt >= 0,
        reaches_floor(m.aliens),
    ensures
        reaches_floor(step(m, dt).aliens),
{
    let i = choose|i: int| 0 <= i < m.aliens.len() && #[trigger] below_floor(m.aliens[i].1);
    assert(ALIEN_SPEED * dt >= 0) by (nonlinear_arith)
        requires
            dt >= 0,
            ALIEN_SPEED > 0,
    ;
    assert(below_floor(step(m, dt).aliens[i].1));
}

/// Descent ticks that together cover less than the remaining distance leave
/// the swarm descending, lowered by the distance covered.
proof fn partial_descent(m: SwarmModel, dts: Seq<int>)
    requires
        m.motion is Descending,
        all_nonnegative(dts),
        ALIEN_SPEED * total(dts) < m.motion->remaining,
        !reaches_floor(run(m, dts).aliens),
    ensures
        run(m, dts).motion == (Motion::Descending {
            remaining: (m.motion->remaining - ALIEN_SPEED * total(dts)) as i64,
            next: m.motion->next,
        }),
        run(m, dts).aliens == shift(m.aliens, 0, -(ALIEN_SPEED * total(dts))),
        0 <= ALIEN_SPEED * total(dts),
    decreases dts.len(),
{
    if dts.len() == 0 {
        assert(shift(m.aliens, 0, 0) =~= m.aliens);
    } else {
        let init = dts.drop_last();
        let last = dts.last();
        assert(all_nonnegative(init)) by {
            assert forall|i: int| 0 <= i < init.len() implies #[trigger] init[i] >= 0 by {
                assert(init[i] == dts[i]);
            }
        }
        assert(last >= 0) by {
            assert(dts[dts.len() - 1] >= 0);
        }
        assert(ALIEN_SPEED * total(dts) == ALIEN_SPEED * total(init) + ALIEN_SPEED * last)
            by (nonlinear_arith)
            requires
                total(dts) == total(init) + last,
        ;
        assert(ALIEN_SPEED * last >= 0) by (nonlinear_arith)
            requires
                last >= 0,
                ALIEN_SPEED > 0,
        ;
        let inner = run(m, init);
        if reaches_floor(inner.aliens) {
            floor_is_kept(inner, last);
        }
        partial_descent(m, init);
        let a = ALIEN_SPEED * total(init);
        let b = ALIEN_SPEED * last;
        assert(shift(shift(m.aliens, 0, -a), 0, -b) =~= shift(m.aliens, 0, -(a + b)));
    }
}

/// After the tick on which a sweep towards `d` flips, descent ticks whose
/// distances add up to at least one row step, where every tick but the last
/// covers less than that, bring the swarm back to sweeping, now towards the
/// opposite of `d`, unless an alien reached the floor on the way.
pub proof fn descent_completes(m: SwarmModel, dt0: int, dts: Seq<int>)
    requires
        m.motion is Horizontal,
        crosses_edge(step(m, dt0).aliens, m.motion->Horizontal_0),
        dt0 >= 0,
        all_nonnegative(dts),
        dts.len() > 0,
        ALIEN_SPEED * total(dts.drop_last()) < ROW_STEP,
        ALIEN_SPEED * total(dts) >= ROW_STEP,
        !reaches_floor(run(step(m, dt0), dts).aliens),
    ensures
        run(step(m, dt0), dts).motion == Motion::Horizontal(m.motion->Horizontal_0.opposite()),
{
    let flipped = step(m, dt0);
    let init = dts.drop_last();
    let last = dts.last();
    assert(all_nonnegative(init)) by {
        assert forall|i: int| 0 <= i < init.len() implies #[trigger] init[i] >= 0 by {
            assert(init[i] == dts[i]);
        }
    }
    assert(last >= 0) by {
        assert(dts[dts.len() - 1] >= 0);
    }
    let inner = run(flipped, init);
    if reaches_floor(inner.aliens) {
        floor_is_kept(inner, last);
    }
    partial_descent(flipped, init);
    assert(ALIEN_SPEED * total(dts) == ALIEN_SPEED * total(init) + ALIEN_SPEED * last)
        by (nonlinear_arith)
        requires
            total(dts) == total(init) + last,
    ;
}

/// The aliens and their shared movement state.
pub struct Swarm {
    pub aliens: Vec<Alien>,
    pub motion: Motion,
}

impl View for Swarm {
    type V = SwarmModel;

    open spec fn view(&self) -> SwarmModel {
        SwarmModel { aliens: alien_points(self.aliens@), motion: self.motion }
    }
}

impl Swarm {
    /// Spawns the full grid, sweeping right.
    pub fn spawn_grid() -> (r: Swarm)
        ensures
            r@ == initial_swarm(),
    {
        let mut aliens: Vec<Alien> = Vec::new();
        let mut row: usize = 0;
        while row < GRID_ROWS
            invariant
                row <= GRID_ROWS,
                aliens@.len() == row * GRID_COLUMNS,
                forall|k: int|
                    0 <= k < aliens@.len() ==> (aliens@[k].x as int, aliens@[k].y as int)
                        == #[trigger] grid_point(k),
            decreases GRID_ROWS - row,
        {
            let mut col: usize = 0;
            while col < GRID_COLUMNS
                invariant
                    row < GRID_ROWS,
                    col <= GRID_COLUMNS,
                    aliens@.len() == row * GRID_COLUMNS + col,
                    forall|k: int|
                        0 <= k < aliens@.len() ==> (aliens@[k].x as int, aliens@[k].y as int)
                            == #[trigger] grid_point(k),
                decreases GRID_COLUMNS - col,
            {
                assert(0 <= col * COLUMN_STEP <= 8 * COLUMN_STEP) by (nonlinear_arith)
                    requires
                        col < 8,
                        COLUMN_STEP > 0,
                ;
                assert(0 <= row * ROW_STEP <= 3 * ROW_STEP) by (nonlinear_arith)
                    requires
                        row < 3,
                        ROW_STEP > 0,
                ;
                let x: i64 = -HALF_WIDTH + (col as i64) * COLUMN_STEP;
                let y: i64 = HALF_HEIGHT - (row as i64) * ROW_STEP;
                proof {
                    let k = (row * GRID_COLUMNS + col) as int;
                    assert(k % GRID_COLUMNS as int == col as int && k / GRID_COLUMNS as int == row as int)
                        by (nonlinear_arith)
                        requires
                            k == row * GRID_COLUMNS + col,
                            col < GRID_COLUMNS,
                            GRID_COLUMNS == 8,
                    ;
                }
                aliens.push(Alien { x, y });
                col = col + 1;
            }
            row = row + 1;
        }
        let r = Swarm { aliens, motion: Motion::Horizontal(Direction::Right) };
        assert(r@.aliens =~= initial_swarm().aliens);
        r
    }

    /// Whether a tick of `dt` microseconds keeps every number within `i64`.
    pub fn can_advance(&self, dt: u64) -> (r: bool)
        ensures
            r == advance_fits(self@, dt as int),
    {
        if dt > (i64::MAX as u64) / (ALIEN_SPEED as u64) {
            assert(swarm_delta(dt as int) > i64::MAX) by (nonlinear_arith)
                requires
                    dt > i64::MAX / 64,
                    ALIEN_SPEED == 64,
            ;
            return false;
        }
        let delta: i64 = ALIEN_SPEED * (dt as i64);
        let n = self.aliens.len();
        let mut i: usize = 0;
        while i < n
            invariant
                n == self.aliens@.len(),
                i <= n,
                delta == swarm_delta(dt as int),
                delta <= i64::MAX,
                0 <= delta,
                forall|j: int| 0 <= j < i ==> {
                    let p = #[trigger] step(self@, dt as int).aliens[j];
                    fits_i64(p.0) && fits_i64(p.1)
                },
            decreases n - i,
        {
            let a = self.aliens[i];
            let ok = match self.motion {
                Motion::Horizontal(Direction::Left) => a.x >= i64::MIN + delta,
                Motion::Horizontal(Direction::Right) => a.x <= i64::MAX - delta,
                Motion::Descending { .. } => a.y >= i64::MIN + delta,
                Motion::Stopped => true,
            };
            if !ok {
                assert(!fits_i64(step(self@, dt as int).aliens[i as int].0) || !fits_i64(
                    step(self@, dt as int).aliens[i as int].1,
                ));
                return false;
            }
            i = i + 1;
        }
        true
    }

    /// Advances the swarm by one tick of `dt` microseconds.
    pub fn advance(&mut self, dt: u64)
        requires
            advance_fits(old(self)@, dt as int),
        ensures
            final(self)@ == step(old(self)@, dt as int),
    {
        let delta: i64 = ALIEN_SPEED * (dt as i64);
        let n = self.aliens.len();
        let ghost target = step(old(self)@, dt as int);
        match self.motion {
            Motion::Horizontal(dir) => {
                let mut moved: Vec<Alien> = Vec::with_capacity(n);
                let mut switch = false;
                let mut i: usize = 0;
                while i < n
                    invariant
                        *self == *old(self),
                        self.motion == Motion::Horizontal(dir),
                        n == self.aliens@.len(),
                        i <= n,
                        delta == swarm_delta(dt as int),
                        target == step(old(self)@, dt as int),
                        points_fit(target.aliens),
                        target.aliens == shift(self@.aliens, dir.sign() * delta, 0),
                        moved@.len() == i,
                        forall|j: int|
                            0 <= j < i ==> (moved@[j].x as int, moved@[j].y as int)
                                == #[trigger] target.aliens[j],
                        switch <==> exists|j: int|
                            0 <= j < i && #[trigger] past_edge(target.aliens[j].0, dir),
                    decreases n - i,
                {
                    let a = self.aliens[i];
                    assert(fits_i64(target.aliens[i as int].0));
                    let x: i64 = match dir {
                        Direction::Left => a.x - delta,
                        Direction::Right => a.x + delta,
                    };
                    let edge = match dir {
                        Direction::Left => x <= -HALF_WIDTH,
                        Direction::Right => x >= HALF_WIDTH,
                    };
                    assert(x as int == target.aliens[i as int].0);
                    assert(edge == past_edge(target.aliens[i as int].0, dir));
                    if edge {
                        switch = true;
                    }
                    moved.push(Alien { x, y: a.y });
                    i = i + 1;
                }
                self.aliens = moved;
                if switch {
                    self.motion = Motion::Descending { remaining: ROW_STEP, next: dir.other() };
                }
                assert(self@.aliens =~= target.aliens);
            },
            Motion::Descending { remaining, next } => {
                let mut moved: Vec<Alien> = Vec::with_capacity(n);
                let mut bottom = false;
                let mut i: usize = 0;
                while i < n
                    invariant
                        *self == *old(self),
                        self.motion == (Motion::Descending { remaining, next }),
                        n == self.aliens@.len(),
                        i <= n,
                        delta == swarm_delta(dt as int),
                        target == step(old(self)@, dt as int),
                        points_fit(target.aliens),
                        target.aliens == shift(self@.aliens, 0, -delta),
                        moved@.len() == i,
                        forall|j: int|
                            0 <= j < i ==> (moved@[j].x as int, moved@[j].y as int)
                                == #[trigger] target.aliens[j],
                        bottom <==> exists|j: int|
                            0 <= j < i && #[trigger] below_floor(target.aliens[j].1),
                    decreases n - i,
                {
                    let a = self.aliens[i];
                    assert(fits_i64(target.aliens[i as int].1));
                    let y: i64 = a.y - delta;
                    assert(y as int == target.aliens[i as int].1);
                    assert((y <= ALIEN_FLOOR) == below_floor(target.aliens[i as int].1));
                    if y <= ALIEN_FLOOR {
                        bottom = true;
                    }
                    moved.push(Alien { x: a.x, y });
                    i = i + 1;
                }
                self.aliens = moved;
                if bottom {
                    self.motion = Motion::Stopped;
                } else if remaining <= delta {
                    self.motion = Motion::Horizontal(next);
                } else {
                    self.motion = Motion::Descending { remaining: remaining - delta, next };
                }
                assert(self@.aliens =~= target.aliens);
            },
            Motion::Stopped => {},
        }
    }
}

} // verus!
