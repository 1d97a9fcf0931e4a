use vstd::prelude::*;

use crate::collision::{
    detect_collision, resolve, roll_destruction_sounds, DESTRUCTION_SOUNDS,
};
use crate::field::{END_STEP_MICROS, GRID_SIZE, SPLASH_WAIT_MICROS};
use crate::outcome::{detect_win_or_loss, outcome_of};
use crate::player::{fire_held, move_player, player_step, start_game_on_button_press, Controls};
use crate::projectile::{after_shots, move_bullets, moved_bullets, spawn_bullet, Bullet};
use crate::swarm::{
    advance_fits, alien_points, initial_swarm, step, Alien, Direction, Motion, Swarm, SwarmModel,
};
use crate::timer::{OnceTimer, RepeatingTimer};

verus! {

/// The steps of the end screen's ellipsis animation.
#[derive(Clone, Copy, Debug, PartialEq, Eq, Structural)]
pub enum Step {
    One,
    Two,
    Three,
}

/// The end screen first shows for a minimum time, then waits for the fire
/// button.
#[derive(Clone, Copy, Debug, PartialEq, Eq, Structural)]
pub enum EndPhase {
    MinimumDisplayTime(Step),
    Abortable,
}

/// What the end screen holds.
#[derive(Clone, Copy, Debug, PartialEq, Eq, Structural)]
pub struct EndScreen {
    pub player_did_win: bool,
    pub phase: EndPhase,
    pub timer: RepeatingTimer,
}

/// What a match holds: the swarm, the projectiles in flight and the
/// player's horizontal position.
pub struct Match {
    pub swarm: Swarm,
    pub bullets: Vec<Bullet>,
    pub player_x: i64,
}

pub struct MatchModel {
    pub swarm: SwarmModel,
    pub bullets: Seq<Bullet>,
    pub player_x: i64,
}

impl View for Match {
    type V = MatchModel;

    open spec fn view(&self) -> MatchModel {
        MatchModel { swarm: self.swarm@, bullets: self.bullets@, player_x: self.player_x }
    }
}

/// The game phase, with the entities that live while it is active.
pub enum GamePhase {
    Startup,
    WaitForInputDevice,
    Splash(OnceTimer),
    Playing(Match),
    End(EndScreen),
}

pub enum PhaseModel {
    Startup,
    WaitForInputDevice,
    Splash(OnceTimer),
    Playing(MatchModel),
    End(EndScreen),
}

impl View for GamePhase {
    type V = PhaseModel;

    open spec fn view(&self) -> PhaseModel {
        match self {
            GamePhase::Startup => PhaseModel::Startup,
            GamePhase::WaitForInputDevice => PhaseModel::WaitForInputDevice,
            GamePhase::Splash(t) => PhaseModel::Splash(*t),
            GamePhase::Playing(m) => PhaseModel::Playing(m@),
            GamePhase::End(e) => PhaseModel::End(*e),
        }
    }
}

/// Everything that happens to the game in one tick.
#[derive(Debug)]
pub struct TickInput {
    /// Length of the tick, in microseconds.
    pub dt: u64,
    /// Asset loading has completed.
    pub assets_loaded: bool,
    /// A gamepad connected during the tick.
    pub gamepad_connected: bool,
    pub controls: Controls,
}

/// What a tick did that the presentation follows up on.
#[derive(Debug)]
pub struct TickReport {
    /// A projectile was fired.
    pub shot_fired: bool,
    /// Number of projectile and alien pairs destroyed.
    pub hits: usize,
    /// Destruction sounds to play, by index below `DESTRUCTION_SOUNDS`.
    pub destruction_sounds: Vec<usize>,
    /// The outcome raised, `Some(true)` for a win: the match ended.
    pub outcome: Option<bool>,
}

/// The game: the active phase.
pub struct Game {
    pub phase: GamePhase,
}

impl View for Game {
    type V = PhaseModel;

    open spec fn view(&self) -> PhaseModel {
        self.phase@
    }
}

pub open spec fn to_aliens(points: Seq<(int, int)>) -> Seq<Alien> {
    points.map_values(|p: (int, int)| Alien { x: p.0 as i64, y: p.1 as i64 })
}

/// A fresh match: the full swarm sweeping right, no projectiles, the player
/// in the middle.
pub open spec fn new_match() -> MatchModel {
    MatchModel { swarm: initial_swarm(), bullets: Seq::empty(), player_x: 0 }
}

/// The end screen as it is entered.
pub open spec fn new_end_screen(win: bool) -> EndScreen {
    EndScreen {
        player_did_win: win,
        phase: EndPhase::MinimumDisplayTime(Step::One),
        timer: RepeatingTimer { elapsed: 0, period: END_STEP_MICROS },
    }
}

/// What one tick of a match yields.
pub struct PlayTick {
    pub next: MatchModel,
    pub shot_fired: bool,
    pub hits: int,
    pub outcome: Option<bool>,
}

/// One tick of a match: the player moves and fires, the last fire command
/// spawns a projectile, projectiles and swarm move, the outcome is read from
/// the moved swarm, then collisions are resolved.
pub open spec fn play_tick(m: MatchModel, c: Controls, dt: int) -> PlayTick {
    let (px, shots) = player_step(m.player_x as int, c, dt);
    let flying = moved_bullets(after_shots(m.bullets, shots), dt);
    let swarm = step(m.swarm, dt);
    let aliens = to_aliens(swarm.aliens);
    let (kept, left) = resolve(flying, aliens);
    PlayTick {
        next: MatchModel {
            swarm: SwarmModel { aliens: alien_points(left), motion: swarm.motion },
            bullets: kept,
            player_x: px as i64,
        },
        shot_fired: shots.len() > 0,
        hits: flying.len() - kept.len(),
        outcome: outcome_of(aliens),
    }
}

/// What one tick of the game yields.
pub struct PhaseTick {
    pub next: PhaseModel,
    pub shot_fired: bool,
    pub hits: int,
    pub outcome: Option<bool>,
}

pub open spec fn quiet(next: PhaseModel) -> PhaseTick {
    PhaseTick { next, shot_fired: false, hits: 0, outcome: None }
}

/// The end screen's next animation phase when its timer fires.
pub open spec fn next_end_phase(p: EndPhase) -> EndPhase {
    match p {
        EndPhase::MinimumDisplayTime(Step::One) => EndPhase::MinimumDisplayTime(Step::Two),
        EndPhase::MinimumDisplayTime(Step::Two) => EndPhase::MinimumDisplayTime(Step::Three),
        _ => EndPhase::Abortable,
    }
}

/// One tick of the phase controller.
pub open spec fn phase_tick(p: PhaseModel, input: TickInput) -> PhaseTick {
    match p {
        PhaseModel::Startup => quiet(
            if input.assets_loaded {
                PhaseModel::WaitForInputDevice
            } else {
                PhaseModel::Startup
            },
        ),
        PhaseModel::WaitForInputDevice => quiet(
            if input.gamepad_connected {
                PhaseModel::Splash(OnceTimer { elapsed: 0, duration: SPLASH_WAIT_MICROS })
            } else {
                PhaseModel::WaitForInputDevice
            },
        ),
        PhaseModel::Splash(t) => quiet(
            if fire_held(input.controls) || t.ticked(input.dt as int).is_finished() {
                PhaseModel::Playing(new_match())
            } else {
                PhaseModel::Splash(t.ticked(input.dt as int))
            },
        ),
        PhaseModel::Playing(m) => {
            let r = play_tick(m, input.controls, input.dt as int);
            PhaseTick {
                next: match r.outcome {
                    Some(win) => PhaseModel::End(new_end_screen(win)),
                    None => PhaseModel::Playing(r.next),
                },
                shot_fired: r.shot_fired,
                hits: r.hits,
                outcome: r.outcome,
            }
        },
        PhaseModel::End(e) => quiet(
            match e.phase {
                EndPhase::MinimumDisplayTime(_) => PhaseModel::End(
                    EndScreen {
                        player_did_win: e.player_did_win,
                        phase: if e.timer.fires(input.dt as int) {
                            next_end_phase(e.phase)
                        } else {
                            e.phase
                        },
                        timer: e.timer.ticked(input.dt as int),
                    },
                ),
                EndPhase::Abortable => if fire_held(input.controls) {
                    PhaseModel::Playing(new_match())
                } else {
                    PhaseModel::End(e)
                },
            },
        ),
    }
}

/// The timers of the active phase are in their valid range.
pub open spec fn phase_wf(p: PhaseModel) -> bool {
    match p {
        PhaseModel::Splash(t) => t.wf(),
        PhaseModel::End(e) => e.timer.wf(),
        _ => true,
    }
}

/// A tick of `dt` microseconds keeps every number of the game within its type.
pub open spec fn tick_fits(p: PhaseModel, dt: int) -> bool {
    match p {
        PhaseModel::Playing(m) => advance_fits(m.swarm, dt),
        _ => true,
    }
}

/// The ticks of `inputs` applied in order: the phase they leave, and the
/// outcome that each of them raised.
pub open spec fn run_phases(p: PhaseModel, inputs: Seq<TickInput>) -> (PhaseModel, Seq<Option<bool>>)
    decreases inputs.len(),
{
    if inputs.len() == 0 {
        (p, Seq::empty())
    } else {
        let (q, outcomes) = run_phases(p, inputs.drop_last());
        let t = phase_tick(q, inputs.last());
        (t.next, outcomes.push(t.outcome))
    }
}

/// A match whose swarm is empty ends in a win on its next tick; the ticks
/// after that raise no outcome again as long as the fire button is not held,
/// and the end screen keeps the win.
pub proof fn win_raised_once(m: MatchModel, inputs: Seq<TickInput>)
    requires
        m.swarm.aliens.len() == 0,
        inputs.len() > 0,
        forall|i: int| 1 <= i < inputs.len() ==> !fire_held(#[trigger] inputs[i].controls),
    ensures
        run_phases(PhaseModel::Playing(m), inputs).1.len() == inputs.len(),
        run_phases(PhaseModel::Playing(m), inputs).1[0] == Some(true),
        forall|i: int|
            1 <= i < inputs.len() ==> #[trigger] run_phases(PhaseModel::Playing(m), inputs).1[i]
                is None,
        run_phases(PhaseModel::Playing(m), inputs).0 is End,
        run_phases(PhaseModel::Playing(m), inputs).0->End_0.player_did_win,
    decreases inputs.len(),
{
    let p = PhaseModel::Playing(m);
    let init = inputs.drop_last();
    if init.len() == 0 {
        let t = play_tick(m, inputs[0].controls, inputs[0].dt as int);
        let swarm = step(m.swarm, inputs[0].dt as int);
        assert(swarm.aliens.len() == 0);
        assert(to_aliens(swarm.aliens).len() == 0);
        assert(t.outcome == Some(true));
        assert(run_phases(p, init).1 =~= Seq::<Option<bool>>::empty());
    } else {
        assert forall|i: int| 1 <= i < init.len() implies !fire_held(#[trigger] init[i].controls) by {
            assert(init[i] == inputs[i]);
        }
        win_raised_once(m, init);
        let (q, outcomes) = run_phases(p, init);
        let last = inputs.last();
        assert(!fire_held(last.controls)) by {
            assert(inputs[inputs.len() - 1] == last);
        }
        let e = q->End_0;
        assert(phase_tick(q, last).outcome is None);
        assert(phase_tick(q, last).next is End);
        assert(phase_tick(q, last).next->End_0.player_did_win == e.player_did_win);
        let all = outcomes.push(phase_tick(q, last).outcome);
        assert forall|i: int| 1 <= i < inputs.len() implies #[trigger] all[i] is None by {
            if i < init.len() {
                assert(all[i] == outcomes[i]);
            }
        }
        assert(all[0] == outcomes[0]);
    }
}

/// Holding fire on an end screen that accepts it starts a fresh match: the
/// full grid of `GRID_SIZE` aliens sweeping right, and no projectiles.
pub proof fn replay_resets(e: EndScreen, input: TickInput)
    requires
        e.phase == EndPhase::Abortable,
        fire_held(input.controls),
    ensures
        phase_tick(PhaseModel::End(e), input).next == PhaseModel::Playing(new_match()),
        new_match().swarm.aliens.len() == GRID_SIZE,
        new_match().swarm.motion == Motion::Horizontal(Direction::Right),
        new_match().bullets.len() == 0,
{
}

proof fn aliens_round_trip(aliens: Seq<Alien>)
    ensures
        to_aliens(alien_points(aliens)) == aliens,
{
    assert(to_aliens(alien_points(aliens)) =~= aliens);
}

impl Match {
    pub fn new() -> (r: Match)
        ensures
            r@ == new_match(),
    {
        let r = Match { swarm: Swarm::spawn_grid(), bullets: Vec::new(), player_x: 0 };
        assert(r.bullets@ =~= Seq::<Bullet>::empty());
        r
    }

    /// Runs one tick of the match; returns whether a projectile was fired,
    /// the number of hits and the outcome raised.
    pub fn tick(&mut self, controls: &Controls, dt: u64) -> (r: (bool, usize, Option<bool>))
        requires
            advance_fits(old(self).swarm@, dt as int),
        ensures
            final(self)@ == play_tick(old(self)@, *controls, dt as int).next,
            r.0 == play_tick(old(self)@, *controls, dt as int).shot_fired,
            r.1 == play_tick(old(self)@, *controls, dt as int).hits,
            r.2 == play_tick(old(self)@, *controls, dt as int).outcome,
    {
        let ghost before = self@;
        let (px, shots) = move_player(self.player_x, controls, dt);
        self.player_x = px;
        let shot_fired = spawn_bullet(&mut self.bullets, &shots);
        move_bullets(&mut self.bullets, dt);
        self.swarm.advance(dt);
        proof {
            aliens_round_trip(self.swarm.aliens@);
        }
        let outcome = detect_win_or_loss(&self.swarm.aliens);
        let hits = detect_collision(&mut self.bullets, &mut self.swarm.aliens);
        (shot_fired, hits, outcome)
    }
}

impl Game {
    pub fn new() -> (r: Game)
        ensures
            r@ == PhaseModel::Startup,
    {
        Game { phase: GamePhase::Startup }
    }

    pub open spec fn wf(&self) -> bool {
        phase_wf(self@)
    }

    /// Whether a tick of `dt` microseconds keeps every number within its type.
    pub fn can_tick(&self, dt: u64) -> (r: bool)
        ensures
            r == tick_fits(self@, dt as int),
    {
        match &self.phase {
            GamePhase::Playing(m) => m.swarm.can_advance(dt),
            _ => true,
        }
    }

    /// Runs one tick of the game.
    pub fn tick(&mut self, input: &TickInput) -> (r: TickReport)
        requires
            old(self).wf(),
            tick_fits(old(self)@, input.dt as int),
        ensures
            final(self).wf(),
            final(self)@ == phase_tick(old(self)@, *input).next,
            r.shot_fired == phase_tick(old(self)@, *input).shot_fired,
            r.hits == phase_tick(old(self)@, *input).hits,
            r.outcome == phase_tick(old(self)@, *input).outcome,
            r.destruction_sounds@.len() <= r.hits,
            forall|i: int|
                0 <= i < r.destruction_sounds@.len() ==> #[trigger] r.destruction_sounds@[i]
                    < DESTRUCTION_SOUNDS,
    {
        let mut phase = GamePhase::Startup;
        std::mem::swap(&mut phase, &mut self.phase);
        let dt = input.dt;
        let mut shot_fired = false;
        let mut hits: usize = 0;
        let mut outcome: Option<bool> = None;
        let next = match phase {
            GamePhase::Startup => {
                if input.assets_loaded {
                    GamePhase::WaitForInputDevice
                } else {
                    GamePhase::Startup
                }
            },
            GamePhase::WaitForInputDevice => {
                if input.gamepad_connected {
                    GamePhase::Splash(OnceTimer::new(SPLASH_WAIT_MICROS))
                } else {
                    GamePhase::WaitForInputDevice
                }
            },
            GamePhase::Splash(t) => {
                let mut t = t;
                t.tick(dt);
                if start_game_on_button_press(&input.controls) || t.finished() {
                    GamePhase::Playing(Match::new())
                } else {
                    GamePhase::Splash(t)
                }
            },
            GamePhase::Playing(m) => {
                let mut m = m;
                let (s, h, o) = m.tick(&input.controls, dt);
                shot_fired = s;
                hits = h;
                outcome = o;
                match o {
                    Some(win) => GamePhase::End(
                        EndScreen {
                            player_did_win: win,
                            phase: EndPhase::MinimumDisplayTime(Step::One),
                            timer: RepeatingTimer::new(END_STEP_MICROS),
                        },
                    ),
                    None => GamePhase::Playing(m),
                }
            },
            GamePhase::End(e) => {
                match e.phase {
                    EndPhase::MinimumDisplayTime(s) => {
                        let mut timer = e.timer;
                        let fired = timer.tick(dt);
                        let phase = if !fired {
                            e.phase
                        } else {
                            match s {
                                Step::One => EndPhase::MinimumDisplayTime(Step::Two),
                                Step::Two => EndPhase::MinimumDisplayTime(Step::Three),
                                Step::Three => EndPhase::Abortable,
                            }
                        };
                        GamePhase::End(
                            EndScreen { player_did_win: e.player_did_win, phase, timer },
                        )
                    },
                    EndPhase::Abortable => {
                        if start_game_on_button_press(&input.controls) {
                            GamePhase::Playing(Match::new())
                        } else {
                            GamePhase::End(e)
                        }
                    },
                }
            },
        };
        self.phase = next;
        let destruction_sounds = roll_destruction_sounds(hits);
        TickReport { shot_fired, hits, destruction_sounds, outcome }
    }
}

} // verus!
