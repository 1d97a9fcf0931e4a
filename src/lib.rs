//! Simulation core of a small arcade shooter: an alien swarm that sweeps and
//! descends, player projectiles, collisions, the win/loss outcome and the game
//! phase controller, with a keyframed movement curve as an alternative way to
//! move the swarm.
//!
//! Positions are integers in steps of a millionth of a world unit and time is
//! counted in microseconds, so a speed in world units per second is also a
//! speed in steps per microsecond and every displacement is exact.
pub mod field;
pub mod swarm;
pub mod projectile;
pub mod outcome;
pub mod collision;
pub mod player;
pub mod timer;
pub mod game;
pub mod curve;
