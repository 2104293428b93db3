//! Simulation core of a top-down survival arcade game, in fixed-point
//! arithmetic: every scalar is an integer count of thousandths.

pub mod fixed;
pub mod pool;
pub mod spatial;
pub mod timer;
pub mod stopwatch;
pub mod animation;
pub mod random;
pub mod direction;
pub mod director;
pub mod render;
pub mod tween;
pub mod player;
pub mod upgrade;
pub mod damage_popup;
pub mod particles;
pub mod enemies;
pub mod bats;
pub mod bullets;
pub mod towers;
pub mod remnants;
pub mod combat;
pub mod readout;
pub mod stage;
pub mod session;
