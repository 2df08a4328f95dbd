//! Fixed-point core of a first-person controller.
//!
//! Two integrators run once per frame on one player: the movement integrator
//! turns held keys and elapsed time into a displacement along the player's
//! heading on the ground, and the look integrator turns mouse motion into
//! yaw and pitch, with the pitch held short of vertical. All quantities are
//! integers in the fixed-point units of [`units`]; every function is total and
//! proved against a contract over mathematical integers.

pub mod units;
pub mod root;
pub mod vector;
pub mod input;
pub mod heading;
pub mod facing;
pub mod look;
pub mod movement;
pub mod player;
pub mod laws;
