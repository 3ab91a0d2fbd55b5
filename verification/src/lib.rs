//! Verified core of a small farm simulation: a player walks around, buys
//! pigs, and the pigs wander until they are sold.
//!
//! The crate holds the rules only. Time comes in as whole nanoseconds, money
//! as whole currency units, and every movement goes out as a direction and a
//! distance for the host to apply to its own coordinates.

pub mod economy;
pub mod farm;
pub mod herd;
pub mod motion;
pub mod pig;
pub mod player;
pub mod random;
pub mod timer;
