//! The simulation core of a side-scrolling obstacle game in fixed-point
//! arithmetic: a bird falls under gravity and flaps, pipes scroll toward it,
//! and the round ends on the first collision.

pub mod base;
pub mod bird;
pub mod body;
pub mod fixed;
pub mod pipes;
pub mod walls;
pub mod world;
