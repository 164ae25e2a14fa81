//! A deterministic first-person movement solver.
//!
//! Every scalar quantity (lengths, speeds, angles, time steps) is a signed
//! fixed-point number with twenty fractional bits held in an `i64`; see
//! [`fixed`]. The solver itself never touches a physics engine: it states
//! which casts it needs and is resumed with their results.

pub mod accelerate;
pub mod air;
pub mod collider;
pub mod config;
pub mod crouch;
pub mod cursor;
pub mod fixed;
pub mod friction;
pub mod ground;
pub mod intent;
pub mod overhang;
pub mod player;
pub mod pose;
pub mod probe;
pub mod respawn;
pub mod solver;
pub mod state;
pub mod step;
pub mod vector;
