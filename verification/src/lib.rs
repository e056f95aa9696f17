//! Orbit/fly camera controller over saturating fixed-point arithmetic.
//!
//! The controller accumulates discrete user input (keyboard, mouse drag,
//! scroll) into smoothed motion state and, once per frame, advances a
//! camera's position and orientation. All scalars are fixed-point numbers
//! (see [`fx`]), so every numeric step is exact and verified.

pub mod controller;
pub mod fx;
pub mod laws;
pub mod vec;
