//! A small fixed-step integration engine for second-order equations of
//! motion: state is a pair of position and velocity vectors, a model
//! supplies the acceleration, and an explicit stepper (symplectic-style
//! Euler, midpoint, or classical fourth-order Runge-Kutta) advances the
//! state in place.  Scalars are IEEE-754 binary64 values carried as bit
//! patterns, so every update formula is specified and verified exactly as
//! it is computed, rounding included.

pub mod fp;

pub mod eom;

pub mod steppers;

pub mod driver;

pub mod models;

pub mod utils;

