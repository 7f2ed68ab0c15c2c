//! A proportional-integral-derivative feedback controller over any number
//! type with checked arithmetic. Every step of a cycle either gives the exact
//! result or makes the cycle fail: nothing wraps and nothing panics.
//!
//! [`PIDController`] is the controller, [`Scalar`] what it asks of its number
//! type, [`model::PidView`] the controller as plain integers, over which the
//! contracts are stated, and [`laws`] what follows from them.
#![allow(unused_imports)]

pub mod controller;
pub mod laws;
pub mod model;
mod primitive;
pub mod scalar;

pub use controller::PIDController;
pub use scalar::Scalar;
