//! Decision core of a bullet-pattern shooter: reload countdowns, firing plans,
//! boundary reflection and wave rosters, each with a machine-checked contract.

pub mod firing;
pub mod oscillation;
pub mod reload;
pub mod scalar;
pub mod trajectory;
pub mod unrolling;
pub mod wave;
pub mod wave_laws;
