//! The behaviour of a sprite that a host engine spins at a constant rate.
//!
//! The host owns the node, the clock, the console and the signal bus. This
//! library owns the decisions: what a player starts with, what each hook of
//! the host changes in it, and which single effect the host has to carry out
//! afterwards. Numbers cross the boundary as IEEE 754 bit patterns; the host
//! supplies the two arithmetic operations that the hooks need.

pub mod effect;
pub mod player;
pub mod run;
pub mod scalar;
