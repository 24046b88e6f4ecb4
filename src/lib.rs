//! A keyed, non-cryptographic hash compatible with HighwayHash, with 64-, 128-
//! and 256-bit results, verified against a mathematical model of the construction.
//!
//! `model` states each step of the construction as spec functions; the engine
//! and the one-shot functions are proved equal to it, and `laws` proves what
//! holds across calls.
pub mod model;
mod lanes;
mod hasher;
pub mod laws;

pub use hasher::{hash_128, hash_256, hash_64, AutobahnHasher, Input};
