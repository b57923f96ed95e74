//! Procedural engine-sound synthesis core.
//!
//! A network of digital waveguides, delay lines, one-pole low-pass filters,
//! a deterministic noise source and per-cylinder piston/ignition/valve
//! models that, advanced one sample at a time, produce a monaural audio
//! stream imitating an internal-combustion engine.
//!
//! Samples and coefficients are signed 64-bit fixed-point numbers with 28
//! fractional bits (see [`fixed`]), so every stage of the pipeline has an
//! exact arithmetic meaning that the contracts state and the proofs track.
//! A host converts the produced samples to whatever format its audio sink
//! expects.

pub mod bits;
pub mod buffer;
pub mod cylinder;
pub mod engine;
pub mod generator;
pub mod filter;
pub mod fixed;
pub mod math;
pub mod noise;
pub mod waveguide;
