//! Verified numeric helpers for a real-time measurement loop: a bounded
//! sliding window behind an incrementally maintained moving average, the
//! layout of a word that packs two half-precision encodings, and an
//! absolute-tolerance comparison of single-precision values.
//!
//! Floating-point values cross this crate's boundary as their IEEE 754 bit
//! patterns (`u64` for double precision, `u32` for single precision, `u16`
//! for binary16); the floating-point arithmetic itself — accumulation,
//! division, subtraction, lossy conversion — belongs to the caller.

pub mod compare;
pub mod pack;
pub mod tracker;
