//! A small library exposing a 64-bit rolling hash over a string's byte
//! encoding, together with a greeting formatter. The hash folds each byte
//! into an accumulator by a multiply-by-31-and-add step with wraparound
//! (modulo 2^64) arithmetic.

pub mod greeting;
pub mod hash;

pub use greeting::greet;
pub use hash::compute_hash;
