//! Validation of integer arrays against a cyclic three-zone pattern.
//!
//! A pattern repeats with a fixed period. Inside one period the first zone
//! holds `1`, the second `-1` and the rest `0`. Every validator of this crate
//! answers the same question, whether an array follows the pattern at every
//! index, and differs from the others only in how it walks the array.

pub mod groups;
pub mod lane;
pub mod parallel;
pub mod pattern;
pub mod scalar;
pub mod simd;
pub mod strategy;
pub mod table;
