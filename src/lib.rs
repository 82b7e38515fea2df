//! An algebraic intermediate representation (AIR) for a two-register
//! Fibonacci recurrence over winterfell's 128-bit prime field, together with
//! the execution-trace generator that satisfies it by construction.

pub mod air;
pub mod field;
pub mod trace;
