//! A small value-accrual calculator with owner-gated configuration.
//!
//! The library computes a reward amount from a principal, a linear
//! time-decay window, and two configurable bonus rates, all in integer
//! fixed-point arithmetic over a basis-point scale. Three pieces of
//! configuration (multiply factor, percentage bonus, owner) can be
//! mutated, each mutation gated on a single stored owner identity.

pub mod errors;
pub mod identity;
pub mod processor;
