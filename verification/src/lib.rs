//! Configuration boundary for a Powell-style derivative-free minimizer.
//!
//! The crate owns the caller-facing set of tuning options, the defaulting
//! policy for omitted options, and the lossless two-way mapping between the
//! caller-facing form and the internal form that the optimization engine
//! consumes.

pub mod options;
