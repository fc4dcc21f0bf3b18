//! Integrated loudness measurement after ITU-R BS.1770: a two-stage
//! K-weighting filter cascade over multi-channel samples, and a three-pass
//! gated aggregation of per-block channel powers into one loudness value.
//!
//! Every signal value is an IEEE 754 binary64 number, carried throughout the
//! library as its raw 8-byte bit pattern in a `u64`. The verified code owns
//! all structure: which operations run, in which order, on which operands,
//! and which blocks a gate keeps. The arithmetic itself is performed by
//! outside crates behind small trusted wrappers, and every contract states
//! results as compositions of the names given to those operations.

pub mod scalar;

pub mod coeff;

pub mod filter;

pub mod stats;

pub mod loudness;

