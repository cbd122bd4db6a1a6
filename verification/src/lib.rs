//! Conversion of a geographic coordinate into compact spatial-index keys.
//!
//! The library encodes a point into an H3 cell identifier and repacks that
//! 64-bit identifier into two host-friendly shapes: a 32-bit key taken from
//! its upper bits and a 52-bit key taken from its lower bits. Every failure
//! (unsupported resolution, rejected coordinate) collapses to the sentinel
//! value 0, so the boundary always returns normally with a 64-bit value.

pub mod boundary;
pub mod pack;
pub mod resolution;
