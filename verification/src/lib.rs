//! A unit-conversion library: time, length, mass and temperature.
//!
//! Conversion between two units of one category is an affine map on the
//! value.  The library resolves a (category, from, to) request, given as
//! strings, to an exact integer representation of that map, or to a typed
//! error naming the invalid input.  Applying the map to a machine float is
//! left to the caller; applying it to an exact rational is provided here,
//! verified.

pub mod convert;
pub mod plan;
pub mod units;
