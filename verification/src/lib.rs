//! A heap-allocated fixed-length vector of 64-bit integers with
//! bounds-checked accessors, together with a family of summation routines
//! (`combine1` through `combine7`, plus `combine4b`) that differ only in
//! their access pattern. Every summation variant is proved to return the
//! wrapping sum of the vector's elements, so the variants provably agree.

pub mod combine;
pub mod vec_rec;
