//! The sealed capability marker for compressible element types.
//!
//! The native compressor handles exactly two element types, narrow (32-bit)
//! and wide (64-bit) IEEE floating point, told apart at the boundary by a
//! width tag. The marker trait is sealed so that no other type can be
//! substituted; the floating-point types themselves, and the trait
//! implementations for them, live with the code that crosses the boundary,
//! which hands the verified logic the plain width tag instead.

use vstd::prelude::*;

verus! {

/// Marker trait for element types that can be compressed.
pub trait Element: crate::sealed::Element {
}

} // verus!
