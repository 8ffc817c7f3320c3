//! The private half of the sealed element marker.

use vstd::prelude::*;

verus! {

/// Supertrait that outside code cannot name, sealing the element marker.
pub trait Element {
    /// `true` if this element type is narrow (32-bit) floating point, the tag
    /// the native boundary is told.
    fn is_narrow() -> bool;
}

} // verus!
