//! Shape bookkeeping across the native boundary.
//!
//! A volume is logically indexed as (depth, height, width) with the width
//! varying fastest in memory. The native calling convention instead takes
//! extents as (x, y, z) with x the fastest-varying axis, so the facade hands
//! a volume's extents over in reverse: x = width, y = height, z = depth. The
//! header of a compressed buffer records the extents in that native order,
//! together with a tag saying whether the elements are narrow (32-bit) or
//! wide (64-bit) floating point.

use vstd::prelude::*;

use crate::error::Error;

verus! {

/// The metadata recorded in a compressed buffer's header: the volume extents
/// in native (x, y, z) order and the element-width tag (`true` for narrow,
/// 32-bit elements).
#[derive(Clone, Copy, Debug, PartialEq, Eq, Structural)]
pub struct Header {
    /// extent of the fastest-varying axis (the volume's width)
    pub dim_x: usize,
    /// extent of the middle axis (the volume's height)
    pub dim_y: usize,
    /// extent of the slowest-varying axis (the volume's depth)
    pub dim_z: usize,
    /// `true` if the recorded elements are narrow (32-bit) floating point
    pub is_narrow: bool,
}

/// The decision taken before any native decompression call.
#[derive(Clone, Copy, Debug, PartialEq, Eq, Structural)]
pub enum DecompressPlan {
    /// Return this error to the caller; no native call is made, so no native
    /// allocation can occur.
    Reject(Error),
    /// Run native decompression, requesting elements of the given width
    /// (`true` for narrow, 32-bit elements).
    RunNative { is_narrow: bool },
}

/// A volume's (depth, height, width) extents reordered into the native
/// (x, y, z) convention.
pub open spec fn native_order_spec(depth: usize, height: usize, width: usize) -> (usize, usize, usize) {
    (width, height, depth)
}

/// Reorder a volume's (depth, height, width) extents into the (x, y, z) order
/// the native calls take, with x the fastest-varying axis.
pub fn native_order(depth: usize, height: usize, width: usize) -> (r: (usize, usize, usize))
    ensures
        r == native_order_spec(depth, height, width),
{
    (width, height, depth)
}

/// The decompression decision: the extents recorded in the header must match
/// the output view's (depth, height, width) extents axis by axis; on a match,
/// native decompression runs with the element width the caller requested.
///
/// The header's own element-width tag plays no part: the caller's requested
/// width always wins, so a buffer recorded at one width may be decompressed
/// into an output view of the other, the native side converting.
pub open spec fn decompress_plan_spec(
    header: Header,
    out_depth: usize,
    out_height: usize,
    out_width: usize,
    requested_narrow: bool,
) -> DecompressPlan {
    if header.dim_z == out_depth && header.dim_y == out_height && header.dim_x == out_width {
        DecompressPlan::RunNative { is_narrow: requested_narrow }
    } else {
        DecompressPlan::Reject(Error::DecompressShapeMismatch)
    }
}

/// Decide whether native decompression may run for an output view of the
/// given (depth, height, width) extents and requested element width.
pub fn plan_decompress(
    header: Header,
    out_depth: usize,
    out_height: usize,
    out_width: usize,
    requested_narrow: bool,
) -> (p: DecompressPlan)
    ensures
        p == decompress_plan_spec(header, out_depth, out_height, out_width, requested_narrow),
{
    if header.dim_z == out_depth && header.dim_y == out_height && header.dim_x == out_width {
        DecompressPlan::RunNative { is_narrow: requested_narrow }
    } else {
        DecompressPlan::Reject(Error::DecompressShapeMismatch)
    }
}

/// Number of elements of a (depth, height, width) volume, or `None` where the
/// product cannot be carried out in `usize`. The product is formed as
/// `(depth * height) * width`, so the intermediate product must fit as well.
pub fn volume_elements(depth: usize, height: usize, width: usize) -> (r: Option<usize>)
    ensures
        r matches Some(n) ==> n == depth * height * width,
        r is Some <==> depth * height <= usize::MAX && depth * height * width <= usize::MAX,
{
    match depth.checked_mul(height) {
        Some(dh) => dh.checked_mul(width),
        None => None,
    }
}

/// Round-trip of the shape bookkeeping: a header that records a volume's
/// extents in native order always passes the shape check against an output
/// view of that volume's own (depth, height, width) shape, whatever element
/// width the header recorded and whatever width the caller requests; the
/// native call then runs with the requested width.
pub proof fn lemma_shape_round_trip(
    depth: usize,
    height: usize,
    width: usize,
    recorded_narrow: bool,
    requested_narrow: bool,
)
    ensures
        decompress_plan_spec(
            Header {
                dim_x: native_order_spec(depth, height, width).0,
                dim_y: native_order_spec(depth, height, width).1,
                dim_z: native_order_spec(depth, height, width).2,
                is_narrow: recorded_narrow,
            },
            depth,
            height,
            width,
            requested_narrow,
        ) == (DecompressPlan::RunNative { is_narrow: requested_narrow }),
{
}

/// Shape-mismatch detection: whenever the header's extents differ from the
/// output view's extents on any axis, the plan rejects with the shape-mismatch
/// error and no native call is planned — and those are the only rejections.
pub proof fn lemma_mismatch_detected(
    header: Header,
    out_depth: usize,
    out_height: usize,
    out_width: usize,
    requested_narrow: bool,
)
    ensures
        (header.dim_z != out_depth || header.dim_y != out_height || header.dim_x != out_width)
            <==> decompress_plan_spec(header, out_depth, out_height, out_width, requested_narrow)
                == DecompressPlan::Reject(Error::DecompressShapeMismatch),
        decompress_plan_spec(header, out_depth, out_height, out_width, requested_narrow)
            matches DecompressPlan::Reject(e) ==> e == Error::DecompressShapeMismatch,
{
}

} // verus!
