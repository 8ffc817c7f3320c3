//! Safe boundary logic for a 3D volumetric compressor with quantity-of-interest
//! error control.
//!
//! The compression algorithm itself lives in a native library reached over a
//! narrow C-compatible surface; this crate holds the decision logic of the safe
//! facade around that surface: translating native status codes into a typed
//! error taxonomy, validating the shape recorded in a compressed buffer's
//! header against a caller's output view, ordering volume extents for the
//! native calling convention, and sizing the buffers that cross the boundary.

mod element;
mod error;
mod qoi;
mod sealed;
mod shape;
mod status;

pub use element::Element;
pub use error::Error;
pub use qoi::terminated_qoi;
pub use shape::DecompressPlan;
pub use shape::Header;
pub use shape::decompress_plan_spec;
pub use shape::lemma_mismatch_detected;
pub use shape::lemma_shape_round_trip;
pub use shape::native_order;
pub use shape::native_order_spec;
pub use shape::plan_decompress;
pub use shape::volume_elements;
pub use status::StatusOutcome;
pub use status::classify_compress_status;
pub use status::classify_decompress_status;
pub use status::compress_status_spec;
pub use status::decompress_status_spec;
pub use status::lemma_no_buffer_on_recoverable;
