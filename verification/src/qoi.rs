//! Preparation of the quantity-of-interest expression for the native parser.
//!
//! The native expression parser takes a null-terminated byte string. The
//! facade appends the terminator itself, so callers pass an ordinary string;
//! the expression must be non-empty and free of interior null bytes for the
//! native validator to accept it, but both of those are the validator's to
//! judge — a rejected expression comes back as a status code, not a panic.

use vstd::prelude::*;

verus! {

/// The bytes of a quantity-of-interest expression with the null terminator
/// the native expression parser expects appended.
pub fn terminated_qoi(qoi: &[u8]) -> (r: Vec<u8>)
    ensures
        r@ == qoi@.push(0u8),
        r@.len() == qoi@.len() + 1,
{
    let mut out: Vec<u8> = Vec::new();
    let mut i: usize = 0;
    while i < qoi.len()
        invariant
            i <= qoi@.len(),
            out@ == qoi@.subrange(0, i as int),
        decreases qoi@.len() - i,
    {
        out.push(qoi[i]);
        i = i + 1;
        proof {
            assert(out@ =~= qoi@.subrange(0, i as int));
        }
    }
    proof {
        assert(qoi@.subrange(0, qoi@.len() as int) =~= qoi@);
    }
    out.push(0u8);
    out
}

} // verus!
