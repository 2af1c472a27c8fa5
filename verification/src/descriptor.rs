//! The generic descriptor decoding protocol.
//!
//! Every descriptor in signed boot metadata is a header immediately followed
//! by a body. Decoding is a two-phase, validate-then-slice protocol:
//!
//! 1. confirm the buffer holds at least the fixed header layout, else
//!    [`DescriptorError::InvalidHeader`];
//! 2. normalize every multi-byte header field from the big-endian wire order
//!    and check the type-specific header invariants, else
//!    [`DescriptorError::InvalidHeader`];
//! 3. confirm the buffer holds every declared body sub-length, else
//!    [`DescriptorError::InvalidSize`];
//! 4. hand back the normalized header and a borrowed view over the body,
//!    copying nothing.
//!
//! Only the per-type validation step and the body partitioning differ between
//! descriptor variants; [`commandline`] holds the kernel commandline variant.

use vstd::prelude::*;
use vstd::slice::slice_subrange;

use crate::error::{DescriptorError, DescriptorResult};

pub mod commandline;

verus! {

/// Splits `data` into a prefix of exactly `size` bytes and the remainder.
///
/// This is the bounds check of the decoding protocol: a declared sub-field
/// length that exceeds the remaining data is rejected with
/// [`DescriptorError::InvalidSize`] before any field is interpreted.
pub fn split_slice<'a>(data: &'a [u8], size: usize) -> (r: DescriptorResult<(&'a [u8], &'a [u8])>)
    ensures
        size <= data@.len() ==> (r is Ok && r->Ok_0.0@ == data@.subrange(0, size as int)
            && r->Ok_0.1@ == data@.subrange(size as int, data@.len() as int)),
        size > data@.len() ==> (r is Err && r->Err_0 == DescriptorError::InvalidSize),
{
    if size <= data.len() {
        let prefix = slice_subrange(data, 0, size);
        let rest = slice_subrange(data, size, data.len());
        Ok((prefix, rest))
    } else {
        Err(DescriptorError::InvalidSize)
    }
}

} // verus!
