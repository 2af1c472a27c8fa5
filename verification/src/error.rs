//! The closed set of error kinds that the crate's public operations return.
//!
//! Structural faults in a descriptor buffer are reported through
//! [`DescriptorError`]; faults of the device collaborator are reported through
//! [`IoError`]. Trust decisions are never encoded as errors: a determinate
//! "not trusted" is a success-typed `false`.

use vstd::prelude::*;

verus! {

/// Error from decoding a descriptor record out of a byte buffer.
#[derive(Clone, Copy, Debug, PartialEq, Eq, Structural)]
pub enum DescriptorError {
    /// The buffer is shorter than the fixed header layout, or the header
    /// fails its structural checks.
    InvalidHeader,
    /// The header is well formed, but a declared body length exceeds the
    /// supplied buffer.
    InvalidSize,
    /// A declared text sub-field is not valid UTF-8.
    InvalidUtf8,
}

/// Result of decoding a descriptor record.
pub type DescriptorResult<T> = Result<T, DescriptorError>;

/// Error from a device collaborator call.
#[derive(Clone, Copy, Debug, PartialEq, Eq, Structural)]
pub enum IoError {
    /// A device collaborator call failed (storage unreadable, randomness
    /// unavailable). The device may retry at its own policy.
    Io,
    /// An optional capability is deliberately absent on this device, such as
    /// authenticated unlock.
    NotImplemented,
}

/// Result of an operation that consults the device collaborator.
pub type IoResult<T> = Result<T, IoError>;

} // verus!
