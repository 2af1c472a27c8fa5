//! Verified core of a verified-boot trust extension.
//!
//! The crate covers two areas:
//!
//! * decoding of typed binary descriptor records out of signed boot metadata,
//!   with strict bounds checking over attacker-influenced buffers
//!   ([`descriptor`]);
//! * a rotateable signing-key hierarchy and an authenticated-unlock
//!   challenge/credential protocol, built over a small callback surface that
//!   the hosting device implements ([`cert`]).

pub mod cert;
pub mod descriptor;
pub mod error;
mod wire;
