//! Kernel commandline descriptors.
//!
//! A kernel commandline descriptor is a fixed 24-byte header — a type tag, the
//! count of bytes following the generic prefix, a flags word and the declared
//! commandline length, all big-endian — followed by exactly that many bytes of
//! UTF-8 commandline text and optional padding. Decoding follows the
//! validate-then-slice protocol of the parent module and copies nothing: the
//! decoded text is a borrowed view into the original buffer.

use vstd::prelude::*;
use vstd::slice::slice_subrange;
use vstd::string::StringSliceAdditionalSpecFns;
use vstd::utf8::{decode_utf8, valid_utf8};

use crate::descriptor::split_slice;
use crate::error::{DescriptorError, DescriptorResult};
use crate::wire::{be_u32_at, be_u64_at, read_be_u32, read_be_u64};

verus! {

/// Type tag that every kernel commandline descriptor header carries.
pub const KERNEL_COMMANDLINE_DESCRIPTOR_TAG: u64 = 3;

/// Size in bytes of the fixed header layout: generic prefix (tag and byte
/// count, eight bytes each) plus the flags word and the declared commandline
/// length (four bytes each).
pub const KERNEL_COMMANDLINE_DESCRIPTOR_HEADER_SIZE: usize = 24;

/// Size in bytes of the generic descriptor prefix within the header.
pub const DESCRIPTOR_PREFIX_SIZE: usize = 16;

/// Byte-order-normalized header of a kernel commandline descriptor.
#[derive(Clone, Copy, Debug, PartialEq, Eq, Structural)]
pub struct KernelCommandlineDescriptorHeader {
    /// Type tag; must equal [`KERNEL_COMMANDLINE_DESCRIPTOR_TAG`].
    pub tag: u64,
    /// Count of bytes that follow the generic descriptor prefix.
    pub num_bytes_following: u64,
    /// Flags word, passed through to the decoded descriptor uninterpreted.
    pub flags: u32,
    /// Declared length in bytes of the commandline text in the body.
    pub kernel_cmdline_length: u32,
}

/// Flags of a kernel commandline descriptor, carried opaquely.
#[derive(Clone, Copy, Debug, PartialEq, Eq, Structural)]
pub struct KernelCommandlineDescriptorFlags(pub u32);

/// The header encoded in the first 24 bytes of `s`, fields taken out of
/// big-endian wire order.
pub open spec fn spec_header_of(s: Seq<u8>) -> KernelCommandlineDescriptorHeader
    recommends
        s.len() >= KERNEL_COMMANDLINE_DESCRIPTOR_HEADER_SIZE,
{
    KernelCommandlineDescriptorHeader {
        tag: be_u64_at(s, 0),
        num_bytes_following: be_u64_at(s, 8),
        flags: be_u32_at(s, 16),
        kernel_cmdline_length: be_u32_at(s, 20),
    }
}

/// The type-specific header invariants: the tag matches, and the declared
/// commandline length fits in the declared byte count following the generic
/// prefix.
pub open spec fn spec_header_valid(h: KernelCommandlineDescriptorHeader) -> bool {
    &&& h.tag == KERNEL_COMMANDLINE_DESCRIPTOR_TAG
    &&& (KERNEL_COMMANDLINE_DESCRIPTOR_HEADER_SIZE - DESCRIPTOR_PREFIX_SIZE)
        + h.kernel_cmdline_length <= h.num_bytes_following
}

/// The declared commandline text bytes of `contents`: the body prefix whose
/// length the header declares.
pub open spec fn spec_commandline_bytes(contents: Seq<u8>) -> Seq<u8>
    recommends
        contents.len() >= KERNEL_COMMANDLINE_DESCRIPTOR_HEADER_SIZE,
        spec_header_of(contents).kernel_cmdline_length <= contents.len()
            - KERNEL_COMMANDLINE_DESCRIPTOR_HEADER_SIZE,
{
    contents.subrange(
        KERNEL_COMMANDLINE_DESCRIPTOR_HEADER_SIZE as int,
        KERNEL_COMMANDLINE_DESCRIPTOR_HEADER_SIZE + spec_header_of(
            contents,
        ).kernel_cmdline_length,
    )
}

/// True when `contents` decodes to a kernel commandline descriptor: the
/// buffer holds the header, the header passes its structural checks, the
/// declared text fits the buffer, and the text is valid UTF-8.
pub open spec fn spec_decode_ok(contents: Seq<u8>) -> bool {
    &&& contents.len() >= KERNEL_COMMANDLINE_DESCRIPTOR_HEADER_SIZE
    &&& spec_header_valid(spec_header_of(contents))
    &&& spec_header_of(contents).kernel_cmdline_length <= contents.len()
        - KERNEL_COMMANDLINE_DESCRIPTOR_HEADER_SIZE
    &&& valid_utf8(spec_commandline_bytes(contents))
}

/// The error that decoding `contents` reports, assuming it fails: the first
/// check of the protocol that does not hold.
pub open spec fn spec_decode_error(contents: Seq<u8>) -> DescriptorError {
    if contents.len() < KERNEL_COMMANDLINE_DESCRIPTOR_HEADER_SIZE || !spec_header_valid(
        spec_header_of(contents),
    ) {
        DescriptorError::InvalidHeader
    } else if spec_header_of(contents).kernel_cmdline_length > contents.len()
        - KERNEL_COMMANDLINE_DESCRIPTOR_HEADER_SIZE {
        DescriptorError::InvalidSize
    } else {
        DescriptorError::InvalidUtf8
    }
}

/// Reads the header fields out of wire byte order and checks the
/// type-specific header invariants.
///
/// This step is total over any byte pattern: it reads nothing past the fixed
/// header size.
pub fn validate_and_normalize_header(bytes: &[u8]) -> (r: Option<
    KernelCommandlineDescriptorHeader,
>)
    requires
        bytes@.len() >= KERNEL_COMMANDLINE_DESCRIPTOR_HEADER_SIZE,
    ensures
        r is Some <==> spec_header_valid(spec_header_of(bytes@)),
        r is Some ==> r->0 == spec_header_of(bytes@),
{
    let tag = read_be_u64(bytes, 0);
    let num_bytes_following = read_be_u64(bytes, 8);
    let flags = read_be_u32(bytes, 16);
    let kernel_cmdline_length = read_be_u32(bytes, 20);
    if tag != KERNEL_COMMANDLINE_DESCRIPTOR_TAG {
        return None;
    }
    let fixed: u64 = (KERNEL_COMMANDLINE_DESCRIPTOR_HEADER_SIZE - DESCRIPTOR_PREFIX_SIZE) as u64;
    if fixed + (kernel_cmdline_length as u64) > num_bytes_following {
        return None;
    }
    Some(KernelCommandlineDescriptorHeader { tag, num_bytes_following, flags, kernel_cmdline_length })
}

/// Decodes the header of one kernel commandline descriptor and borrows its
/// body, following the validate-then-slice protocol of the parent module.
pub fn parse_descriptor<'a>(contents: &'a [u8]) -> (r: DescriptorResult<
    (KernelCommandlineDescriptorHeader, &'a [u8]),
>)
    ensures
        (contents@.len() >= KERNEL_COMMANDLINE_DESCRIPTOR_HEADER_SIZE && spec_header_valid(
            spec_header_of(contents@),
        )) <==> r is Ok,
        r is Ok ==> r->Ok_0.0 == spec_header_of(contents@) && r->Ok_0.1@ == contents@.subrange(
            KERNEL_COMMANDLINE_DESCRIPTOR_HEADER_SIZE as int,
            contents@.len() as int,
        ),
        r is Err ==> r->Err_0 == DescriptorError::InvalidHeader,
{
    if contents.len() < KERNEL_COMMANDLINE_DESCRIPTOR_HEADER_SIZE {
        return Err(DescriptorError::InvalidHeader);
    }
    let header = match validate_and_normalize_header(contents) {
        Some(h) => h,
        None => {
            return Err(DescriptorError::InvalidHeader);
        },
    };
    let body = slice_subrange(contents, KERNEL_COMMANDLINE_DESCRIPTOR_HEADER_SIZE, contents.len());
    Ok((header, body))
}

/// A decoded kernel commandline descriptor: the flags word carried through
/// uninterpreted, and the commandline text borrowed from the original buffer.
#[derive(Debug, PartialEq, Eq)]
pub struct KernelCommandlineDescriptor<'a> {
    /// Flags.
    pub flags: KernelCommandlineDescriptorFlags,
    /// Kernel commandline.
    pub commandline: &'a str,
}

/// Relies on `core::str::from_utf8`: it returns `Ok` exactly when the bytes
/// are valid UTF-8, and the returned string is a read-only view of those same
/// bytes, whose characters are their UTF-8 decoding.
#[verifier::external_body]
fn str_from_utf8<'a>(bytes: &'a [u8]) -> (r: Option<&'a str>)
    ensures
        r is Some <==> valid_utf8(bytes@),
        r is Some ==> r->0.spec_bytes() == bytes@ && r->0@ == decode_utf8(bytes@),
{
    core::str::from_utf8(bytes).ok()
}

impl<'a> KernelCommandlineDescriptor<'a> {
    /// Extracts a `KernelCommandlineDescriptor` from the given descriptor
    /// contents.
    ///
    /// `contents` is one whole descriptor, header immediately followed by
    /// body, in raw big-endian wire format. Decoding carves out exactly the
    /// declared number of commandline bytes; trailing padding is ignored. No
    /// partial result is exposed: the first failing check of the protocol
    /// decides the error.
    pub fn new(contents: &'a [u8]) -> (r: DescriptorResult<Self>)
        ensures
            r is Ok <==> spec_decode_ok(contents@),
            r is Ok ==> r->Ok_0.flags.0 == spec_header_of(contents@).flags
                && r->Ok_0.commandline.spec_bytes() == spec_commandline_bytes(contents@)
                && r->Ok_0.commandline@ == decode_utf8(spec_commandline_bytes(contents@)),
            r is Err ==> r->Err_0 == spec_decode_error(contents@),
            contents@.len() < KERNEL_COMMANDLINE_DESCRIPTOR_HEADER_SIZE ==> (r is Err
                && r->Err_0 == DescriptorError::InvalidHeader),
            (contents@.len() >= KERNEL_COMMANDLINE_DESCRIPTOR_HEADER_SIZE && spec_header_valid(
                spec_header_of(contents@),
            ) && spec_header_of(contents@).kernel_cmdline_length > contents@.len()
                - KERNEL_COMMANDLINE_DESCRIPTOR_HEADER_SIZE) ==> (r is Err
                && r->Err_0 == DescriptorError::InvalidSize),
    {
        let parsed = match parse_descriptor(contents) {
            Ok(p) => p,
            Err(e) => {
                return Err(e);
            },
        };
        let (header, body) = parsed;
        let split = match split_slice(body, header.kernel_cmdline_length as usize) {
            Ok(p) => p,
            Err(e) => {
                return Err(e);
            },
        };
        let (commandline_bytes, _) = split;
        proof {
            assert(commandline_bytes@ =~= spec_commandline_bytes(contents@));
        }
        match str_from_utf8(commandline_bytes) {
            Some(commandline) => Ok(
                KernelCommandlineDescriptor {
                    flags: KernelCommandlineDescriptorFlags(header.flags),
                    commandline,
                },
            ),
            None => Err(DescriptorError::InvalidUtf8),
        }
    }
}

/// Decoding reads nothing past the declared commandline text: two buffers
/// that agree on the header and on the declared text bytes decode alike,
/// whatever their padding bytes hold and however long their padding is.
pub proof fn lemma_decode_ignores_padding(c1: Seq<u8>, c2: Seq<u8>)
    requires
        c1.len() >= KERNEL_COMMANDLINE_DESCRIPTOR_HEADER_SIZE,
        c2.len() >= KERNEL_COMMANDLINE_DESCRIPTOR_HEADER_SIZE,
        spec_header_of(c1).kernel_cmdline_length <= c1.len()
            - KERNEL_COMMANDLINE_DESCRIPTOR_HEADER_SIZE,
        spec_header_of(c1).kernel_cmdline_length <= c2.len()
            - KERNEL_COMMANDLINE_DESCRIPTOR_HEADER_SIZE,
        forall|i: int|
            0 <= i < KERNEL_COMMANDLINE_DESCRIPTOR_HEADER_SIZE + spec_header_of(
                c1,
            ).kernel_cmdline_length ==> c1[i] == c2[i],
    ensures
        spec_header_of(c1) == spec_header_of(c2),
        spec_commandline_bytes(c1) == spec_commandline_bytes(c2),
        spec_decode_ok(c1) == spec_decode_ok(c2),
{
    assert(spec_header_of(c1) == spec_header_of(c2));
    assert(spec_commandline_bytes(c1) =~= spec_commandline_bytes(c2));
}

} // verus!
