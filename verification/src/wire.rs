//! Byte-order normalization and byte-sequence helpers.
//!
//! Every multi-byte integer field of the wire formats in this crate is
//! encoded big-endian. The readers and writers here are verified against the
//! specification functions [`be_u32_at`], [`be_u64_at`], [`spec_be_u32`] and
//! [`spec_be_u64`], which the contracts of the decoders and serializers are
//! stated over.

use vstd::prelude::*;
use vstd::slice::slice_index_get;

verus! {

/// The value of the four big-endian bytes of `s` starting at `off`.
pub open spec fn be_u32_at(s: Seq<u8>, off: int) -> u32
    recommends
        0 <= off,
        off + 4 <= s.len(),
{
    (s[off] * 0x100_0000 + s[off + 1] * 0x1_0000 + s[off + 2] * 0x100 + s[off + 3]) as u32
}

/// The value of the eight big-endian bytes of `s` starting at `off`.
pub open spec fn be_u64_at(s: Seq<u8>, off: int) -> u64
    recommends
        0 <= off,
        off + 8 <= s.len(),
{
    (s[off] * 0x100_0000_0000_0000 + s[off + 1] * 0x1_0000_0000_0000 + s[off + 2]
        * 0x100_0000_0000 + s[off + 3] * 0x1_0000_0000 + s[off + 4] * 0x100_0000 + s[off + 5]
        * 0x1_0000 + s[off + 6] * 0x100 + s[off + 7]) as u64
}

/// The big-endian encoding of `v` in four bytes.
pub open spec fn spec_be_u32(v: u32) -> Seq<u8> {
    seq![
        (v / 0x100_0000 % 0x100) as u8,
        (v / 0x1_0000 % 0x100) as u8,
        (v / 0x100 % 0x100) as u8,
        (v % 0x100) as u8,
    ]
}

/// The big-endian encoding of `v` in eight bytes.
pub open spec fn spec_be_u64(v: u64) -> Seq<u8> {
    seq![
        (v / 0x100_0000_0000_0000 % 0x100) as u8,
        (v / 0x1_0000_0000_0000 % 0x100) as u8,
        (v / 0x100_0000_0000 % 0x100) as u8,
        (v / 0x1_0000_0000 % 0x100) as u8,
        (v / 0x100_0000 % 0x100) as u8,
        (v / 0x1_0000 % 0x100) as u8,
        (v / 0x100 % 0x100) as u8,
        (v % 0x100) as u8,
    ]
}

/// Re-encoding the value read at `off` yields exactly the four bytes at
/// `off`: serialization inverts normalization.
pub proof fn lemma_be_u32_roundtrip(s: Seq<u8>, off: int)
    requires
        0 <= off,
        off + 4 <= s.len(),
    ensures
        spec_be_u32(be_u32_at(s, off)) == s.subrange(off, off + 4),
{
    let b0 = s[off];
    let b1 = s[off + 1];
    let b2 = s[off + 2];
    let b3 = s[off + 3];
    let v = be_u32_at(s, off);
    assert(v == b0 * 0x100_0000 + b1 * 0x1_0000 + b2 * 0x100 + b3);
    assert(v / 0x100_0000 % 0x100 == b0 as u32 && v / 0x1_0000 % 0x100 == b1 as u32 && v / 0x100
        % 0x100 == b2 as u32 && v % 0x100 == b3 as u32) by (bit_vector)
        requires
            v == (b0 as u32) * 0x100_0000 + (b1 as u32) * 0x1_0000 + (b2 as u32) * 0x100 + (
            b3 as u32),
    ;
    assert(spec_be_u32(v) =~= s.subrange(off, off + 4));
}

/// Re-encoding the value read at `off` yields exactly the eight bytes at
/// `off`: serialization inverts normalization.
pub proof fn lemma_be_u64_roundtrip(s: Seq<u8>, off: int)
    requires
        0 <= off,
        off + 8 <= s.len(),
    ensures
        spec_be_u64(be_u64_at(s, off)) == s.subrange(off, off + 8),
{
    let b0 = s[off];
    let b1 = s[off + 1];
    let b2 = s[off + 2];
    let b3 = s[off + 3];
    let b4 = s[off + 4];
    let b5 = s[off + 5];
    let b6 = s[off + 6];
    let b7 = s[off + 7];
    let v = be_u64_at(s, off);
    assert(v == b0 * 0x100_0000_0000_0000 + b1 * 0x1_0000_0000_0000 + b2 * 0x100_0000_0000 + b3
        * 0x1_0000_0000 + b4 * 0x100_0000 + b5 * 0x1_0000 + b6 * 0x100 + b7);
    assert(v / 0x100_0000_0000_0000 % 0x100 == b0 as u64 && v / 0x1_0000_0000_0000 % 0x100
        == b1 as u64 && v / 0x100_0000_0000 % 0x100 == b2 as u64 && v / 0x1_0000_0000 % 0x100
        == b3 as u64 && v / 0x100_0000 % 0x100 == b4 as u64 && v / 0x1_0000 % 0x100 == b5 as u64
        && v / 0x100 % 0x100 == b6 as u64 && v % 0x100 == b7 as u64) by (bit_vector)
        requires
            v == (b0 as u64) * 0x100_0000_0000_0000 + (b1 as u64) * 0x1_0000_0000_0000 + (
            b2 as u64) * 0x100_0000_0000 + (b3 as u64) * 0x1_0000_0000 + (b4 as u64) * 0x100_0000
                + (b5 as u64) * 0x1_0000 + (b6 as u64) * 0x100 + (b7 as u64),
    ;
    assert(spec_be_u64(v) =~= s.subrange(off, off + 8));
}

/// Reads the big-endian `u32` stored in `bytes` at `off`.
pub fn read_be_u32(bytes: &[u8], off: usize) -> (r: u32)
    requires
        off + 4 <= bytes@.len(),
    ensures
        r == be_u32_at(bytes@, off as int),
{
    // Reading the length first tells the verifier the offsets below fit usize.
    let _n: usize = bytes.len();
    let b0 = *slice_index_get(bytes, off);
    let b1 = *slice_index_get(bytes, off + 1);
    let b2 = *slice_index_get(bytes, off + 2);
    let b3 = *slice_index_get(bytes, off + 3);
    (b0 as u32) * 0x100_0000 + (b1 as u32) * 0x1_0000 + (b2 as u32) * 0x100 + (b3 as u32)
}

/// Reads the big-endian `u64` stored in `bytes` at `off`.
pub fn read_be_u64(bytes: &[u8], off: usize) -> (r: u64)
    requires
        off + 8 <= bytes@.len(),
    ensures
        r == be_u64_at(bytes@, off as int),
{
    // Reading the length first tells the verifier the offsets below fit usize.
    let _n: usize = bytes.len();
    let b0 = *slice_index_get(bytes, off);
    let b1 = *slice_index_get(bytes, off + 1);
    let b2 = *slice_index_get(bytes, off + 2);
    let b3 = *slice_index_get(bytes, off + 3);
    let b4 = *slice_index_get(bytes, off + 4);
    let b5 = *slice_index_get(bytes, off + 5);
    let b6 = *slice_index_get(bytes, off + 6);
    let b7 = *slice_index_get(bytes, off + 7);
    (b0 as u64) * 0x100_0000_0000_0000 + (b1 as u64) * 0x1_0000_0000_0000 + (b2 as u64)
        * 0x100_0000_0000 + (b3 as u64) * 0x1_0000_0000 + (b4 as u64) * 0x100_0000 + (b5 as u64)
        * 0x1_0000 + (b6 as u64) * 0x100 + (b7 as u64)
}

/// Appends the big-endian encoding of `v` to `out`.
pub fn push_be_u32(out: &mut Vec<u8>, v: u32)
    ensures
        final(out)@ == old(out)@ + spec_be_u32(v),
{
    out.push((v / 0x100_0000 % 0x100) as u8);
    out.push((v / 0x1_0000 % 0x100) as u8);
    out.push((v / 0x100 % 0x100) as u8);
    out.push((v % 0x100) as u8);
    proof {
        assert(out@ =~= old(out)@ + spec_be_u32(v));
    }
}

/// Appends the big-endian encoding of `v` to `out`.
pub fn push_be_u64(out: &mut Vec<u8>, v: u64)
    ensures
        final(out)@ == old(out)@ + spec_be_u64(v),
{
    out.push((v / 0x100_0000_0000_0000 % 0x100) as u8);
    out.push((v / 0x1_0000_0000_0000 % 0x100) as u8);
    out.push((v / 0x100_0000_0000 % 0x100) as u8);
    out.push((v / 0x1_0000_0000 % 0x100) as u8);
    out.push((v / 0x100_0000 % 0x100) as u8);
    out.push((v / 0x1_0000 % 0x100) as u8);
    out.push((v / 0x100 % 0x100) as u8);
    out.push((v % 0x100) as u8);
    proof {
        assert(out@ =~= old(out)@ + spec_be_u64(v));
    }
}

/// Appends every byte of `data` to `out`, in order.
pub fn push_bytes(out: &mut Vec<u8>, data: &[u8])
    ensures
        final(out)@ == old(out)@ + data@,
{
    let mut i: usize = 0;
    while i < data.len()
        invariant
            i <= data@.len(),
            out@ == old(out)@ + data@.subrange(0, i as int),
        decreases data@.len() - i,
    {
        out.push(*slice_index_get(data, i));
        proof {
            assert(data@.subrange(0, i + 1) =~= data@.subrange(0, i as int).push(data@[i as int]));
            assert(out@ =~= old(out)@ + data@.subrange(0, i + 1));
        }
        i += 1;
    }
    proof {
        assert(data@.subrange(0, data@.len() as int) =~= data@);
    }
}

/// Compares two byte slices for equality of contents.
pub fn bytes_eq(a: &[u8], b: &[u8]) -> (r: bool)
    ensures
        r == (a@ == b@),
{
    if a.len() != b.len() {
        return false;
    }
    let mut i: usize = 0;
    while i < a.len()
        invariant
            a@.len() == b@.len(),
            i <= a@.len(),
            forall|j: int| 0 <= j < i ==> a@[j] == b@[j],
        decreases a@.len() - i,
    {
        if *slice_index_get(a, i) != *slice_index_get(b, i) {
            return false;
        }
        i += 1;
    }
    proof {
        assert(a@ =~= b@);
    }
    true
}

} // verus!
