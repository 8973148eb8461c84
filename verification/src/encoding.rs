//! The canonical binary form of a block header.
//!
//! A header is encoded field by field, in the order of declaration: integers
//! as fixed-width little-endian, byte strings as a 64-bit little-endian
//! length followed by the bytes. The digest of this form is the identity of
//! a block, so the form is frozen.

use vstd::prelude::*;
use vstd::bytes::{
    lemma_auto_spec_u32_to_from_le_bytes, lemma_auto_spec_u64_to_from_le_bytes,
    spec_u32_to_le_bytes, spec_u64_to_le_bytes,
};
use crate::block::{BlockHeader, BlockHeaderView};

verus! {

/// Two's-complement image of a signed 64-bit integer.
pub open spec fn twos_complement(x: i64) -> u64 {
    if x >= 0 {
        x as u64
    } else {
        (x + 0x1_0000_0000_0000_0000) as u64
    }
}

/// A byte string preceded by its length as a 64-bit little-endian integer.
pub open spec fn length_prefixed(bytes: Seq<u8>) -> Seq<u8> {
    spec_u64_to_le_bytes(bytes.len() as u64) + bytes
}

/// The canonical encoding of a header.
pub open spec fn header_encoding(h: BlockHeaderView) -> Seq<u8> {
    spec_u64_to_le_bytes(h.height)
        + spec_u64_to_le_bytes(twos_complement(h.timestamp))
        + length_prefixed(h.prev_hash)
        + spec_u64_to_le_bytes(h.nonce)
        + spec_u32_to_le_bytes(h.difficulty)
        + length_prefixed(h.merkle_root)
}

/// Encodes a header with `bincode::serialize`, applied to the tuple of its
/// fields in declaration order.
///
/// Trusted: with bincode's fixed-width little-endian configuration a tuple
/// is the concatenation of its fields, an integer is its little-endian
/// bytes (a signed one by its two's-complement image), and a byte vector is
/// its length as a `u64` followed by its bytes; writing into a vector
/// without a size limit does not fail.
#[verifier::external_body]
pub(crate) fn encode_header(header: &BlockHeader) -> (out: Vec<u8>)
    ensures
        out@ == header_encoding(header@),
{
    bincode::serialize(&(
        header.height,
        header.timestamp,
        &header.prev_hash,
        header.nonce,
        header.difficulty,
        &header.merkle_root,
    )).expect("block header serialization")
}

/// Two byte strings that start with parts of one length and are equal as
/// wholes are equal part by part.
proof fn split_equal(x1: Seq<u8>, r1: Seq<u8>, x2: Seq<u8>, r2: Seq<u8>)
    requires
        x1 + r1 == x2 + r2,
        x1.len() == x2.len(),
    ensures
        x1 == x2,
        r1 == r2,
{
    let n = x1.len() as int;
    let whole = x1 + r1;
    assert(x1 =~= whole.subrange(0, n) && x2 =~= whole.subrange(0, n));
    assert(r1 =~= whole.subrange(n, whole.len() as int));
    assert(r2 =~= whole.subrange(n, whole.len() as int));
}

/// A 64-bit integer can be read back from the front of what follows it.
proof fn split_u64(x1: u64, r1: Seq<u8>, x2: u64, r2: Seq<u8>)
    requires
        spec_u64_to_le_bytes(x1) + r1 == spec_u64_to_le_bytes(x2) + r2,
    ensures
        x1 == x2,
        r1 == r2,
{
    lemma_auto_spec_u64_to_from_le_bytes();
    split_equal(spec_u64_to_le_bytes(x1), r1, spec_u64_to_le_bytes(x2), r2);
}

/// A length-prefixed byte string can be read back from the front of what
/// follows it.
proof fn split_length_prefixed(p1: Seq<u8>, r1: Seq<u8>, p2: Seq<u8>, r2: Seq<u8>)
    requires
        length_prefixed(p1) + r1 == length_prefixed(p2) + r2,
        p1.len() <= u64::MAX,
        p2.len() <= u64::MAX,
    ensures
        p1 == p2,
        r1 == r2,
{
    let n1 = p1.len() as u64;
    let n2 = p2.len() as u64;
    assert(length_prefixed(p1) + r1 =~= spec_u64_to_le_bytes(n1) + (p1 + r1));
    assert(length_prefixed(p2) + r2 =~= spec_u64_to_le_bytes(n2) + (p2 + r2));
    split_u64(n1, p1 + r1, n2, p2 + r2);
    split_equal(p1, r1, p2, r2);
}

/// The encoding of a header is 44 bytes longer than its two byte strings
/// together.
pub proof fn header_encoding_len(h: BlockHeaderView)
    ensures
        header_encoding(h).len() == 44 + h.prev_hash.len() + h.merkle_root.len(),
{
    lemma_auto_spec_u64_to_from_le_bytes();
    lemma_auto_spec_u32_to_from_le_bytes();
}

/// Headers that differ in any field differ in their encoding: what is
/// hashed determines the header.
pub proof fn header_encoding_is_injective(a: BlockHeader, b: BlockHeader)
    requires
        header_encoding(a@) == header_encoding(b@),
    ensures
        a@ == b@,
{
    lemma_auto_spec_u64_to_from_le_bytes();
    lemma_auto_spec_u32_to_from_le_bytes();
    assert(a.prev_hash@.len() == a.prev_hash.len() && b.prev_hash@.len() == b.prev_hash.len());
    assert(a.merkle_root@.len() == a.merkle_root.len() && b.merkle_root@.len()
        == b.merkle_root.len());
    let none = Seq::<u8>::empty();
    let a5 = length_prefixed(a@.merkle_root) + none;
    let b5 = length_prefixed(b@.merkle_root) + none;
    let a4 = spec_u32_to_le_bytes(a@.difficulty) + a5;
    let b4 = spec_u32_to_le_bytes(b@.difficulty) + b5;
    let a3 = spec_u64_to_le_bytes(a@.nonce) + a4;
    let b3 = spec_u64_to_le_bytes(b@.nonce) + b4;
    let a2 = length_prefixed(a@.prev_hash) + a3;
    let b2 = length_prefixed(b@.prev_hash) + b3;
    let a1 = spec_u64_to_le_bytes(twos_complement(a@.timestamp)) + a2;
    let b1 = spec_u64_to_le_bytes(twos_complement(b@.timestamp)) + b2;
    assert(header_encoding(a@) =~= spec_u64_to_le_bytes(a@.height) + a1);
    assert(header_encoding(b@) =~= spec_u64_to_le_bytes(b@.height) + b1);
    split_u64(a@.height, a1, b@.height, b1);
    split_u64(twos_complement(a@.timestamp), a2, twos_complement(b@.timestamp), b2);
    split_length_prefixed(a@.prev_hash, a3, b@.prev_hash, b3);
    split_u64(a@.nonce, a4, b@.nonce, b4);
    split_equal(
        spec_u32_to_le_bytes(a@.difficulty),
        a5,
        spec_u32_to_le_bytes(b@.difficulty),
        b5,
    );
    split_length_prefixed(a@.merkle_root, none, b@.merkle_root, none);
}

} // verus!
