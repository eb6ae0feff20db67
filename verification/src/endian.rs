//! Byte-order views of a 32-bit pattern, and the facts that relate them:
//! each order decodes its own encoding, and the two fixed orders are
//! reverses of one another.

use vstd::endian::Endian;
use vstd::endian::endianness;
use vstd::prelude::*;

verus! {

broadcast use vstd::seq::group_seq_axioms;

/// The little-endian byte sequence of a 32-bit pattern: least significant
/// byte first.
pub open spec fn le_bytes_of(b: u32) -> Seq<u8> {
    seq![
        (b & 0xff) as u8,
        ((b >> 8) & 0xff) as u8,
        ((b >> 16) & 0xff) as u8,
        ((b >> 24) & 0xff) as u8,
    ]
}

/// The big-endian byte sequence of a 32-bit pattern: most significant
/// byte first.
pub open spec fn be_bytes_of(b: u32) -> Seq<u8> {
    seq![
        ((b >> 24) & 0xff) as u8,
        ((b >> 16) & 0xff) as u8,
        ((b >> 8) & 0xff) as u8,
        (b & 0xff) as u8,
    ]
}

/// The byte sequence of a 32-bit pattern in the byte order of the hardware
/// this program runs on, which is one of the two fixed orders.
pub open spec fn ne_bytes_of(b: u32) -> Seq<u8> {
    match endianness() {
        Endian::Little => le_bytes_of(b),
        Endian::Big => be_bytes_of(b),
    }
}

/// The 32-bit pattern read from four bytes in little-endian order.
pub open spec fn u32_of_le_bytes(s: Seq<u8>) -> u32
    recommends
        s.len() == 4,
{
    (s[0] as u32) | (s[1] as u32) << 8 | (s[2] as u32) << 16 | (s[3] as u32) << 24
}

/// The 32-bit pattern read from four bytes in big-endian order.
pub open spec fn u32_of_be_bytes(s: Seq<u8>) -> u32
    recommends
        s.len() == 4,
{
    (s[3] as u32) | (s[2] as u32) << 8 | (s[1] as u32) << 16 | (s[0] as u32) << 24
}

/// The 32-bit pattern read from four bytes in the hardware's byte order.
pub open spec fn u32_of_ne_bytes(s: Seq<u8>) -> u32
    recommends
        s.len() == 4,
{
    match endianness() {
        Endian::Little => u32_of_le_bytes(s),
        Endian::Big => u32_of_be_bytes(s),
    }
}

/// Whether the four bytes of a 32-bit pattern read the same forwards and
/// backwards, so that both fixed byte orders encode it alike.
pub open spec fn byte_symmetric(b: u32) -> bool {
    le_bytes_of(b)[0] == le_bytes_of(b)[3] && le_bytes_of(b)[1] == le_bytes_of(b)[2]
}

/// Decoding the little-endian encoding of any 32-bit pattern gives the
/// pattern back.
pub proof fn lemma_le_round_trip(b: u32)
    ensures
        u32_of_le_bytes(le_bytes_of(b)) == b,
{
    assert(((b & 0xff) as u8 as u32) | (((b >> 8) & 0xff) as u8 as u32) << 8 | (((b >> 16)
        & 0xff) as u8 as u32) << 16 | (((b >> 24) & 0xff) as u8 as u32) << 24 == b)
        by (bit_vector);
}

/// Decoding the big-endian encoding of any 32-bit pattern gives the
/// pattern back.
pub proof fn lemma_be_round_trip(b: u32)
    ensures
        u32_of_be_bytes(be_bytes_of(b)) == b,
{
    assert(((b & 0xff) as u8 as u32) | (((b >> 8) & 0xff) as u8 as u32) << 8 | (((b >> 16)
        & 0xff) as u8 as u32) << 16 | (((b >> 24) & 0xff) as u8 as u32) << 24 == b)
        by (bit_vector);
}

/// Decoding the native-endian encoding of any 32-bit pattern gives the
/// pattern back, whichever byte order the hardware uses.
pub proof fn lemma_ne_round_trip(b: u32)
    ensures
        u32_of_ne_bytes(ne_bytes_of(b)) == b,
{
    match endianness() {
        Endian::Little => lemma_le_round_trip(b),
        Endian::Big => lemma_be_round_trip(b),
    }
}

/// The big-endian byte sequence is the little-endian byte sequence reversed.
pub proof fn lemma_be_reverses_le(b: u32)
    ensures
        be_bytes_of(b) == le_bytes_of(b).reverse(),
{
    assert(be_bytes_of(b) =~= le_bytes_of(b).reverse());
}

/// For a pattern whose bytes are not symmetric, the two fixed byte orders
/// encode it differently.
pub proof fn lemma_cross_order_distinct(b: u32)
    requires
        !byte_symmetric(b),
    ensures
        le_bytes_of(b) != be_bytes_of(b),
{
    if le_bytes_of(b) == be_bytes_of(b) {
        assert(le_bytes_of(b)[0] == be_bytes_of(b)[0]);
        assert(le_bytes_of(b)[1] == be_bytes_of(b)[1]);
    }
}

/// Relies on `i32::to_ne_bytes`: the bytes of the two's-complement pattern
/// come in the byte order of the hardware this program runs on, which
/// vstd abstracts as `endianness()`.
#[verifier::external_body]
pub(crate) fn i32_to_ne_bytes(x: i32) -> (r: [u8; 4])
    ensures
        r@ == ne_bytes_of(x as u32),
{
    x.to_ne_bytes()
}

/// Relies on `i32::from_ne_bytes`: the four bytes are read as one
/// two's-complement pattern in the byte order of the hardware this program
/// runs on, which vstd abstracts as `endianness()`.
#[verifier::external_body]
pub(crate) fn i32_from_ne_bytes(bytes: [u8; 4]) -> (r: i32)
    ensures
        r as u32 == u32_of_ne_bytes(bytes@),
{
    i32::from_ne_bytes(bytes)
}

} // verus!
