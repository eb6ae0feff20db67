use crate::endian::be_bytes_of;
use crate::endian::i32_from_ne_bytes;
use crate::endian::i32_to_ne_bytes;
use crate::endian::le_bytes_of;
use crate::endian::lemma_be_round_trip;
use crate::endian::lemma_le_round_trip;
use crate::endian::lemma_ne_round_trip;
use crate::endian::ne_bytes_of;
use crate::endian::u32_of_be_bytes;
use crate::endian::u32_of_le_bytes;
use crate::endian::u32_of_ne_bytes;
use vstd::prelude::*;

verus! {

broadcast use vstd::seq::group_seq_axioms;

/// The 32-bit signed fixed-point type: a stored significand `s` standing for
/// the real value `s * 2^e`, where the exponent `e` is fixed per type and not
/// stored at runtime.
///
/// The exponent is carried in the type as the unsigned parameter `E`, read as
/// a 32-bit two's-complement pattern: `I32F<3>` scales by `2^3`, and
/// `I32F<0xFFFF_FFF8>` (the pattern of `-8`) scales by `2^-8`. Two
/// instantiations with different parameters are distinct types with no
/// conversion between them.
#[derive(Clone, Copy, Hash, PartialEq, Eq)]
pub struct I32F<const E: u32> {
    raw: i32,
}

impl<const E: u32> I32F<E> {
    /// The stored significand: the whole runtime state of a value.
    pub closed spec fn spec_significand(self) -> i32 {
        self.raw
    }

    /// The significand's two's-complement bit pattern.
    pub open spec fn spec_bits(self) -> u32 {
        self.spec_significand() as u32
    }

    /// The exponent this type scales by: the type parameter read as a
    /// 32-bit two's-complement pattern.
    pub open spec fn spec_exponent() -> int {
        (E as i32) as int
    }

    /// The size of this type in bits.
    pub const BITS: u32 = 32;

    /// The smallest value this fixed-point type can represent, equal to
    /// `-2^31 * 2^E`: it wraps the minimum 32-bit signed significand.
    #[must_use]
    pub fn min() -> (r: Self)
        ensures
            r.spec_significand() == i32::MIN,
    {
        I32F { raw: i32::MIN }
    }

    /// The largest value this fixed-point type can represent, equal to
    /// `(2^31 - 1) * 2^E`: it wraps the maximum 32-bit signed significand.
    #[must_use]
    pub fn max() -> (r: Self)
        ensures
            r.spec_significand() == i32::MAX,
    {
        I32F { raw: i32::MAX }
    }

    /// Creates a fixed-point number from an integer significand, equal to
    /// `significand * 2^E`. The significand is stored verbatim.
    #[must_use]
    pub fn new(significand: i32) -> (r: Self)
        ensures
            r.spec_significand() == significand,
    {
        I32F { raw: significand }
    }

    /// Raw transmutation from `u32`: the bit pattern is reinterpreted as the
    /// two's-complement significand, not converted numerically.
    #[must_use]
    pub fn from_bits(bits: u32) -> (r: Self)
        ensures
            r.spec_bits() == bits,
            r.spec_significand() == bits as i32,
    {
        proof {
            assert(bits as i32 as u32 == bits) by (bit_vector);
        }
        I32F { raw: #[verifier::truncate] (bits as i32) }
    }

    /// Raw transmutation to `u32`: the significand's two's-complement bit
    /// pattern unchanged.
    #[must_use]
    pub fn to_bits(self) -> (r: u32)
        ensures
            r == self.spec_bits(),
    {
        #[verifier::truncate] (self.raw as u32)
    }

    /// Returns the fixed-point significand as stored.
    #[must_use]
    pub fn significand(self) -> (r: i32)
        ensures
            r == self.spec_significand(),
    {
        self.raw
    }

    /// Returns the fixed-point exponent, whatever significand is stored.
    #[must_use]
    pub fn exponent(self) -> (r: i32)
        ensures
            r as int == Self::spec_exponent(),
    {
        #[verifier::truncate] (E as i32)
    }

    /// Returns the significand's bytes in big-endian (network) byte order.
    #[must_use]
    pub fn to_be_bytes(self) -> (r: [u8; 4])
        ensures
            r@ == be_bytes_of(self.spec_bits()),
    {
        let b = self.to_bits();
        proof {
            assert((b >> 24) & 0xff < 256 && (b >> 16) & 0xff < 256 && (b >> 8) & 0xff < 256 && b
                & 0xff < 256) by (bit_vector);
        }
        let r: [u8; 4] = [
            ((b >> 24) & 0xff) as u8,
            ((b >> 16) & 0xff) as u8,
            ((b >> 8) & 0xff) as u8,
            (b & 0xff) as u8,
        ];
        proof {
            assert(r@ =~= be_bytes_of(self.spec_bits()));
        }
        r
    }

    /// Returns the significand's bytes in little-endian byte order.
    #[must_use]
    pub fn to_le_bytes(self) -> (r: [u8; 4])
        ensures
            r@ == le_bytes_of(self.spec_bits()),
    {
        let b = self.to_bits();
        proof {
            assert(b & 0xff < 256 && (b >> 8) & 0xff < 256 && (b >> 16) & 0xff < 256 && (b >> 24)
                & 0xff < 256) by (bit_vector);
        }
        let r: [u8; 4] = [
            (b & 0xff) as u8,
            ((b >> 8) & 0xff) as u8,
            ((b >> 16) & 0xff) as u8,
            ((b >> 24) & 0xff) as u8,
        ];
        proof {
            assert(r@ =~= le_bytes_of(self.spec_bits()));
        }
        r
    }

    /// Returns the significand's bytes in the platform's native byte order.
    /// Portable code likely wants `to_be_bytes` or `to_le_bytes` instead.
    #[must_use]
    pub fn to_ne_bytes(self) -> (r: [u8; 4])
        ensures
            r@ == ne_bytes_of(self.spec_bits()),
    {
        i32_to_ne_bytes(self.significand())
    }

    /// Creates a fixed-point number from four bytes read as a big-endian
    /// 32-bit signed integer.
    #[must_use]
    pub fn from_be_bytes(bytes: [u8; 4]) -> (r: Self)
        ensures
            r.spec_bits() == u32_of_be_bytes(bytes@),
            r.spec_significand() == u32_of_be_bytes(bytes@) as i32,
    {
        let b: u32 = (bytes[3] as u32) | ((bytes[2] as u32) << 8) | ((bytes[1] as u32) << 16) | ((
        bytes[0] as u32) << 24);
        Self::from_bits(b)
    }

    /// Creates a fixed-point number from four bytes read as a little-endian
    /// 32-bit signed integer.
    #[must_use]
    pub fn from_le_bytes(bytes: [u8; 4]) -> (r: Self)
        ensures
            r.spec_bits() == u32_of_le_bytes(bytes@),
            r.spec_significand() == u32_of_le_bytes(bytes@) as i32,
    {
        let b: u32 = (bytes[0] as u32) | ((bytes[1] as u32) << 8) | ((bytes[2] as u32) << 16) | ((
        bytes[3] as u32) << 24);
        Self::from_bits(b)
    }

    /// Creates a fixed-point number from four bytes read as a 32-bit signed
    /// integer in the platform's native byte order. Portable code likely
    /// wants `from_be_bytes` or `from_le_bytes` instead.
    #[must_use]
    pub fn from_ne_bytes(bytes: [u8; 4]) -> (r: Self)
        ensures
            r.spec_bits() == u32_of_ne_bytes(bytes@),
            r.spec_significand() == u32_of_ne_bytes(bytes@) as i32,
    {
        let s = i32_from_ne_bytes(bytes);
        proof {
            let x = u32_of_ne_bytes(bytes@);
            assert(s as u32 == x ==> s == x as i32) by (bit_vector);
        }
        Self::new(s)
    }
}

/// Decoding, in big-endian order, the big-endian encoding of any
/// significand reproduces the significand exactly.
pub proof fn lemma_be_significand_round_trip(s: i32)
    ensures
        u32_of_be_bytes(be_bytes_of(s as u32)) as i32 == s,
{
    lemma_be_round_trip(s as u32);
    assert(s as u32 as i32 == s) by (bit_vector);
}

/// Decoding, in little-endian order, the little-endian encoding of any
/// significand reproduces the significand exactly.
pub proof fn lemma_le_significand_round_trip(s: i32)
    ensures
        u32_of_le_bytes(le_bytes_of(s as u32)) as i32 == s,
{
    lemma_le_round_trip(s as u32);
    assert(s as u32 as i32 == s) by (bit_vector);
}

/// Decoding, in native order, the native-endian encoding of any significand
/// reproduces the significand exactly, whichever byte order the hardware
/// uses.
pub proof fn lemma_ne_significand_round_trip(s: i32)
    ensures
        u32_of_ne_bytes(ne_bytes_of(s as u32)) as i32 == s,
{
    lemma_ne_round_trip(s as u32);
    assert(s as u32 as i32 == s) by (bit_vector);
}

} // verus!
