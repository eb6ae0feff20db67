//! A minimal fixed-point numeric type: a 32-bit signed significand paired
//! with a compile-time binary exponent, standing for the real value
//! `significand * 2^exponent`.
//!
//! The type stores the significand verbatim and never rounds or normalizes.
//! Beyond construction and accessors it offers raw-bit reinterpretation,
//! byte encodings in big-, little- and native-endian order, and plain text
//! renderings of the bit pattern in binary, octal and hexadecimal.

mod endian;
mod i32f;
mod text;

pub use endian::be_bytes_of;
pub use endian::byte_symmetric;
pub use endian::le_bytes_of;
pub use endian::lemma_be_reverses_le;
pub use endian::lemma_be_round_trip;
pub use endian::lemma_cross_order_distinct;
pub use endian::lemma_le_round_trip;
pub use endian::lemma_ne_round_trip;
pub use endian::ne_bytes_of;
pub use endian::u32_of_be_bytes;
pub use endian::u32_of_le_bytes;
pub use endian::u32_of_ne_bytes;
pub use i32f::I32F;
pub use i32f::lemma_be_significand_round_trip;
pub use i32f::lemma_le_significand_round_trip;
pub use i32f::lemma_ne_significand_round_trip;
pub use text::debug_chars;
pub use text::dec_chars;
pub use text::dec_digit;
pub use text::digit_char;
pub use text::lemma_debug_chars_injective;
pub use text::radix_digits;
