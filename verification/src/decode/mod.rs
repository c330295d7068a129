//! Decoders for the field encodings of the data section.

use vstd::arithmetic::power2::{lemma_pow2_pos, lemma_pow2_unfold, pow2};
use vstd::bits::{lemma_u64_low_bits_mask_is_mod, lemma_u64_shl_is_mul, low_bits_mask};
use vstd::prelude::*;

mod elias_delta;
mod encoding;
mod negative_14_bit;
mod tagged_16;
mod tagged_32;
mod tagged_variable;
mod variable;
mod versioned;

pub use self::elias_delta::{
    elias_zeros, i32_elias_delta_spec, lemma_bits_value_bound, read_i32_elias_delta,
    read_u32_elias_delta, u32_elias_delta_spec,
};
pub use self::encoding::{decode_spec, encoding_is_signed, encoding_of_num, max_chunk, Encoding};
pub use self::negative_14_bit::{negative_14_bit, negative_14_bit_spec, negative_14_bit_value};
pub use self::tagged_16::{
    nibble, nibbles_value, tag_16_of, tag_16_offset, tag_16_width, tagged_16, tagged_16_field,
    tagged_16_spec,
};
pub use self::tagged_32::{le_signed, tagged_32, tagged_32_spec};
pub use self::tagged_variable::{
    prefix_then, tagged_variable, tagged_variable_from, tagged_variable_spec,
};
pub use self::versioned::{
    i4_to_i16, i4_value, prepend_i16, read_tagged_16, tag_of, tagged_16_fields,
    tagged_16_versioned_spec,
};
pub use self::variable::{pow128, variable, variable_from, variable_signed, variable_signed_spec, variable_spec};

verus! {

/// A failure to decode a value.
#[derive(Debug, Clone, Copy, PartialEq, Eq, Structural)]
pub enum ParseError {
    /// The data ended in the middle of the value.
    UnexpectedEof,
    /// The data cannot be a valid encoding.
    Corrupted,
}

/// A recoverable failure while decoding a frame.
#[derive(Debug, Clone, Copy, PartialEq, Eq, Structural)]
pub enum InternalError {
    /// Found something unexpected; parsing may resume at the next byte.
    Retry,
    /// Found the end of the data.
    Eof,
}

/// The recoverable error that stands for a decoding failure.
pub open spec fn internal_error_of(err: ParseError) -> InternalError {
    match err {
        ParseError::UnexpectedEof => InternalError::Eof,
        ParseError::Corrupted => InternalError::Retry,
    }
}

impl InternalError {
    /// Converts a decoding failure: the end of the data stays the end of the
    /// data, anything else can be retried.
    pub fn from_parse_error(err: ParseError) -> (res: Self)
        ensures
            res == internal_error_of(err),
    {
        match err {
            ParseError::UnexpectedEof => InternalError::Eof,
            ParseError::Corrupted => InternalError::Retry,
        }
    }
}

/// The integer that a zig-zag encoded value stands for: even values are the
/// non-negative integers, odd values the negative ones.
pub open spec fn zig_zag_value(value: u32) -> int {
    if value % 2 == 0 {
        (value / 2) as int
    } else {
        -((value / 2) as int) - 1
    }
}

/// Decodes a zig-zag encoded integer.
pub fn zig_zag_decode(value: u32) -> (res: i32)
    ensures
        res as int == zig_zag_value(value),
{
    assert(value >> 1 <= 0x7fff_ffff && value & 1 <= 1) by (bit_vector);
    let half = (value >> 1) as i32;
    let low = (value & 1) as i32;
    let mask = 0i32 - low;
    let res = half ^ mask;
    assert(res as int == zig_zag_value(value)) by (bit_vector)
        requires
            half == (value >> 1) as i32,
            low == (value & 1) as i32,
            mask == (0 - low) as i32,
            res == half ^ mask,
    ;
    res
}

/// The integer that the low `bits` bits of `value` stand for in two's
/// complement.
pub open spec fn sign_extend_value(value: nat, bits: nat) -> int {
    let low = value % pow2(bits);
    if low >= pow2((bits - 1) as nat) {
        low - pow2(bits)
    } else {
        low as int
    }
}

/// Reads the low `bits` bits of `from` as a two's complement integer.
pub fn sign_extend(from: u32, bits: u32) -> (res: i32)
    requires
        1 <= bits <= 32,
    ensures
        res as int == sign_extend_value(from as nat, bits as nat),
{
    let unused = 32 - bits;
    let res = ((from << unused) as i32) >> unused;
    proof {
        let x = from as u64;
        let b = bits as u64;
        let mask: u64 = low_bits_mask(bits as nat) as u64;
        let half: u64 = 1u64 << ((b - 1) as u64);
        assert(low_bits_mask(bits as nat) == pow2(bits as nat) - 1) by {
            lemma_pow2_pos(bits as nat);
        }
        vstd::bits::lemma_u64_pow2_no_overflow(bits as nat);
        lemma_u64_low_bits_mask_is_mod(x, bits as nat);
        lemma_pow2_pos((bits - 1) as nat);
        lemma_pow2_unfold(bits as nat);
        lemma_u64_shl_is_mul(1, (b - 1) as u64);
        vstd::bits::lemma_u64_pow2_no_overflow((bits - 1) as nat);
        assert(half == pow2((bits - 1) as nat));
        assert(mask == 2 * half - 1);
        assert(res as int == (if x & mask >= half {
            (x & mask) as int - 2 * half
        } else {
            (x & mask) as int
        })) by (bit_vector)
            requires
                1 <= b <= 32,
                x < 0x1_0000_0000,
                half == 1u64 << ((b - 1) as u64),
                mask == 2 * half - 1,
                unused == 32 - b,
                res == ((from << unused) as i32) >> unused,
                x == from,
        ;
    }
    res
}

} // verus!
