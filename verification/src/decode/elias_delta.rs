//! Elias delta coded integers, read bit by bit.

use super::{zig_zag_decode, zig_zag_value, ParseError};
use crate::reader::{bit_at, bits_value, lemma_bit_at_bound, Reader};
use vstd::arithmetic::power2::{lemma_pow2_pos, lemma_pow2_unfold, pow2};
use vstd::prelude::*;

verus! {

/// Counting the zero bits before the first one bit, from bit `p + i` on; six
/// zeros in a row make the value corrupt.
pub open spec fn elias_zeros(data: Seq<u8>, p: int, i: nat) -> Result<nat, ParseError>
    decreases 6 - i,
{
    if i >= 6 {
        Err(ParseError::Corrupted)
    } else if p + i >= 8 * data.len() {
        Err(ParseError::UnexpectedEof)
    } else if bit_at(data, p + i) == 1 {
        Ok(i)
    } else {
        elias_zeros(data, p, i + 1)
    }
}

/// Decoding an Elias delta coded unsigned integer that starts at bit `p`: the
/// value and the bit position after it.
///
/// `z` zero bits and a one bit are followed by `z` bits that give the length
/// `len` of the value's binary form (less its leading one), then `len` bits of
/// the value plus one.  The code of `u32::MAX - 1` is followed by one more bit
/// that tells it apart from `u32::MAX`.
pub open spec fn u32_elias_delta_spec(data: Seq<u8>, p: int) -> Result<(u32, int), ParseError> {
    let total = 8 * data.len();
    match elias_zeros(data, p, 0) {
        Err(e) => Err(e),
        Ok(z) => {
            let p1 = p + z + 1;
            if p1 + z > total {
                Err(ParseError::UnexpectedEof)
            } else {
                let len = pow2(z) + bits_value(data, p1, z) - 1;
                if len > 31 {
                    Err(ParseError::Corrupted)
                } else {
                    let p2 = p1 + z;
                    if p2 + len > total {
                        Err(ParseError::UnexpectedEof)
                    } else {
                        let v = pow2(len as nat) + bits_value(data, p2, len as nat) - 1;
                        let p3 = p2 + len;
                        if v == 0xffff_fffe {
                            if p3 >= total {
                                Err(ParseError::UnexpectedEof)
                            } else {
                                Ok(((v + bit_at(data, p3)) as u32, p3 + 1))
                            }
                        } else {
                            Ok((v as u32, p3))
                        }
                    }
                }
            }
        },
    }
}

/// Decoding an Elias delta coded signed integer that starts at bit `p`.
pub open spec fn i32_elias_delta_spec(data: Seq<u8>, p: int) -> Result<(i32, int), ParseError> {
    match u32_elias_delta_spec(data, p) {
        Ok((v, end)) => Ok((zig_zag_value(v) as i32, end)),
        Err(e) => Err(e),
    }
}

/// The value of `n` bits is below `2^n`.
pub proof fn lemma_bits_value_bound(data: Seq<u8>, start: int, n: nat)
    ensures
        bits_value(data, start, n) < pow2(n),
    decreases n,
{
    if n > 0 {
        lemma_bits_value_bound(data, start, (n - 1) as nat);
        lemma_bit_at_bound(data, start + n - 1);
        lemma_pow2_unfold(n);
    } else {
        vstd::arithmetic::power2::lemma2_to64();
    }
}

/// Reads `count` bits and returns `2^count` plus their value, less one.
fn read_length_bits(data: &mut Reader, count: u32) -> (res: Result<u32, ParseError>)
    requires
        old(data).wf(),
        count <= 31,
    ensures
        final(data).wf(),
        final(data).data() == old(data).data(),
        old(data).pos() + count <= 8 * old(data).data().len() ==> res == Ok::<u32, ParseError>(
            (pow2(count as nat) + bits_value(old(data).data(), old(data).pos(), count as nat) - 1) as u32,
        ) && final(data).pos() == old(data).pos() + count,
        old(data).pos() + count > 8 * old(data).data().len() ==> res == Err::<u32, ParseError>(
            ParseError::UnexpectedEof,
        ),
{
    proof {
        old(data).lemma_wf();
        lemma_bits_value_bound(old(data).data(), old(data).pos(), count as nat);
        lemma_pow2_pos(count as nat);
        vstd::bits::lemma_u64_pow2_no_overflow(count as nat);
        assert(1 * pow2(count as nat) == pow2(count as nat));
        vstd::bits::lemma_u64_shl_is_mul(1, count as u64);
        vstd::bits::lemma_u64_pow2_no_overflow(31);
        vstd::arithmetic::power2::lemma_pow2_strictly_increases(count as nat, 32);
        vstd::arithmetic::power2::lemma2_to64();
    }
    if count == 0 {
        return Ok(0);
    }
    let bits = match data.read_bits(count) {
        Some(b) => b,
        None => {
            return Err(ParseError::UnexpectedEof);
        },
    };
    let top = 1u64 << (count as u64);
    assert(top == pow2(count as nat));
    assert((top | bits) == top + bits) by (bit_vector)
        requires
            bits < top,
            top == 1u64 << (count as u64),
            count <= 31,
    ;
    Ok(((top | bits) - 1) as u32)
}

/// Decodes an Elias delta coded unsigned integer from the current bit.
pub fn read_u32_elias_delta(data: &mut Reader) -> (res: Result<u32, ParseError>)
    requires
        old(data).wf(),
    ensures
        final(data).wf(),
        final(data).data() == old(data).data(),
        match res {
            Ok(v) => u32_elias_delta_spec(old(data).data(), old(data).pos()) == Ok::<
                (u32, int),
                ParseError,
            >((v, final(data).pos())),
            Err(e) => u32_elias_delta_spec(old(data).data(), old(data).pos()) == Err::<
                (u32, int),
                ParseError,
            >(e),
        },
{
    let ghost d = old(data).data();
    let ghost p = old(data).pos();
    let mut leading_zeros: u8 = 0;
    let mut found = false;
    while leading_zeros < 6 && !found
        invariant
            data.wf(),
            data.data() == d,
            d == old(data).data(),
            p == old(data).pos(),
            leading_zeros <= 6,
            !found ==> data.pos() == p + leading_zeros && elias_zeros(d, p, 0) == elias_zeros(
                d,
                p,
                leading_zeros as nat,
            ),
            found ==> leading_zeros <= 5 && data.pos() == p + leading_zeros + 1 && elias_zeros(
                d,
                p,
                0,
            ) == Ok::<nat, ParseError>(leading_zeros as nat),
        decreases 6 - leading_zeros + (if found { 0int } else { 1 }),
    {
        match data.read_bit() {
            Some(false) => {
                proof {
                    lemma_bit_at_bound(d, p + leading_zeros);
                }
                leading_zeros = leading_zeros + 1;
            },
            Some(true) => {
                found = true;
            },
            None => {
                return Err(ParseError::UnexpectedEof);
            },
        }
    }
    if !found {
        return Err(ParseError::Corrupted);
    }
    let len = match read_length_bits(data, leading_zeros as u32) {
        Ok(v) => v,
        Err(e) => {
            return Err(e);
        },
    };
    proof {
        lemma_bits_value_bound(d, p + leading_zeros + 1, leading_zeros as nat);
        vstd::arithmetic::power2::lemma2_to64();
    }
    if len > 31 {
        return Err(ParseError::Corrupted);
    }
    let result = match read_length_bits(data, len) {
        Ok(v) => v,
        Err(e) => {
            return Err(e);
        },
    };
    proof {
        lemma_bits_value_bound(d, p + 2 * leading_zeros + 1, len as nat);
        vstd::arithmetic::power2::lemma_pow2_strictly_increases(len as nat, 32);
        vstd::arithmetic::power2::lemma2_to64();
    }
    if result == u32::MAX - 1 {
        match data.read_bit() {
            Some(bit) => {
                proof {
                    lemma_bit_at_bound(d, data.pos() - 1);
                }
                Ok(result + if bit {
                    1
                } else {
                    0
                })
            },
            None => Err(ParseError::UnexpectedEof),
        }
    } else {
        Ok(result)
    }
}

/// Decodes an Elias delta coded signed (zig-zag) integer from the current bit.
pub fn read_i32_elias_delta(data: &mut Reader) -> (res: Result<i32, ParseError>)
    requires
        old(data).wf(),
    ensures
        final(data).wf(),
        final(data).data() == old(data).data(),
        match res {
            Ok(v) => i32_elias_delta_spec(old(data).data(), old(data).pos()) == Ok::<
                (i32, int),
                ParseError,
            >((v, final(data).pos())),
            Err(e) => i32_elias_delta_spec(old(data).data(), old(data).pos()) == Err::<
                (i32, int),
                ParseError,
            >(e),
        },
{
    match read_u32_elias_delta(data) {
        Ok(v) => Ok(zig_zag_decode(v)),
        Err(e) => Err(e),
    }
}

} // verus!
