//! Groups of three signed values sharing one leading tag byte.

use super::{sign_extend, sign_extend_value, ParseError};
use crate::reader::{byte_index, le_value, lemma_le_value_bound, pow256, Reader};
use vstd::arithmetic::power2::pow2;
use vstd::prelude::*;

verus! {

/// The two's complement integer stored in the `width` little-endian bytes at
/// index `start`.
pub open spec fn le_signed(data: Seq<u8>, start: int, width: nat) -> i32 {
    sign_extend_value(le_value(data.subrange(start, start + width)), 8 * width) as i32
}

/// Decoding a tagged group of three values whose tag byte is at index `k`:
/// the values and the index of the byte after the group.
///
/// The top two bits of the tag select the layout: three 2-bit values in the
/// tag itself, three 4-bit values in the tag and one more byte, three 6-bit
/// values in the tag and two more bytes, or three values of 8, 16, 24 or 32
/// bits (little endian) whose widths are given by two bits each of the tag,
/// lowest bits first.
pub open spec fn tagged_32_spec(data: Seq<u8>, k: int) -> Result<(Seq<i32>, int), ParseError> {
    if k >= data.len() {
        Err(ParseError::UnexpectedEof)
    } else {
        let t = data[k];
        let mode = t >> 6;
        if mode == 0 {
            Ok(
                (
                    seq![
                        sign_extend_value((t >> 4) as nat, 2) as i32,
                        sign_extend_value((t >> 2) as nat, 2) as i32,
                        sign_extend_value(t as nat, 2) as i32,
                    ],
                    k + 1,
                ),
            )
        } else if mode == 1 {
            if k + 1 >= data.len() {
                Err(ParseError::UnexpectedEof)
            } else {
                let b = data[k + 1];
                Ok(
                    (
                        seq![
                            sign_extend_value(t as nat, 4) as i32,
                            sign_extend_value((b >> 4) as nat, 4) as i32,
                            sign_extend_value(b as nat, 4) as i32,
                        ],
                        k + 2,
                    ),
                )
            }
        } else if mode == 2 {
            if k + 2 >= data.len() {
                Err(ParseError::UnexpectedEof)
            } else {
                Ok(
                    (
                        seq![
                            sign_extend_value(t as nat, 6) as i32,
                            sign_extend_value(data[k + 1] as nat, 6) as i32,
                            sign_extend_value(data[k + 2] as nat, 6) as i32,
                        ],
                        k + 3,
                    ),
                )
            }
        } else {
            let w0 = ((t & 3) + 1) as nat;
            let w1 = (((t >> 2) & 3) + 1) as nat;
            let w2 = (((t >> 4) & 3) + 1) as nat;
            let o1 = k + 1 + w0;
            let o2 = o1 + w1;
            if o2 + w2 > data.len() {
                Err(ParseError::UnexpectedEof)
            } else {
                Ok(
                    (
                        seq![le_signed(data, k + 1, w0), le_signed(data, o1, w1), le_signed(data, o2, w2)],
                        o2 + w2,
                    ),
                )
            }
        }
    }
}

/// Reads one value of `width` little-endian bytes as a two's complement
/// integer.
fn read_signed_le(data: &mut Reader, width: u8) -> (res: Option<i32>)
    requires
        old(data).wf(),
        old(data).pos() % 8 == 0,
        1 <= width <= 4,
    ensures
        final(data).wf(),
        final(data).data() == old(data).data(),
        ({
            let k = old(data).pos() / 8;
            if k + width <= old(data).data().len() {
                res == Some(le_signed(old(data).data(), k, width as nat)) && final(data).pos()
                    == 8 * (k + width)
            } else {
                res is None && final(data).pos() == old(data).pos()
            }
        }),
{
    let ghost k = old(data).pos() / 8;
    let ghost d = old(data).data();
    proof {
        old(data).lemma_wf();
    }
    assert(byte_index(old(data).pos()) == k);
    proof {
        lemma_le_value_bound(d.subrange(k, k + width));
        reveal_with_fuel(pow256, 5);
    }
    let raw = if width == 1 {
        match data.read_u8() {
            Some(b) => {
                assert(d.subrange(k, k + 1).drop_first() =~= Seq::<u8>::empty());
                assert(le_value(d.subrange(k, k + 1)) == b);
                b as u32
            },
            None => {
                return None;
            },
        }
    } else if width == 2 {
        match data.read_u16() {
            Some(v) => {
                proof {
                    lemma_le_value_bound(d.subrange(k, k + 2));
                    assert(d.subrange(k, k + 2).len() == 2);
                }
                assert(le_value(d.subrange(k, k + 2)) < 0x1_0000);
                v as u32
            },
            None => {
                return None;
            },
        }
    } else if width == 3 {
        match data.read_u24() {
            Some(v) => {
                proof {
                    lemma_le_value_bound(d.subrange(k, k + 3));
                    assert(d.subrange(k, k + 3).len() == 3);
                }
                assert(le_value(d.subrange(k, k + 3)) < 0x100_0000);
                v
            },
            None => {
                return None;
            },
        }
    } else {
        match data.read_u32() {
            Some(v) => {
                proof {
                    lemma_le_value_bound(d.subrange(k, k + 4));
                    assert(d.subrange(k, k + 4).len() == 4);
                }
                assert(le_value(d.subrange(k, k + 4)) < 0x1_0000_0000);
                v
            },
            None => {
                return None;
            },
        }
    };
    assert(raw as nat == le_value(d.subrange(k, k + width)));
    Some(sign_extend(raw, 8 * width as u32))
}

/// Decodes a tagged group of three signed values from the next byte boundary.
pub fn tagged_32(data: &mut Reader) -> (res: Result<[i32; 3], ParseError>)
    requires
        old(data).wf(),
    ensures
        final(data).wf(),
        final(data).data() == old(data).data(),
        match res {
            Ok(values) => tagged_32_spec(old(data).data(), byte_index(old(data).pos())) == Ok::<
                (Seq<i32>, int),
                ParseError,
            >((values@, final(data).pos() / 8)) && final(data).pos() % 8 == 0,
            Err(e) => tagged_32_spec(old(data).data(), byte_index(old(data).pos())) == Err::<
                (Seq<i32>, int),
                ParseError,
            >(e),
        },
{
    let ghost k = byte_index(old(data).pos());
    let ghost d = old(data).data();
    let tag = match data.read_u8() {
        Some(b) => b,
        None => {
            return Err(ParseError::UnexpectedEof);
        },
    };
    let mode = tag >> 6;
    assert(mode <= 3) by (bit_vector)
        requires
            mode == tag >> 6,
    ;
    let mut result = [0i32; 3];
    if mode == 0 {
        result[0] = sign_extend(((tag >> 4) & 3) as u32, 2);
        result[1] = sign_extend(((tag >> 2) & 3) as u32, 2);
        result[2] = sign_extend((tag & 3) as u32, 2);
        proof {
            lemma_mask_mod(tag >> 4, 2);
            lemma_mask_mod(tag >> 2, 2);
            lemma_mask_mod(tag, 2);
            assert(result@ == seq![result[0], result[1], result[2]]);
        }
    } else if mode == 1 {
        result[0] = sign_extend((tag & 0x0f) as u32, 4);
        let byte = match data.read_u8() {
            Some(b) => b,
            None => {
                return Err(ParseError::UnexpectedEof);
            },
        };
        result[1] = sign_extend((byte >> 4) as u32, 4);
        result[2] = sign_extend((byte & 0x0f) as u32, 4);
        proof {
            lemma_mask_mod(tag, 4);
            lemma_mask_mod(byte, 4);
            assert(result@ == seq![result[0], result[1], result[2]]);
        }
    } else if mode == 2 {
        result[0] = sign_extend((tag & 0x3f) as u32, 6);
        let b1 = match data.read_u8() {
            Some(b) => b,
            None => {
                return Err(ParseError::UnexpectedEof);
            },
        };
        result[1] = sign_extend((b1 & 0x3f) as u32, 6);
        let b2 = match data.read_u8() {
            Some(b) => b,
            None => {
                return Err(ParseError::UnexpectedEof);
            },
        };
        result[2] = sign_extend((b2 & 0x3f) as u32, 6);
        proof {
            lemma_mask_mod(tag, 6);
            lemma_mask_mod(b1, 6);
            lemma_mask_mod(b2, 6);
            assert(result@ == seq![result[0], result[1], result[2]]);
        }
    } else {
        let mut tags = tag & 0x3f;
        assert((tag & 3) == (tags & 3) && ((tag >> 2) & 3) == ((tags >> 2) & 3) && ((tag >> 4)
            & 3) == ((tags >> 4) & 3)) by (bit_vector)
            requires
                tags == tag & 0x3f,
        ;
        assert((tags & 3) <= 3 && ((tags >> 2) & 3) <= 3 && ((tags >> 4) & 3) <= 3) by (bit_vector);
        let w0 = (tags & 3) + 1;
        let w1 = ((tags >> 2) & 3) + 1;
        let w2 = ((tags >> 4) & 3) + 1;
        assert(1 <= w0 <= 4 && 1 <= w1 <= 4 && 1 <= w2 <= 4) by (bit_vector)
            requires
                w0 == (tags & 3) + 1,
                w1 == ((tags >> 2) & 3) + 1,
                w2 == ((tags >> 4) & 3) + 1,
        ;
        result[0] = match read_signed_le(data, w0) {
            Some(v) => v,
            None => {
                return Err(ParseError::UnexpectedEof);
            },
        };
        result[1] = match read_signed_le(data, w1) {
            Some(v) => v,
            None => {
                return Err(ParseError::UnexpectedEof);
            },
        };
        result[2] = match read_signed_le(data, w2) {
            Some(v) => v,
            None => {
                return Err(ParseError::UnexpectedEof);
            },
        };
        proof {
            assert(result@ == seq![result[0], result[1], result[2]]);
        }
    }
    Ok(result)
}

/// Masking the low bits of a byte does not change the value that they stand
/// for.
proof fn lemma_mask_mod(x: u8, bits: nat)
    requires
        bits == 2 || bits == 4 || bits == 6,
    ensures
        bits == 2 ==> sign_extend_value((x & 3) as nat, bits) == sign_extend_value(x as nat, bits),
        bits == 4 ==> sign_extend_value((x & 0x0f) as nat, bits) == sign_extend_value(x as nat, bits),
        bits == 6 ==> sign_extend_value((x & 0x3f) as nat, bits) == sign_extend_value(x as nat, bits),
{
    vstd::arithmetic::power2::lemma2_to64();
    assert((x & 3) % 4 == x % 4) by (bit_vector);
    assert((x & 0x0f) % 16 == x % 16) by (bit_vector);
    assert((x & 0x3f) % 64 == x % 64) by (bit_vector);
}

} // verus!
