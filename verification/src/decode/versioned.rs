//! The tagged 16-bit group as the two versions of the log format write it.

use vstd::prelude::*;

use super::{sign_extend, sign_extend_value, ParseError};
use crate::common::LogVersion;
use crate::reader::{bits_value, byte_index, Reader};

verus! {

/// A 4-bit two's complement integer.
pub open spec fn i4_value(nibble: nat) -> i16 {
    sign_extend_value(nibble % 16, 4) as i16
}

/// Reads the low four bits of `nibble` as a two's complement integer.
pub fn i4_to_i16(nibble: u8) -> (v: i16)
    ensures
        v == i4_value(nibble as nat),
{
    let v = sign_extend((nibble & 0xF) as u32, 4);
    proof {
        assert((nibble & 0xF) as nat == nibble as nat % 16) by (bit_vector);
        assert(vstd::arithmetic::power2::pow2(4) == 16) by {
            vstd::arithmetic::power2::lemma2_to64();
        }
        assert(((nibble & 0xF) as nat) % vstd::arithmetic::power2::pow2(4) == (nibble & 0xF) as nat);
    }
    v as i16
}

/// The values after `prefix`, when `rest` is a success.
pub open spec fn prepend_i16(prefix: Seq<i16>, rest: Result<(Seq<i16>, int), ParseError>) -> Result<
    (Seq<i16>, int),
    ParseError,
> {
    match rest {
        Ok((values, end)) => Ok((prefix + values, end)),
        Err(e) => Err(e),
    }
}

/// The two bits of `tags` that describe field `i`.
pub open spec fn tag_of(tags: u8, i: int) -> u8 {
    ((tags >> (2 * i) as u8) & 3) as u8
}

/// Reading the fields of a tagged 16-bit group from field `i` on, at bit
/// `p` of `d`, given its tag byte: the values and the bit position after
/// them. Tag 0 is a zero; tag 1 a nibble, which in the first version is one
/// of a pair in a whole byte, low nibble first, filling two fields and
/// refused in the last one; tag 2 a byte and tag 3 two bytes, little-endian
/// in the first version and big-endian in the second. The first version
/// reads whole bytes, the second reads bits where the last field ended.
pub open spec fn tagged_16_fields(version: LogVersion, d: Seq<u8>, p: int, tags: u8, i: int) -> Result<
    (Seq<i16>, int),
    ParseError,
>
    decreases 4 - i,
{
    if i < 0 || i >= 4 {
        Ok((seq![], p))
    } else {
        let tag = tag_of(tags, i);
        let k = byte_index(p);
        if tag == 0 {
            prepend_i16(seq![0i16], tagged_16_fields(version, d, p, tags, i + 1))
        } else if tag == 1 {
            match version {
                LogVersion::V1 => if i == 3 {
                    Err(ParseError::Corrupted)
                } else if k >= d.len() {
                    Err(ParseError::UnexpectedEof)
                } else {
                    prepend_i16(
                        seq![i4_value((d[k] % 16) as nat), i4_value((d[k] / 16) as nat)],
                        tagged_16_fields(version, d, 8 * (k + 1), tags, i + 2),
                    )
                },
                LogVersion::V2 => if p + 4 > 8 * d.len() {
                    Err(ParseError::UnexpectedEof)
                } else {
                    prepend_i16(
                        seq![i4_value(bits_value(d, p, 4))],
                        tagged_16_fields(version, d, p + 4, tags, i + 1),
                    )
                },
            }
        } else if tag == 2 {
            match version {
                LogVersion::V1 => if k >= d.len() {
                    Err(ParseError::UnexpectedEof)
                } else {
                    prepend_i16(
                        seq![d[k] as i8 as i16],
                        tagged_16_fields(version, d, 8 * (k + 1), tags, i + 1),
                    )
                },
                LogVersion::V2 => if p + 8 > 8 * d.len() {
                    Err(ParseError::UnexpectedEof)
                } else {
                    prepend_i16(
                        seq![bits_value(d, p, 8) as u8 as i8 as i16],
                        tagged_16_fields(version, d, p + 8, tags, i + 1),
                    )
                },
            }
        } else {
            match version {
                LogVersion::V1 => if k + 1 >= d.len() {
                    Err(ParseError::UnexpectedEof)
                } else {
                    prepend_i16(
                        seq![(d[k] + 256 * d[k + 1]) as u16 as i16],
                        tagged_16_fields(version, d, 8 * (k + 2), tags, i + 1),
                    )
                },
                LogVersion::V2 => if p + 16 > 8 * d.len() {
                    Err(ParseError::UnexpectedEof)
                } else {
                    prepend_i16(
                        seq![bits_value(d, p, 16) as u16 as i16],
                        tagged_16_fields(version, d, p + 16, tags, i + 1),
                    )
                },
            }
        }
    }
}

/// The fields of a tagged 16-bit group from field `i` on, as read in turn.
#[verifier::opaque]
pub open spec fn group_rest(version: LogVersion, d: Seq<u8>, p: int, tags: u8, i: int) -> Result<
    (Seq<i16>, int),
    ParseError,
> {
    tagged_16_fields(version, d, p, tags, i)
}

/// Reading a tagged 16-bit group that starts at bit `p` of `d`: its tag byte
/// at the next byte boundary, then its fields.
pub open spec fn tagged_16_versioned_spec(version: LogVersion, d: Seq<u8>, p: int) -> Result<
    (Seq<i16>, int),
    ParseError,
> {
    let k = byte_index(p);
    if k >= d.len() {
        Err(ParseError::UnexpectedEof)
    } else {
        tagged_16_fields(version, d, 8 * (k + 1), d[k], 0)
    }
}

/// Reads the values of field `i` of a tagged 16-bit group (and of the next
/// field too, for a nibble pair of the first version) into `result`.
fn read_tagged_16_field(
    version: LogVersion,
    data: &mut Reader,
    tags: u8,
    i: usize,
    result: &mut [i16; 4],
) -> (res: Result<usize, ParseError>)
    requires
        old(data).wf(),
        i < 4,
    ensures
        final(data).wf(),
        final(data).data() == old(data).data(),
        match res {
            Ok(next) => i < next <= 4 && final(result)@.take(i as int) == old(result)@.take(
                i as int,
            ) && group_rest(version, old(data).data(), old(data).pos(), tags, i as int)
                == prepend_i16(
                final(result)@.subrange(i as int, next as int),
                group_rest(version, old(data).data(), final(data).pos(), tags, next as int),
            ),
            Err(e) => group_rest(version, old(data).data(), old(data).pos(), tags, i as int)
                == Err::<(Seq<i16>, int), ParseError>(e),
        },
{
    proof {
        old(data).lemma_wf();
        reveal(group_rest);
    }
    let tag = (tags >> (2 * i) as u8) & 3;
    assert(tag == tag_of(tags, i as int));
    assert(tag <= 3) by (bit_vector)
        requires
            tag == ((tags >> (2 * i) as u8) & 3),
    ;
    if tag == 0 {
        result[i] = 0;
        assert(result@.subrange(i as int, i + 1) =~= seq![0i16]);
        return Ok(i + 1);
    }
    if tag == 1 {
        match version {
            LogVersion::V1 => {
                if i == 3 {
                    return Err(ParseError::Corrupted);
                }
                let byte = match data.read_u8() {
                    Some(b) => b,
                    None => return Err(ParseError::UnexpectedEof),
                };
                result[i] = i4_to_i16(byte & 0xF);
                result[i + 1] = i4_to_i16(byte >> 4);
                proof {
                    assert((byte & 0xF) as nat == byte as nat % 16) by (bit_vector);
                    assert((byte >> 4) as nat == byte as nat / 16) by (bit_vector);
                    assert(i4_value((byte & 0xF) as nat) == i4_value((byte % 16) as nat));
                    assert(result@.subrange(i as int, i + 2) =~= seq![
                        i4_value((byte % 16) as nat),
                        i4_value((byte / 16) as nat),
                    ]);
                }
                return Ok(i + 2);
            },
            LogVersion::V2 => {
                let nibble = match data.read_bits(4) {
                    Some(v) => v,
                    None => return Err(ParseError::UnexpectedEof),
                };
                proof {
                    crate::decode::lemma_bits_value_bound(old(data).data(), old(data).pos(), 4);
                    vstd::arithmetic::power2::lemma2_to64();
                }
                result[i] = i4_to_i16(nibble as u8);
                assert(result@.subrange(i as int, i + 1) =~= seq![
                    i4_value(bits_value(old(data).data(), old(data).pos(), 4)),
                ]);
                return Ok(i + 1);
            },
        }
    }
    if tag == 2 {
        match version {
            LogVersion::V1 => {
                let b = match data.read_i8() {
                    Some(b) => b,
                    None => return Err(ParseError::UnexpectedEof),
                };
                result[i] = b as i16;
                assert(result@.subrange(i as int, i + 1) =~= seq![b as i16]);
                return Ok(i + 1);
            },
            LogVersion::V2 => {
                let v = match data.read_bits(8) {
                    Some(v) => v,
                    None => return Err(ParseError::UnexpectedEof),
                };
                proof {
                    crate::decode::lemma_bits_value_bound(old(data).data(), old(data).pos(), 8);
                    vstd::arithmetic::power2::lemma2_to64();
                }
                result[i] = v as u8 as i8 as i16;
                assert(result@.subrange(i as int, i + 1) =~= seq![
                    bits_value(old(data).data(), old(data).pos(), 8) as u8 as i8 as i16,
                ]);
                return Ok(i + 1);
            },
        }
    }
    match version {
        LogVersion::V1 => {
            let lo = match data.read_u8() {
                Some(b) => b,
                None => return Err(ParseError::UnexpectedEof),
            };
            let hi = match data.read_u8() {
                Some(b) => b,
                None => return Err(ParseError::UnexpectedEof),
            };
            let v = (lo as u16 | ((hi as u16) << 8u16)) as i16;
            assert((lo as u16 | ((hi as u16) << 8u16)) == lo + 256 * hi) by (bit_vector);
            result[i] = v;
            assert(result@.subrange(i as int, i + 1) =~= seq![(lo + 256 * hi) as u16 as i16]);
            Ok(i + 1)
        },
        LogVersion::V2 => {
            let v = match data.read_bits(16) {
                Some(v) => v,
                None => return Err(ParseError::UnexpectedEof),
            };
            proof {
                crate::decode::lemma_bits_value_bound(old(data).data(), old(data).pos(), 16);
                vstd::arithmetic::power2::lemma2_to64();
            }
            result[i] = v as u16 as i16;
            assert(result@.subrange(i as int, i + 1) =~= seq![
                bits_value(old(data).data(), old(data).pos(), 16) as u16 as i16,
            ]);
            Ok(i + 1)
        },
    }
}

/// Reads a tagged 16-bit group as version `version` of the log format
/// writes it.
pub fn read_tagged_16(version: LogVersion, data: &mut Reader) -> (res: Result<[i16; 4], ParseError>)
    requires
        old(data).wf(),
    ensures
        final(data).wf(),
        final(data).data() == old(data).data(),
        match tagged_16_versioned_spec(version, old(data).data(), old(data).pos()) {
            Ok((values, end)) => res matches Ok(r) && r@ == values && final(data).pos() == end,
            Err(e) => res == Err::<[i16; 4], ParseError>(e),
        },
{
    proof {
        old(data).lemma_wf();
    }
    let ghost d = old(data).data();
    let tags = match data.read_u8() {
        Some(b) => b,
        None => return Err(ParseError::UnexpectedEof),
    };
    let mut result: [i16; 4] = [0; 4];
    let mut i: usize = 0;
    let ghost p0 = data.pos();
    assert(result@.take(0) =~= seq![]);
    assert(tagged_16_versioned_spec(version, d, old(data).pos()) == group_rest(version, d, p0, tags, 0)) by {
        reveal(group_rest);
    }
    assert(prepend_i16(seq![], group_rest(version, d, p0, tags, 0)) == group_rest(version, d, p0, tags, 0)) by {
        if let Ok((values, end)) = group_rest(version, d, p0, tags, 0) {
            assert(seq![] + values =~= values);
        }
    }
    while i < 4
        invariant
            i <= 4,
            d == old(data).data(),
            data.wf(),
            data.data() == d,
            tagged_16_versioned_spec(version, d, old(data).pos()) == group_rest(
                version,
                d,
                p0,
                tags,
                0,
            ),
            group_rest(version, d, p0, tags, 0) == prepend_i16(
                result@.take(i as int),
                group_rest(version, d, data.pos(), tags, i as int),
            ),
        decreases 4 - i,
    {
        let ghost before = result@;
        let ghost pos = data.pos();
        match read_tagged_16_field(version, data, tags, i, &mut result) {
            Ok(next) => {
                proof {
                    let part = result@.subrange(i as int, next as int);
                    assert(result@.take(next as int) =~= before.take(i as int) + part) by {
                        assert(result@.take(i as int) == before.take(i as int));
                    }
                    let rest = group_rest(version, d, data.pos(), tags, next as int);
                    if let Ok((values, end)) = rest {
                        assert(before.take(i as int) + (part + values) =~= (before.take(i as int)
                            + part) + values);
                    }
                }
                i = next;
            },
            Err(e) => {
                return Err(e);
            },
        }
    }
    assert(result@.take(4) =~= result@);
    assert(result@ + seq![] =~= result@);
    assert(group_rest(version, d, data.pos(), tags, 4) == Ok::<(Seq<i16>, int), ParseError>((seq![], data.pos()))) by {
        reveal(group_rest);
    }
    Ok(result)
}

} // verus!
