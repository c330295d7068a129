//! Groups of four signed values of 0, 4, 8 or 16 bits behind one tag byte.

use super::{sign_extend, sign_extend_value, InternalError};
use crate::reader::{byte_index, le_value, Reader};
use vstd::arithmetic::power2::pow2;
use vstd::prelude::*;

verus! {

/// Nibble `n` of the bytes that start at index `start`, high nibble first.
pub open spec fn nibble(data: Seq<u8>, start: int, n: int) -> nat {
    let b = data[start + n / 2];
    if n % 2 == 0 {
        (b >> 4) as nat
    } else {
        (b & 0x0f) as nat
    }
}

/// The `count` nibbles from nibble `n` on, read as a big-endian integer.
pub open spec fn nibbles_value(data: Seq<u8>, start: int, n: int, count: nat) -> nat
    decreases count,
{
    if count == 0 {
        0
    } else {
        nibbles_value(data, start, n, (count - 1) as nat) * 16 + nibble(data, start, n + count - 1)
    }
}

/// The tag of field `i`: two bits of the tag byte, lowest first.
pub open spec fn tag_16_of(tags: u8, i: int) -> u8 {
    ((tags >> ((2 * i) as u8)) & 3) as u8
}

/// The width in nibbles of a field with tag `tag`: 0, 4, 8 or 16 bits.
pub open spec fn tag_16_width(tag: u8) -> nat {
    if tag == 0 {
        0
    } else if tag == 1 {
        1
    } else if tag == 2 {
        2
    } else {
        4
    }
}

/// The nibble at which field `i` starts.
pub open spec fn tag_16_offset(tags: u8, i: int) -> nat
    decreases i,
{
    if i <= 0 {
        0
    } else {
        tag_16_offset(tags, i - 1) + tag_16_width(tag_16_of(tags, i - 1))
    }
}

/// The value of the field that has tag `tag` and starts at nibble `n`, as the
/// bits of a 32-bit two's complement integer.
pub open spec fn tagged_16_field(data: Seq<u8>, start: int, n: int, tag: u8) -> u32 {
    let w = tag_16_width(tag);
    if w == 0 {
        0
    } else {
        sign_extend_value(nibbles_value(data, start, n, w), 4 * w) as i32 as u32
    }
}

/// Decoding a tagged group of four values whose tag byte is at index `k`:
/// the values and the index of the byte after the group.
///
/// After the tag byte, the fields follow each other as a stream of nibbles,
/// high nibble first, each read as a big-endian two's complement integer.
pub open spec fn tagged_16_spec(data: Seq<u8>, k: int) -> Result<(Seq<u32>, int), InternalError> {
    if k >= data.len() {
        Err(InternalError::Eof)
    } else {
        let tags = data[k];
        let total = tag_16_offset(tags, 4);
        let end = k + 1 + (total + 1) / 2;
        if end > data.len() {
            Err(InternalError::Eof)
        } else {
            Ok(
                (
                    Seq::new(
                        4,
                        |i: int| tagged_16_field(data, k + 1, tag_16_offset(tags, i) as int, tag_16_of(tags, i)),
                    ),
                    end,
                ),
            )
        }
    }
}

proof fn lemma_offsets(tags: u8)
    ensures
        forall|i: int| 0 <= i <= 4 ==> #[trigger] tag_16_offset(tags, i) <= tag_16_offset(tags, 4),
        forall|i: int| 0 <= i < 4 ==> tag_16_offset(tags, i + 1) == tag_16_offset(tags, i) + tag_16_width(#[trigger] tag_16_of(tags, i)),
{
    reveal_with_fuel(tag_16_offset, 5);
}

proof fn lemma_tag_bounds(tags: u8, i: int)
    requires
        0 <= i < 4,
    ensures
        tag_16_of(tags, i) <= 3,
{
    let s = (2 * i) as u8;
    assert((tags >> s) & 3 <= 3) by (bit_vector);
}

/// Reads one field of a tagged group: `n` is the nibble at which it starts in
/// the bytes from index `s`, `aligned` tells whether `n` is even, and
/// `buffer` holds the partially read byte otherwise.
fn read_field_16(
    data: &mut Reader,
    tag: u8,
    aligned: bool,
    buffer: u8,
    Ghost(s): Ghost<int>,
    Ghost(n): Ghost<int>,
) -> (res: Result<(u32, bool, u8), InternalError>)
    requires
        old(data).wf(),
        tag <= 3,
        0 <= s,
        0 <= n,
        old(data).pos() == 8 * (s + (n + 1) / 2),
        aligned == (n % 2 == 0),
        !aligned ==> s + n / 2 < old(data).data().len() && buffer == old(data).data()[s + n / 2],
    ensures
        final(data).wf(),
        final(data).data() == old(data).data(),
        ({
            let d = old(data).data();
            let n2 = n + tag_16_width(tag);
            match res {
                Ok((v, a2, b2)) => {
                    &&& v == tagged_16_field(d, s, n, tag)
                    &&& a2 == (n2 % 2 == 0)
                    &&& final(data).pos() == 8 * (s + (n2 + 1) / 2)
                    &&& !a2 ==> s + n2 / 2 < d.len() && b2 == d[s + n2 / 2]
                },
                Err(e) => e == InternalError::Eof && s + (n2 + 1) / 2 > d.len(),
            }
        }),
{
    let ghost d = old(data).data();
    proof {
        old(data).lemma_wf();
        reveal_with_fuel(nibbles_value, 5);
        vstd::arithmetic::power2::lemma2_to64();
    }
    assert(byte_index(old(data).pos()) == s + (n + 1) / 2);
    if tag == 0 {
        Ok((0, aligned, buffer))
    } else if tag == 1 {
        if aligned {
            let b = match data.read_u8() {
                Some(b) => b,
                None => {
                    return Err(InternalError::Eof);
                },
            };
            let raw = b >> 4;
            assert(raw < 16) by (bit_vector)
                requires
                    raw == b >> 4,
            ;
            let v = sign_extend(raw as u32, 4);
            Ok((v as u32, false, b))
        } else {
            let raw = buffer & 0x0f;
            assert(raw < 16) by (bit_vector)
                requires
                    raw == buffer & 0x0f,
            ;
            let v = sign_extend(raw as u32, 4);
            Ok((v as u32, true, buffer))
        }
    } else if tag == 2 {
        if aligned {
            let b = match data.read_u8() {
                Some(b) => b,
                None => {
                    return Err(InternalError::Eof);
                },
            };
            proof {
                lemma_byte_value(b);
            }
            let v = b as i8;
            Ok((v as i32 as u32, true, buffer))
        } else {
            let upper = buffer << 4;
            let b = match data.read_u8() {
                Some(b) => b,
                None => {
                    return Err(InternalError::Eof);
                },
            };
            let v = (upper | (b >> 4)) as i8;
            proof {
                lemma_split_byte_value(buffer, b);
            }
            Ok((v as i32 as u32, false, b))
        }
    } else {
        if aligned {
            let raw = match data.read_u16() {
                Some(v) => v,
                None => {
                    return Err(InternalError::Eof);
                },
            };
            let v = (((raw & 0xff) << 8) | (raw >> 8)) as i16;
            proof {
                let b0 = d[s + n / 2];
                let b1 = d[s + n / 2 + 1];
                lemma_le_pair(d.subrange(s + n / 2, s + n / 2 + 2));
                lemma_aligned_16(b0, b1, raw);
            }
            Ok((v as i32 as u32, true, buffer))
        } else {
            let upper = (buffer as u16) << 12;
            let raw = match data.read_u16() {
                Some(v) => v,
                None => {
                    return Err(InternalError::Eof);
                },
            };
            let middle = (raw & 0xff) as u8;
            let lower = (raw >> 8) as u8;
            let v = (upper | ((middle as u16) << 4) | ((lower >> 4) as u16)) as i16;
            proof {
                let b0 = d[s + n / 2];
                let b1 = d[s + n / 2 + 1];
                let b2 = d[s + n / 2 + 2];
                lemma_le_pair(d.subrange(s + n / 2 + 1, s + n / 2 + 3));
                lemma_unaligned_16(b0, b1, b2, raw);
            }
            Ok((v as i32 as u32, false, lower))
        }
    }
}

/// Decodes a tagged group of four values from the next byte boundary into
/// `out`, each as the bits of a 32-bit two's complement integer.
pub fn tagged_16(data: &mut Reader, out: &mut [u32]) -> (res: Result<(), InternalError>)
    requires
        old(data).wf(),
        old(out)@.len() == 4,
    ensures
        final(data).wf(),
        final(data).data() == old(data).data(),
        final(out)@.len() == 4,
        match res {
            Ok(()) => tagged_16_spec(old(data).data(), byte_index(old(data).pos())) == Ok::<
                (Seq<u32>, int),
                InternalError,
            >((final(out)@, final(data).pos() / 8)) && final(data).pos() % 8 == 0,
            Err(e) => tagged_16_spec(old(data).data(), byte_index(old(data).pos())) == Err::<
                (Seq<u32>, int),
                InternalError,
            >(e),
        },
{
    proof {
        old(data).lemma_wf();
    }
    let ghost k = byte_index(old(data).pos());
    let ghost d = old(data).data();
    let tags = match data.read_u8() {
        Some(b) => b,
        None => {
            return Err(InternalError::Eof);
        },
    };
    let ghost s = k + 1;
    proof {
        lemma_offsets(tags);
    }
    let mut aligned = true;
    let mut buffer: u8 = 0;
    let mut i: usize = 0;
    while i < 4
        invariant
            0 <= i <= 4,
            d == old(data).data(),
            k == byte_index(old(data).pos()),
            0 <= k < d.len(),
            tags == d[k],
            s == k + 1,
            data.wf(),
            data.data() == d,
            out@.len() == 4,
            aligned == (tag_16_offset(tags, i as int) % 2 == 0),
            data.pos() == 8 * (s + (tag_16_offset(tags, i as int) + 1) / 2),
            !aligned ==> s + tag_16_offset(tags, i as int) / 2 < d.len() && buffer == d[s
                + tag_16_offset(tags, i as int) / 2],
            forall|j: int|
                0 <= j < i ==> out@[j] == tagged_16_field(
                    d,
                    s,
                    tag_16_offset(tags, j) as int,
                    tag_16_of(tags, j),
                ),
            forall|j: int| 0 <= j <= 4 ==> #[trigger] tag_16_offset(tags, j) <= tag_16_offset(tags, 4),
            forall|j: int|
                0 <= j < 4 ==> tag_16_offset(tags, j + 1) == tag_16_offset(tags, j) + tag_16_width(
                    #[trigger] tag_16_of(tags, j),
                ),
        decreases 4 - i,
    {
        let tag = (tags >> ((i * 2) as u8)) & 3;
        proof {
            lemma_tag_bounds(tags, i as int);
            assert(tag == tag_16_of(tags, i as int));
        }
        let ghost n = tag_16_offset(tags, i as int) as int;
        let (value, a2, b2) = match read_field_16(data, tag, aligned, buffer, Ghost(s), Ghost(n)) {
            Ok(r) => r,
            Err(e) => {
                assert(tag_16_offset(tags, i + 1) <= tag_16_offset(tags, 4));
                return Err(e);
            },
        };
        out[i] = value;
        aligned = a2;
        buffer = b2;
        i = i + 1;
    }
    proof {
        data.lemma_wf();
        assert(out@ =~= Seq::new(
            4,
            |j: int| tagged_16_field(d, s, tag_16_offset(tags, j) as int, tag_16_of(tags, j)),
        ));
        assert(data.pos() / 8 == s + (tag_16_offset(tags, 4) + 1) / 2);
        assert(s + (tag_16_offset(tags, 4) + 1) / 2 <= d.len());
    }
    Ok(())
}

proof fn lemma_le_pair(bytes: Seq<u8>)
    requires
        bytes.len() == 2,
    ensures
        le_value(bytes) == bytes[0] + 256 * bytes[1],
{
    reveal_with_fuel(le_value, 3);
    assert(bytes.drop_first().drop_first() =~= Seq::<u8>::empty());
}

proof fn lemma_byte_value(b: u8)
    ensures
        b as i8 as int == sign_extend_value((((b >> 4) as nat) * 16 + (b & 0x0f) as nat), 8),
{
    vstd::arithmetic::power2::lemma2_to64();
    let hi = b >> 4;
    let lo = b & 0x0f;
    assert(hi as int * 16 + lo as int == b as int) by (bit_vector)
        requires
            hi == b >> 4,
            lo == b & 0x0f,
    ;
    assert(b as i8 as int == (if b >= 128 { b as int - 256 } else { b as int })) by (bit_vector);
}

proof fn lemma_split_byte_value(b0: u8, b1: u8)
    ensures
        (((b0 << 4) | (b1 >> 4)) as i8) as int == sign_extend_value(
            (((b0 & 0x0f) as nat) * 16 + (b1 >> 4) as nat),
            8,
        ),
{
    vstd::arithmetic::power2::lemma2_to64();
    let v = (b0 << 4) | (b1 >> 4);
    assert(v as int == (b0 & 0x0f) as int * 16 + (b1 >> 4) as int) by (bit_vector)
        requires
            v == (b0 << 4) | (b1 >> 4),
    ;
    assert(v as i8 as int == (if v >= 128 { v as int - 256 } else { v as int })) by (bit_vector);
}

proof fn lemma_aligned_16(b0: u8, b1: u8, raw: u16)
    requires
        raw as int == b0 + 256 * b1,
    ensures
        ((((raw & 0xff) << 8) | (raw >> 8)) as i16) as int == sign_extend_value(
            (((((b0 >> 4) as nat) * 16 + (b0 & 0x0f) as nat) * 16 + (b1 >> 4) as nat) * 16 + (b1
                & 0x0f) as nat),
            16,
        ),
{
    vstd::arithmetic::power2::lemma2_to64();
    let v: u16 = ((raw & 0xff) << 8) | (raw >> 8);
    assert(v as int == (((b0 >> 4) as int * 16 + (b0 & 0x0f) as int) * 16 + (b1 >> 4) as int) * 16
        + (b1 & 0x0f) as int) by (bit_vector)
        requires
            raw as int == b0 + 256 * b1,
            v == ((raw & 0xff) << 8) | (raw >> 8),
    ;
    assert(v as i16 as int == (if v >= 0x8000 { v as int - 0x1_0000 } else { v as int }))
        by (bit_vector);
}

proof fn lemma_unaligned_16(b0: u8, b1: u8, b2: u8, raw: u16)
    requires
        raw as int == b1 + 256 * b2,
    ensures
        ((((b0 as u16) << 12) | ((((raw & 0xff) as u8) as u16) << 4) | ((((raw >> 8) as u8) >> 4) as u16)) as i16) as int
            == sign_extend_value(
            (((((b0 & 0x0f) as nat) * 16 + (b1 >> 4) as nat) * 16 + (b1 & 0x0f) as nat) * 16 + (b2
                >> 4) as nat),
            16,
        ),
        ((raw >> 8) as u8) == b2,
{
    vstd::arithmetic::power2::lemma2_to64();
    let v: u16 = ((b0 as u16) << 12) | ((((raw & 0xff) as u8) as u16) << 4) | ((((raw >> 8) as u8)
        >> 4) as u16);
    assert(v as int == ((((b0 & 0x0f) as int) * 16 + (b1 >> 4) as int) * 16 + (b1 & 0x0f) as int)
        * 16 + (b2 >> 4) as int && ((raw >> 8) as u8) == b2) by (bit_vector)
        requires
            raw as int == b1 + 256 * b2,
            v == ((b0 as u16) << 12) | ((((raw & 0xff) as u8) as u16) << 4) | ((((raw >> 8) as u8)
                >> 4) as u16),
    ;
    assert(v as i16 as int == (if v >= 0x8000 { v as int - 0x1_0000 } else { v as int }))
        by (bit_vector);
}

} // verus!
