//! The encodings that a frame definition assigns to its fields.

use vstd::prelude::*;

use super::{
    internal_error_of, negative_14_bit, negative_14_bit_spec, tagged_16, tagged_16_spec,
    tagged_32, tagged_32_spec, tagged_variable, tagged_variable_spec, variable, variable_signed,
    variable_signed_spec, variable_spec, InternalError,
};
use crate::reader::{byte_index, Reader};
use crate::text::{str_eq, text};

verus! {

/// How the values of a field are written in the data section.
#[derive(Debug, Clone, Copy, PartialEq, Eq, Hash, Structural)]
pub enum Encoding {
    /// Signed variable byte
    VariableSigned,
    /// Unsigned variable byte
    Variable,
    /// Unsigned variable byte, but negated after decoding. Value fits in 14
    /// bits
    Negative14Bit,
    /// A header byte telling which of up to eight fields are present, then
    /// each present one as a signed variable byte
    TaggedVariable,
    /// Three fields packed into 2, 4, 6, 8, 16, 24 or 32 bits each
    Tagged32,
    /// 1 tag byte containing 4 2 bit tags, followed by 4 fields
    ///
    /// | Tag | Field width         |
    /// |-----|---------------------|
    /// | 0   | 0 (field value = 0) |
    /// | 1   | 4                   |
    /// | 2   | 8                   |
    /// | 3   | 16                  |
    Tagged16,
    /// Nothing is written to the log, assume value is 0
    Null,
}

/// The encoding that the number `b` stands for in a frame definition header.
pub open spec fn encoding_of_num(b: Seq<u8>) -> Option<Encoding> {
    if b == text("0") {
        Some(Encoding::VariableSigned)
    } else if b == text("1") {
        Some(Encoding::Variable)
    } else if b == text("3") {
        Some(Encoding::Negative14Bit)
    } else if b == text("6") {
        Some(Encoding::TaggedVariable)
    } else if b == text("7") {
        Some(Encoding::Tagged32)
    } else if b == text("8") {
        Some(Encoding::Tagged16)
    } else if b == text("9") {
        Some(Encoding::Null)
    } else {
        None
    }
}

/// Whether values of `enc` are signed.
pub open spec fn encoding_is_signed(enc: Encoding) -> bool {
    match enc {
        Encoding::VariableSigned | Encoding::Negative14Bit | Encoding::TaggedVariable
        | Encoding::Tagged32 | Encoding::Tagged16 => true,
        Encoding::Variable | Encoding::Null => false,
    }
}

/// The most fields that one value of `enc` holds.
pub open spec fn max_chunk(enc: Encoding) -> nat {
    match enc {
        Encoding::TaggedVariable => 8,
        Encoding::Tagged32 => 3,
        Encoding::Tagged16 => 4,
        _ => 1,
    }
}

/// Decoding `n` fields of `enc` written at byte `k` of `d`: the raw values,
/// signed ones in two's complement, and the byte after them. For
/// `Tagged32` and `Tagged16` with fewer fields than a group holds, the whole
/// group is read and its first fields kept.
pub open spec fn decode_spec(enc: Encoding, d: Seq<u8>, k: int, n: nat) -> Result<
    (Seq<u32>, int),
    InternalError,
> {
    match enc {
        Encoding::VariableSigned => match variable_signed_spec(d, k) {
            (Ok(v), end) => Ok((seq![v as u32], end)),
            (Err(e), _) => Err(internal_error_of(e)),
        },
        Encoding::Variable => match variable_spec(d, k) {
            (Ok(v), end) => Ok((seq![v], end)),
            (Err(e), _) => Err(internal_error_of(e)),
        },
        Encoding::Negative14Bit => match negative_14_bit_spec(d, k) {
            (Ok(v), end) => Ok((seq![v as u32], end)),
            (Err(e), _) => Err(internal_error_of(e)),
        },
        Encoding::TaggedVariable => tagged_variable_spec(d, k, n),
        Encoding::Tagged32 => match tagged_32_spec(d, k) {
            Ok((values, end)) => Ok((values.take(n as int).map_values(|v: i32| v as u32), end)),
            Err(e) => Err(internal_error_of(e)),
        },
        Encoding::Tagged16 => match tagged_16_spec(d, k) {
            Ok((values, end)) => Ok((values.take(n as int), end)),
            Err(e) => Err(e),
        },
        Encoding::Null => Ok((seq![0u32], k)),
    }
}

impl Encoding {
    /// Reads the encoding number of a frame definition header.
    pub fn from_num_str(s: &str) -> (enc: Option<Self>)
        ensures
            enc == encoding_of_num(text(s)),
    {
        if str_eq(s, "0") {
            Some(Encoding::VariableSigned)
        } else if str_eq(s, "1") {
            Some(Encoding::Variable)
        } else if str_eq(s, "3") {
            Some(Encoding::Negative14Bit)
        } else if str_eq(s, "6") {
            Some(Encoding::TaggedVariable)
        } else if str_eq(s, "7") {
            Some(Encoding::Tagged32)
        } else if str_eq(s, "8") {
            Some(Encoding::Tagged16)
        } else if str_eq(s, "9") {
            Some(Encoding::Null)
        } else {
            None
        }
    }

    /// Whether values of this encoding are signed.
    pub fn is_signed(&self) -> (b: bool)
        ensures
            b == encoding_is_signed(*self),
    {
        match self {
            Encoding::VariableSigned | Encoding::Negative14Bit | Encoding::TaggedVariable
            | Encoding::Tagged32 | Encoding::Tagged16 => true,
            Encoding::Variable | Encoding::Null => false,
        }
    }

    /// The most fields that one value of this encoding holds.
    pub fn max_chunk_size(&self) -> (n: usize)
        ensures
            n == max_chunk(*self),
    {
        match self {
            Encoding::TaggedVariable => 8,
            Encoding::Tagged32 => 3,
            Encoding::Tagged16 => 4,
            Encoding::VariableSigned | Encoding::Variable | Encoding::Negative14Bit
            | Encoding::Null => 1,
        }
    }

    /// Decodes `out.len()` fields of this encoding into `out`.
    pub fn decode_into(&self, data: &mut Reader, out: &mut [u32]) -> (res: Result<
        (),
        InternalError,
    >)
        requires
            old(data).wf(),
            1 <= old(out)@.len() <= max_chunk(*self),
        ensures
            final(data).wf(),
            final(data).data() == old(data).data(),
            final(out)@.len() == old(out)@.len(),
            match decode_spec(*self, old(data).data(), byte_index(old(data).pos()), old(out)@.len()) {
                Ok((values, end)) => res is Ok && final(out)@ == values && (if *self is Null {
                    *final(data) == *old(data)
                } else {
                    final(data).pos() == 8 * end
                }),
                Err(e) => res == Err::<(), InternalError>(e),
            },
    {
        match self {
            Encoding::VariableSigned => match variable_signed(data) {
                Ok(v) => {
                    out[0] = v as u32;
                    assert(out@ =~= seq![v as u32]);
                    Ok(())
                },
                Err(e) => Err(InternalError::from_parse_error(e)),
            },
            Encoding::Variable => match variable(data) {
                Ok(v) => {
                    out[0] = v;
                    assert(out@ =~= seq![v]);
                    Ok(())
                },
                Err(e) => Err(InternalError::from_parse_error(e)),
            },
            Encoding::Negative14Bit => match negative_14_bit(data) {
                Ok(v) => {
                    out[0] = v as u32;
                    assert(out@ =~= seq![v as u32]);
                    Ok(())
                },
                Err(e) => Err(InternalError::from_parse_error(e)),
            },
            Encoding::TaggedVariable => tagged_variable(data, out),
            Encoding::Tagged32 => match tagged_32(data) {
                Ok(values) => {
                    let n = out.len();
                    let mut i: usize = 0;
                    while i < n
                        invariant
                            n == out@.len() <= 3,
                            i <= n,
                            forall|j: int| 0 <= j < i ==> out@[j] == values@[j] as u32,
                        decreases n - i,
                    {
                        out[i] = values[i] as u32;
                        i += 1;
                    }
                    assert(out@ =~= values@.take(n as int).map_values(|v: i32| v as u32));
                    Ok(())
                },
                Err(e) => Err(InternalError::from_parse_error(e)),
            },
            Encoding::Tagged16 => {
                let mut group: [u32; 4] = [0; 4];
                match tagged_16(data, &mut group) {
                    Ok(()) => {
                        let n = out.len();
                        let mut i: usize = 0;
                        while i < n
                            invariant
                                n == out@.len() <= 4,
                                group@.len() == 4,
                                i <= n,
                                forall|j: int| 0 <= j < i ==> out@[j] == group@[j],
                            decreases n - i,
                        {
                            out[i] = group[i];
                            i += 1;
                        }
                        assert(out@ =~= group@.take(n as int));
                        Ok(())
                    },
                    Err(e) => Err(e),
                }
            },
            Encoding::Null => {
                out[0] = 0;
                assert(out@ =~= seq![0u32]);
                Ok(())
            },
        }
    }
}

/// The encoding numbers of the frame definition headers: 0 signed variable
/// length, 1 unsigned variable length, 3 negative 14-bit, 6 tagged variable
/// length, 7 tagged 32-bit, 8 tagged 16-bit and 9 nothing written; each
/// encoding has its one number, and every other text stands for none.
pub proof fn lemma_encoding_numbers(b: Seq<u8>)
    ensures
        encoding_of_num(b) == Some(Encoding::VariableSigned) <==> b == text("0"),
        encoding_of_num(b) == Some(Encoding::Variable) <==> b == text("1"),
        encoding_of_num(b) == Some(Encoding::Negative14Bit) <==> b == text("3"),
        encoding_of_num(b) == Some(Encoding::TaggedVariable) <==> b == text("6"),
        encoding_of_num(b) == Some(Encoding::Tagged32) <==> b == text("7"),
        encoding_of_num(b) == Some(Encoding::Tagged16) <==> b == text("8"),
        encoding_of_num(b) == Some(Encoding::Null) <==> b == text("9"),
        encoding_of_num(b) is None <==> !(b == text("0") || b == text("1") || b == text("3")
            || b == text("6") || b == text("7") || b == text("8") || b == text("9")),
{
    reveal_strlit("0");
    crate::text::lemma_ascii_text("0");
    assert(text("0")[0] == 0x30);
    reveal_strlit("1");
    crate::text::lemma_ascii_text("1");
    assert(text("1")[0] == 0x31);
    reveal_strlit("3");
    crate::text::lemma_ascii_text("3");
    assert(text("3")[0] == 0x33);
    reveal_strlit("6");
    crate::text::lemma_ascii_text("6");
    assert(text("6")[0] == 0x36);
    reveal_strlit("7");
    crate::text::lemma_ascii_text("7");
    assert(text("7")[0] == 0x37);
    reveal_strlit("8");
    crate::text::lemma_ascii_text("8");
    assert(text("8")[0] == 0x38);
    reveal_strlit("9");
    crate::text::lemma_ascii_text("9");
    assert(text("9")[0] == 0x39);
}

} // verus!
