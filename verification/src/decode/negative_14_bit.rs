//! Negated 14-bit two's complement values stored as variable-length integers.

use super::{variable, variable_spec, ParseError};
use crate::reader::{byte_index, Reader};
use vstd::prelude::*;

verus! {

/// The value of a negative-14-bit field whose variable-length integer is
/// `raw`: the low 16 bits of `raw`, read as a 14-bit two's complement integer
/// when bit 13 is set, negated.
pub open spec fn negative_14_bit_value(raw: u32) -> int {
    let r = raw as int % 0x1_0000;
    if (r / 0x2000) % 2 == 1 {
        -(r % 0x4000 - 0x4000)
    } else {
        -r
    }
}

/// Decoding a negative-14-bit field that starts at byte `k`.
pub open spec fn negative_14_bit_spec(data: Seq<u8>, k: int) -> (Result<i32, ParseError>, int) {
    let (res, end) = variable_spec(data, k);
    match res {
        Ok(v) => (Ok(negative_14_bit_value(v) as i32), end),
        Err(e) => (Err(e), end),
    }
}

/// Decodes a negative-14-bit field from the next byte boundary.
pub fn negative_14_bit(data: &mut Reader) -> (res: Result<i32, ParseError>)
    requires
        old(data).wf(),
    ensures
        final(data).wf(),
        final(data).data() == old(data).data(),
        (res, final(data).pos() / 8) == negative_14_bit_spec(
            old(data).data(),
            byte_index(old(data).pos()),
        ),
        final(data).pos() % 8 == 0,
{
    let raw = match variable(data) {
        Ok(v) => v,
        Err(e) => {
            return Err(e);
        },
    };
    let result = raw as u16;
    let value: i32 = if (result & 0x2000) > 0 {
        ((result | 0xc000) as i16) as i32
    } else {
        result as i32
    };
    assert(-(value as int) == negative_14_bit_value(raw)) by (bit_vector)
        requires
            result == raw as u16,
            value == if (result & 0x2000) > 0 {
                ((result | 0xc000) as i16) as i32
            } else {
                result as i32
            },
    ;
    Ok(-value)
}

} // verus!
