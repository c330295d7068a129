//! Variable-length integers: seven bits per byte, least significant group
//! first, with the high bit of each byte set when another byte follows.

use super::{zig_zag_decode, zig_zag_value, ParseError};
use crate::reader::{byte_index, Reader};
use vstd::prelude::*;

verus! {

/// `128` to the power `n`.
pub open spec fn pow128(n: nat) -> nat
    decreases n,
{
    if n == 0 {
        1
    } else {
        128 * pow128((n - 1) as nat)
    }
}

/// Decoding a variable-length integer whose first `i` bytes, starting at byte
/// `k`, were continuation bytes contributing `acc`.  Returns the outcome and
/// the index of the byte after the last one read.
///
/// A byte below `0x80` ends the value; at most five bytes are read, and the
/// value is taken modulo `2^32`.
pub open spec fn variable_from(data: Seq<u8>, k: int, i: nat, acc: nat) -> (
    Result<u32, ParseError>,
    int,
)
    decreases 5 - i,
{
    if i >= 5 {
        (Err(ParseError::Corrupted), k + 5)
    } else if k + i >= data.len() {
        (Err(ParseError::UnexpectedEof), k + i)
    } else {
        let b = data[k + i];
        let acc2 = (acc + (b % 128) * pow128(i)) as nat;
        if b < 128 {
            (Ok((acc2 % 0x1_0000_0000) as u32), k + i + 1)
        } else if i == 4 {
            (Err(ParseError::Corrupted), k + 5)
        } else {
            variable_from(data, k, i + 1, acc2)
        }
    }
}

/// Decoding a variable-length integer that starts at byte `k`.
pub open spec fn variable_spec(data: Seq<u8>, k: int) -> (Result<u32, ParseError>, int) {
    variable_from(data, k, 0, 0)
}

/// Decoding a zig-zag encoded variable-length integer that starts at byte
/// `k`.
pub open spec fn variable_signed_spec(data: Seq<u8>, k: int) -> (Result<i32, ParseError>, int) {
    let (res, end) = variable_spec(data, k);
    match res {
        Ok(v) => (Ok(zig_zag_value(v) as i32), end),
        Err(e) => (Err(e), end),
    }
}

proof fn lemma_variable_step(acc: u32, b: u8, i: u32)
    requires
        i < 5,
        acc < pow128(i as nat),
    ensures
        (acc | ((((b & 0x7f) as u64) << ((7 * i) as u64)) as u32)) as nat == (acc + (b % 128)
            * pow128(i as nat)) % 0x1_0000_0000,
        i < 4 ==> acc + (b % 128) * pow128(i as nat) < pow128((i + 1) as nat),
        acc + (b % 128) * pow128(i as nat) < 0x8_0000_0000,
        i < 4 ==> (acc + (b % 128) * pow128(i as nat)) % 0x1_0000_0000 == acc + (b % 128)
            * pow128(i as nat),
{
    reveal_with_fuel(pow128, 6);
    if i == 0 {
        assert((acc | ((((b & 0x7f) as u64) << 0u64) as u32)) as nat == (acc + (b % 128) * 1)
            % 0x1_0000_0000) by (bit_vector)
            requires
                acc < 1,
        ;
    } else if i == 1 {
        assert((acc | ((((b & 0x7f) as u64) << 7u64) as u32)) as nat == (acc + (b % 128) * 128)
            % 0x1_0000_0000) by (bit_vector)
            requires
                acc < 128,
        ;
    } else if i == 2 {
        assert((acc | ((((b & 0x7f) as u64) << 14u64) as u32)) as nat == (acc + (b % 128)
            * 0x4000) % 0x1_0000_0000) by (bit_vector)
            requires
                acc < 0x4000,
        ;
    } else if i == 3 {
        assert((acc | ((((b & 0x7f) as u64) << 21u64) as u32)) as nat == (acc + (b % 128)
            * 0x20_0000) % 0x1_0000_0000) by (bit_vector)
            requires
                acc < 0x20_0000,
        ;
    } else {
        assert((acc | ((((b & 0x7f) as u64) << 28u64) as u32)) as nat == (acc + (b % 128)
            * 0x1000_0000) % 0x1_0000_0000) by (bit_vector)
            requires
                acc < 0x1000_0000,
        ;
    }
}

/// Decodes an unsigned variable-length integer from the next byte boundary.
///
/// Fails with [`ParseError::Corrupted`] when five bytes pass without a final
/// byte, and with [`ParseError::UnexpectedEof`] when the data ends first.
pub fn variable(data: &mut Reader) -> (res: Result<u32, ParseError>)
    requires
        old(data).wf(),
    ensures
        final(data).wf(),
        final(data).data() == old(data).data(),
        (res, final(data).pos() / 8) == variable_spec(old(data).data(), byte_index(old(data).pos())),
        final(data).pos() % 8 == 0,
{
    data.byte_align();
    let ghost k = byte_index(old(data).pos());
    let ghost d = data.data();
    let mut uvar: u32 = 0;
    let mut i: u32 = 0;
    let ghost mut acc: nat = 0;
    loop
        invariant
            data.wf(),
            data.data() == d,
            d == old(data).data(),
            k == byte_index(old(data).pos()),
            i < 5,
            data.pos() == 8 * (k + i),
            uvar as nat == acc,
            acc < pow128(i as nat),
            variable_from(d, k, i as nat, acc) == variable_spec(d, k),
        decreases 5 - i,
    {
        let byte = match data.read_u8() {
            Some(b) => b,
            None => {
                return Err(ParseError::UnexpectedEof);
            },
        };
        proof {
            lemma_variable_step(uvar, byte, i);
        }
        let is_last_byte = byte < 0x80;
        uvar = uvar | ((((byte & 0x7f) as u64) << ((7 * i) as u64)) as u32);
        proof {
            acc = (acc + (byte % 128) * pow128(i as nat)) as nat;
        }
        if is_last_byte {
            return Ok(uvar);
        }
        if i == 4 {
            return Err(ParseError::Corrupted);
        }
        i = i + 1;
    }
}

/// Decodes a zig-zag encoded variable-length integer.
pub fn variable_signed(data: &mut Reader) -> (res: Result<i32, ParseError>)
    requires
        old(data).wf(),
    ensures
        final(data).wf(),
        final(data).data() == old(data).data(),
        (res, final(data).pos() / 8) == variable_signed_spec(
            old(data).data(),
            byte_index(old(data).pos()),
        ),
        final(data).pos() % 8 == 0,
{
    match variable(data) {
        Ok(v) => Ok(zig_zag_decode(v)),
        Err(e) => Err(e),
    }
}

} // verus!
