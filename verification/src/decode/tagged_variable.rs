//! Up to eight zig-zag encoded variable-length integers, with a leading byte
//! whose bits tell which of them are present.

use super::{internal_error_of, variable_signed, variable_signed_spec, InternalError};
use crate::reader::{byte_index, Reader};
use vstd::arithmetic::power2::{lemma_pow2_pos, lemma_pow2_unfold, pow2};
use vstd::prelude::*;

verus! {

/// Decoding fields `j` to `count - 1` of a tagged group whose presence bits
/// are `header`, starting at byte `k`: the values (as the bits of 32-bit
/// integers) and the index of the byte after the last one read.  A field whose
/// bit is clear is zero and takes no bytes; bits set beyond the last field
/// make the group corrupt.
pub open spec fn tagged_variable_from(data: Seq<u8>, k: int, header: u8, j: nat, count: nat) -> Result<
    (Seq<u32>, int),
    InternalError,
>
    decreases count - j,
{
    if j >= count {
        if header as nat >= pow2(count) {
            Err(InternalError::Retry)
        } else {
            Ok((Seq::empty(), k))
        }
    } else if (header as nat / pow2(j)) % 2 == 1 {
        let (first, next) = variable_signed_spec(data, k);
        match first {
            Ok(v) => match tagged_variable_from(data, next, header, j + 1, count) {
                Ok((rest, end)) => Ok((seq![v as u32] + rest, end)),
                Err(e) => Err(e),
            },
            Err(e) => Err(internal_error_of(e)),
        }
    } else {
        match tagged_variable_from(data, k, header, j + 1, count) {
            Ok((rest, end)) => Ok((seq![0u32] + rest, end)),
            Err(e) => Err(e),
        }
    }
}

/// Decoding a tagged group of `count` values starting at byte `k`.  A single
/// value is stored alone, without the byte of presence bits.
pub open spec fn tagged_variable_spec(data: Seq<u8>, k: int, count: nat) -> Result<
    (Seq<u32>, int),
    InternalError,
> {
    if count == 1 {
        let (first, next) = variable_signed_spec(data, k);
        match first {
            Ok(v) => Ok((seq![v as u32], next)),
            Err(e) => Err(internal_error_of(e)),
        }
    } else if k >= data.len() {
        Err(InternalError::Eof)
    } else {
        tagged_variable_from(data, k + 1, data[k], 0, count)
    }
}

/// Decodes a group of `out.len()` tagged variable-length values from the next
/// byte boundary into `out`, each as the bits of a 32-bit integer.
#[verifier::rlimit(40)]
pub fn tagged_variable(data: &mut Reader, out: &mut [u32]) -> (res: Result<(), InternalError>)
    requires
        old(data).wf(),
        1 <= old(out)@.len() <= 8,
    ensures
        final(data).wf(),
        final(data).data() == old(data).data(),
        final(out)@.len() == old(out)@.len(),
        match res {
            Ok(()) => tagged_variable_spec(
                old(data).data(),
                byte_index(old(data).pos()),
                old(out)@.len(),
            ) == Ok::<(Seq<u32>, int), InternalError>((final(out)@, final(data).pos() / 8))
                && final(data).pos() % 8 == 0,
            Err(e) => tagged_variable_spec(
                old(data).data(),
                byte_index(old(data).pos()),
                old(out)@.len(),
            ) == Err::<(Seq<u32>, int), InternalError>(e),
        },
{
    proof {
        old(data).lemma_wf();
    }
    let ghost d = old(data).data();
    let ghost k = byte_index(old(data).pos());
    let count = out.len();
    if count == 1 {
        match variable_signed(data) {
            Ok(v) => {
                out[0] = v as u32;
                assert(out@ =~= seq![v as u32]);
                return Ok(());
            },
            Err(e) => {
                return Err(InternalError::from_parse_error(e));
            },
        }
    }
    let header = match data.read_u8() {
        Some(b) => b,
        None => {
            return Err(InternalError::Eof);
        },
    };
    let mut h = header;
    let mut j: usize = 0;
    let ghost mut pos: int = k + 1;
    proof {
        lemma_pow2_pos(0);
        vstd::arithmetic::power2::lemma2_to64();
        assert(header as nat / 1 == header);
        lemma_tail_shape(d, k + 1, header, 0, count as nat);
    }
    while j < count
        invariant
            d == old(data).data(),
            data.wf(),
            data.data() == d,
            2 <= count <= 8,
            count == old(out)@.len(),
            k == byte_index(old(data).pos()),
            out@.len() == count,
            j <= count,
            data.pos() == 8 * pos,
            h as nat == header as nat / pow2(j as nat),
            tagged_variable_spec(d, k, count as nat) == prefix_then(out@.subrange(0, j as int), tagged_variable_from(d, pos, header, j as nat, count as nat)),
        decreases count - j,
    {
        proof {
            lemma_pow2_pos(j as nat);
            lemma_tail_shape(d, pos, header, j as nat, count as nat);
            assert(h & 1 == h % 2) by (bit_vector);
            assert(h >> 1 == h / 2) by (bit_vector);
            lemma_pow2_unfold((j + 1) as nat);
            vstd::arithmetic::div_mod::lemma_div_denominator(header as int, pow2(j as nat) as int, 2);
        }
        let ghost old_out = out@;
        if h & 1 == 1 {
            match variable_signed(data) {
                Ok(v) => {
                    out[j] = v as u32;
                    proof {
                        pos = data.pos() / 8;
                    }
                },
                Err(e) => {
                    return Err(InternalError::from_parse_error(e));
                },
            }
        } else {
            out[j] = 0;
        }
        proof {
            assert(out@.subrange(0, j + 1) =~= old_out.subrange(0, j as int) + seq![out@[j as int]]);
            lemma_prefix_assoc(old_out.subrange(0, j as int), seq![out@[j as int]], tagged_variable_from(d, pos, header, (j + 1) as nat, count as nat));
        }
        h = h >> 1;
        j = j + 1;
    }
    proof {
        assert(out@.subrange(0, count as int) =~= out@);
        lemma_pow2_pos(count as nat);
        let p = pow2(count as nat) as int;
        assert((header as int / p != 0) == (header as int >= p)) by (nonlinear_arith)
            requires
                p > 0,
                header >= 0,
        ;
        assert(h as nat == header as nat / pow2(j as nat));
    }
    if h != 0 {
        return Err(InternalError::Retry);
    }
    Ok(())
}

/// `prefix` followed by what `rest` decodes, or the error of `rest`.
pub open spec fn prefix_then(prefix: Seq<u32>, rest: Result<(Seq<u32>, int), InternalError>) -> Result<
    (Seq<u32>, int),
    InternalError,
> {
    match rest {
        Ok((values, end)) => Ok((prefix + values, end)),
        Err(e) => Err(e),
    }
}

proof fn lemma_prefix_assoc(p: Seq<u32>, q: Seq<u32>, r: Result<(Seq<u32>, int), InternalError>)
    ensures
        prefix_then(p, prefix_then(q, r)) == prefix_then(p + q, r),
{
    if let Ok((values, end)) = r {
        assert(p + (q + values) =~= (p + q) + values);
    }
}

proof fn lemma_tail_shape(data: Seq<u8>, k: int, header: u8, j: nat, count: nat)
    requires
        j < count,
    ensures
        tagged_variable_from(data, k, header, j, count) == (if (header as nat / pow2(j)) % 2
            == 1 {
            let (first, next) = variable_signed_spec(data, k);
            match first {
                Ok(v) => prefix_then(seq![v as u32], tagged_variable_from(data, next, header, j + 1, count)),
                Err(e) => Err(internal_error_of(e)),
            }
        } else {
            prefix_then(seq![0u32], tagged_variable_from(data, k, header, j + 1, count))
        }),
{
}

} // verus!
