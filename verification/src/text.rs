//! Reading header text: comparing, splitting and decimal numbers.
//!
//! Header values are UTF-8 text. Their contracts speak of the bytes of that
//! text (`spec_bytes`); the separators that headers use are ASCII, so a text
//! split at one of them is split between two characters.

use vstd::prelude::*;
use vstd::string::StringSliceAdditionalSpecFns;
use vstd::utf8::{
    encode_utf8, encode_utf8_valid_utf8, is_ascii_chars, is_ascii_chars_encode_utf8,
    is_char_boundary, is_char_boundary_iff_not_is_continuation_byte,
    is_char_boundary_start_end_of_seq, is_continuation_byte, pop_first_scalar, valid_utf8,
    valid_utf8_split,
};

verus! {

/// The UTF-8 bytes of `s`.
pub open spec fn text(s: &str) -> Seq<u8> {
    s.spec_bytes()
}

/// The UTF-8 bytes of `s`.
pub open spec fn string_text(s: &String) -> Seq<u8> {
    encode_utf8(s@)
}

/// The bytes of an ASCII text are its characters.
pub proof fn lemma_ascii_text(s: &str)
    requires
        is_ascii_chars(s@),
    ensures
        text(s).len() == s@.len(),
        forall|i: int| 0 <= i < s@.len() ==> text(s)[i] == s@[i] as u8 && text(s)[i] < 0x80,
{
    is_ascii_chars_encode_utf8(s@);
    assert forall|i: int| 0 <= i < s@.len() implies text(s)[i] == s@[i] as u8 && text(s)[i]
        < 0x80 by {
        assert('\0' <= s@[i] <= '\u{7f}');
    }
}

/// An owned copy of `s`.
pub fn to_string(s: &str) -> (r: String)
    ensures
        string_text(&r) == text(s),
{
    s.to_owned()
}

/// The error that `core::str::from_utf8` gives for bytes that are not UTF-8.
#[verifier::external_type_specification]
#[verifier::external_body]
pub struct ExUtf8Error(core::str::Utf8Error);

/// Calls `core::str::from_utf8`: `bytes` as text, if they are valid UTF-8,
/// else an error.
#[verifier::external_body]
pub(crate) fn utf8_text(bytes: &[u8]) -> (res: Result<&str, core::str::Utf8Error>)
    ensures
        res is Ok <==> valid_utf8(bytes@),
        res matches Ok(s) ==> text(s) == bytes@,
{
    core::str::from_utf8(bytes)
}

/// The index of the first `x` in `b`, or the length of `b` when it holds none.
pub open spec fn find(b: Seq<u8>, x: u8) -> int
    decreases b.len(),
{
    if b.len() == 0 {
        0
    } else if b[0] == x {
        0
    } else {
        1 + find(b.drop_first(), x)
    }
}

/// `find` is an index of `x` with no `x` before it.
pub proof fn lemma_find(b: Seq<u8>, x: u8)
    ensures
        0 <= find(b, x) <= b.len(),
        find(b, x) < b.len() ==> b[find(b, x)] == x,
        forall|i: int| 0 <= i < find(b, x) ==> b[i] != x,
    decreases b.len(),
{
    if b.len() > 0 && b[0] != x {
        lemma_find(b.drop_first(), x);
        assert forall|i: int| 0 <= i < find(b, x) implies b[i] != x by {
            if i > 0 {
                assert(b[i] == b.drop_first()[i - 1]);
            }
        }
    }
}

/// Each byte of a text is valid UTF-8.
pub proof fn lemma_text_valid(s: &str)
    ensures
        valid_utf8(text(s)),
{
    encode_utf8_valid_utf8(s@);
}

/// An ASCII byte in valid UTF-8 starts a character and the next byte does
/// too.
proof fn lemma_ascii_boundaries(b: Seq<u8>, k: int)
    requires
        valid_utf8(b),
        0 <= k < b.len(),
        b[k] < 0x80,
    ensures
        is_char_boundary(b, k),
        is_char_boundary(b, k + 1),
{
    is_char_boundary_iff_not_is_continuation_byte(b, k);
    if k + 1 == b.len() {
        is_char_boundary_start_end_of_seq(b);
    } else {
        valid_utf8_split(b, k);
        let suffix = b.subrange(k, b.len() as int);
        assert(valid_utf8(suffix));
        reveal_with_fuel(valid_utf8, 2);
        assert(pop_first_scalar(suffix) =~= b.subrange(k + 1, b.len() as int));
        assert(!is_continuation_byte(b[k + 1]));
        is_char_boundary_iff_not_is_continuation_byte(b, k + 1);
    }
}

/// Whether two texts are the same.
pub fn str_eq(a: &str, b: &str) -> (eq: bool)
    ensures
        eq == (text(a) == text(b)),
{
    let x = a.as_bytes();
    let y = b.as_bytes();
    if x.len() != y.len() {
        return false;
    }
    let mut i: usize = 0;
    while i < x.len()
        invariant
            x@ == text(a),
            y@ == text(b),
            x.len() == y.len(),
            i <= x.len(),
            forall|j: int| 0 <= j < i ==> x@[j] == y@[j],
        decreases x.len() - i,
    {
        if x[i] != y[i] {
            return false;
        }
        i += 1;
    }
    assert(x@ =~= y@);
    true
}

/// The index of the first `x` among the bytes of `s`, if there is one.
pub fn find_byte(s: &[u8], x: u8) -> (i: usize)
    ensures
        i == find(s@, x),
{
    proof {
        lemma_find(s@, x);
    }
    let mut i: usize = 0;
    while i < s.len()
        invariant
            i <= s.len(),
            forall|j: int| 0 <= j < i ==> s@[j] != x,
            0 <= find(s@, x) <= s@.len(),
            find(s@, x) < s@.len() ==> s@[find(s@, x)] == x,
            forall|j: int| 0 <= j < find(s@, x) ==> s@[j] != x,
        decreases s.len() - i,
    {
        if s[i] == x {
            return i;
        }
        i += 1;
    }
    i
}

/// Splits `s` around its first `sep`, which must be an ASCII byte.
pub fn split_once<'a>(s: &'a str, sep: u8) -> (res: Option<(&'a str, &'a str)>)
    requires
        sep < 0x80,
    ensures
        res is Some <==> find(text(s), sep) < text(s).len(),
        res matches Some((before, after)) ==> {
            &&& text(before) == text(s).take(find(text(s), sep))
            &&& text(after) == text(s).skip(find(text(s), sep) + 1)
        },
{
    let bytes = s.as_bytes();
    let i = find_byte(bytes, sep);
    if i == bytes.len() {
        return None;
    }
    proof {
        lemma_find(text(s), sep);
        lemma_text_valid(s);
        lemma_ascii_boundaries(text(s), i as int);
    }
    let (before, rest) = s.split_at(i);
    proof {
        lemma_text_valid(rest);
        lemma_ascii_boundaries(text(rest), 0);
    }
    let (_, after) = rest.split_at(1);
    Some((before, after))
}

/// The rest of `s` after `prefix`, if `s` starts with `prefix`, which must be
/// ASCII.
pub fn strip_prefix<'a>(s: &'a str, prefix: &str) -> (res: Option<&'a str>)
    requires
        forall|i: int| 0 <= i < text(prefix).len() ==> text(prefix)[i] < 0x80,
    ensures
        res is Some <==> text(prefix).len() <= text(s).len() && text(s).take(
            text(prefix).len() as int,
        ) == text(prefix),
        res matches Some(rest) ==> text(rest) == text(s).skip(text(prefix).len() as int),
{
    let x = s.as_bytes();
    let p = prefix.as_bytes();
    if p.len() > x.len() {
        return None;
    }
    let mut i: usize = 0;
    while i < p.len()
        invariant
            x@ == text(s),
            p@ == text(prefix),
            p.len() <= x.len(),
            i <= p.len(),
            forall|j: int| 0 <= j < i ==> x@[j] == p@[j],
        decreases p.len() - i,
    {
        if x[i] != p[i] {
            assert(x@.take(p.len() as int)[i as int] != p@[i as int]);
            return None;
        }
        i += 1;
    }
    assert(x@.take(p.len() as int) =~= p@);
    if p.len() == 0 {
        proof {
            lemma_text_valid(s);
            is_char_boundary_start_end_of_seq(text(s));
        }
    } else {
        proof {
            lemma_text_valid(s);
            lemma_ascii_boundaries(text(s), p.len() - 1);
        }
    }
    let (_, rest) = s.split_at(p.len());
    Some(rest)
}

/// `s` without its last byte, if that is the ASCII byte `last`.
pub fn strip_suffix<'a>(s: &'a str, last: u8) -> (res: Option<&'a str>)
    requires
        last < 0x80,
    ensures
        res is Some <==> text(s).len() > 0 && text(s).last() == last,
        res matches Some(rest) ==> text(rest) == text(s).drop_last(),
{
    let bytes = s.as_bytes();
    let n = bytes.len();
    if n == 0 || bytes[n - 1] != last {
        return None;
    }
    proof {
        lemma_text_valid(s);
        lemma_ascii_boundaries(text(s), n - 1);
    }
    let (rest, _) = s.split_at(n - 1);
    assert(text(rest) =~= text(s).drop_last());
    Some(rest)
}

/// The pieces of `b` between the bytes `sep`, in order; a text without `sep`
/// is one piece.
pub open spec fn pieces(b: Seq<u8>, sep: u8) -> Seq<Seq<u8>>
    decreases b.len(),
{
    let i = find(b, sep);
    if i >= b.len() || i < 0 {
        seq![b]
    } else {
        seq![b.take(i)].add(pieces(b.skip(i + 1), sep))
    }
}

/// The texts of a list of texts.
pub open spec fn texts(v: Seq<&str>) -> Seq<Seq<u8>> {
    v.map_values(|s: &str| text(s))
}

/// Splits `s` at every `sep`, which must be an ASCII byte.
pub fn split_all<'a>(s: &'a str, sep: u8) -> (parts: Vec<&'a str>)
    requires
        sep < 0x80,
    ensures
        texts(parts@) == pieces(text(s), sep),
{
    let mut parts: Vec<&'a str> = Vec::new();
    let mut rest = s;
    loop
        invariant
            sep < 0x80,
            texts(parts@) + pieces(text(rest), sep) == pieces(text(s), sep),
        decreases text(rest).len(),
    {
        proof {
            lemma_find(text(rest), sep);
        }
        match split_once(rest, sep) {
            Some((before, after)) => {
                let ghost old_parts = parts@;
                let ghost old_rest = text(rest);
                parts.push(before);
                rest = after;
                assert(texts(parts@) =~= texts(old_parts).push(text(before)));
                assert(pieces(old_rest, sep) =~= seq![text(before)].add(pieces(text(rest), sep)));
                assert(texts(parts@) + pieces(text(rest), sep) =~= texts(old_parts) + pieces(
                    old_rest,
                    sep,
                ));
            },
            None => {
                let ghost old_parts = parts@;
                parts.push(rest);
                assert(texts(parts@) =~= texts(old_parts).push(text(rest)));
                assert(texts(parts@) =~= texts(old_parts) + pieces(text(rest), sep));
                return parts;
            },
        }
    }
}

/// The outcome of reading a decimal number that does not come out as one.
#[derive(Debug, Clone, Copy, PartialEq, Eq, Structural)]
pub enum NumberError {
    /// Empty, or a byte that is no digit.
    Invalid,
    /// The digits stand for a number over the largest allowed.
    Overflow,
}

/// Whether `c` is an ASCII decimal digit.
pub open spec fn is_digit(c: u8) -> bool {
    0x30 <= c <= 0x39
}

/// Reads the digits of `d` from index `i` on into `acc`, left to right,
/// failing at the first byte that is no digit or that takes the number over
/// `max`.
pub open spec fn scan_decimal(d: Seq<u8>, i: int, acc: nat, max: nat) -> Result<nat, NumberError>
    decreases d.len() - i,
{
    if i < 0 || i >= d.len() {
        Ok(acc)
    } else if !is_digit(d[i]) {
        Err(NumberError::Invalid)
    } else if acc * 10 + (d[i] - 0x30) > max {
        Err(NumberError::Overflow)
    } else {
        scan_decimal(d, i + 1, (acc * 10 + (d[i] - 0x30)) as nat, max)
    }
}

/// The unsigned number that `b` spells in decimal, at most `max`: an
/// optional `+`, then one or more digits. Like the standard library, it
/// reports the first problem met, reading left to right.
pub open spec fn decimal(b: Seq<u8>, max: nat) -> Result<nat, NumberError> {
    let digits = if b.len() > 0 && b[0] == 0x2b {
        b.drop_first()
    } else {
        b
    };
    if digits.len() == 0 {
        Err(NumberError::Invalid)
    } else {
        scan_decimal(digits, 0, 0, max)
    }
}

/// A number read digit by digit stays at most `max`.
proof fn lemma_scan_decimal_bound(d: Seq<u8>, i: int, acc: nat, max: nat)
    requires
        acc <= max,
    ensures
        scan_decimal(d, i, acc, max) matches Ok(v) ==> v <= max,
    decreases d.len() - i,
{
    if 0 <= i < d.len() && is_digit(d[i]) && acc * 10 + (d[i] - 0x30) <= max {
        lemma_scan_decimal_bound(d, i + 1, (acc * 10 + (d[i] - 0x30)) as nat, max);
    }
}

/// A decimal number read with the bound `max` is at most `max`.
pub proof fn lemma_decimal_bound(b: Seq<u8>, max: nat)
    ensures
        decimal(b, max) matches Ok(v) ==> v <= max,
{
    let digits = if b.len() > 0 && b[0] == 0x2b {
        b.drop_first()
    } else {
        b
    };
    lemma_scan_decimal_bound(digits, 0, 0, max);
}

/// Reads an unsigned decimal number no larger than `max` from `b`.
pub fn parse_decimal(b: &[u8], max: u32) -> (res: Result<u32, NumberError>)
    ensures
        match decimal(b@, max as nat) {
            Ok(v) => v <= max && res == Ok::<u32, NumberError>(v as u32),
            Err(e) => res == Err::<u32, NumberError>(e),
        },
{
    let start: usize = if b.len() > 0 && b[0] == 0x2b {
        1
    } else {
        0
    };
    let ghost digits = if b@.len() > 0 && b@[0] == 0x2b {
        b@.drop_first()
    } else {
        b@
    };
    assert(digits =~= b@.skip(start as int));
    if start == b.len() {
        return Err(NumberError::Invalid);
    }
    assert(decimal(b@, max as nat) == scan_decimal(digits, 0, 0, max as nat));
    let mut acc: u64 = 0;
    let mut i: usize = start;
    while i < b.len()
        invariant
            start <= i <= b.len(),
            start < b.len(),
            digits == b@.skip(start as int),
            decimal(b@, max as nat) == scan_decimal(digits, 0, 0, max as nat),
            acc <= max,
            scan_decimal(digits, 0, 0, max as nat) == scan_decimal(
                digits,
                i - start,
                acc as nat,
                max as nat,
            ),
        decreases b.len() - i,
    {
        let c = b[i];
        assert(digits[i - start] == c);
        if c < 0x30 || c > 0x39 {
            assert(scan_decimal(digits, i - start, acc as nat, max as nat) == Err::<nat, NumberError>(
                NumberError::Invalid,
            ));
            return Err(NumberError::Invalid);
        }
        let next = acc * 10 + (c - 0x30) as u64;
        if next > max as u64 {
            assert(scan_decimal(digits, i - start, acc as nat, max as nat) == Err::<nat, NumberError>(
                NumberError::Overflow,
            ));
            return Err(NumberError::Overflow);
        }
        acc = next;
        i += 1;
    }
    assert(scan_decimal(digits, i - start, acc as nat, max as nat) == Ok::<nat, NumberError>(acc as nat));
    Ok(acc as u32)
}


/// The signed number that `b` spells in decimal, when it fits in 32 bits:
/// an optional `+` or `-`, then one or more digits.
pub open spec fn signed_decimal(b: Seq<u8>) -> Option<int> {
    if b.len() > 0 && b[0] == 0x2d {
        let digits = b.drop_first();
        if digits.len() == 0 || digits[0] == 0x2b {
            None
        } else {
            match decimal(digits, 0x8000_0000) {
                Ok(v) => Some(-v),
                Err(_) => None,
            }
        }
    } else {
        match decimal(b, 0x7fff_ffff) {
            Ok(v) => Some(v as int),
            Err(_) => None,
        }
    }
}

/// Reads a signed decimal number that fits in 32 bits from `b`.
pub fn parse_i32(b: &[u8]) -> (res: Option<i32>)
    ensures
        match signed_decimal(b@) {
            Some(v) => res == Some(v as i32) && i32::MIN <= v <= i32::MAX,
            None => res is None,
        },
{
    if b.len() > 0 && b[0] == 0x2d {
        let (_, digits) = b.split_at(1);
        let ghost rest = b@.drop_first();
        assert(digits@ =~= rest);
        if digits.len() == 0 || digits[0] == 0x2b {
            return None;
        }
        match parse_decimal(digits, 0x8000_0000) {
            Ok(v) => {
                let wide = -(v as i64);
                Some(wide as i32)
            },
            Err(_) => None,
        }
    } else {
        match parse_decimal(b, 0x7fff_ffff) {
            Ok(v) => Some(v as i32),
            Err(_) => None,
        }
    }
}

/// The value of `c` as a hexadecimal digit, in either case.
pub open spec fn hex_digit(c: u8) -> Option<nat> {
    if 0x30 <= c <= 0x39 {
        Some((c - 0x30) as nat)
    } else if 0x61 <= c <= 0x66 {
        Some((c - 0x61 + 10) as nat)
    } else if 0x41 <= c <= 0x46 {
        Some((c - 0x41 + 10) as nat)
    } else {
        None
    }
}

/// Reads the hexadecimal digits of `d` from index `i` on into `acc`,
/// failing at a byte that is no digit or when the number goes over `max`.
pub open spec fn scan_hex(d: Seq<u8>, i: int, acc: nat, max: nat) -> Option<nat>
    decreases d.len() - i,
{
    if i < 0 || i >= d.len() {
        Some(acc)
    } else {
        match hex_digit(d[i]) {
            None => None,
            Some(x) => if acc * 16 + x > max {
                None
            } else {
                scan_hex(d, i + 1, acc * 16 + x, max)
            },
        }
    }
}

/// The unsigned number that `b` spells in hexadecimal, when it fits in 32
/// bits: an optional `+`, then one or more digits.
pub open spec fn hex_value(b: Seq<u8>) -> Option<nat> {
    let digits = if b.len() > 0 && b[0] == 0x2b {
        b.drop_first()
    } else {
        b
    };
    if digits.len() == 0 {
        None
    } else {
        scan_hex(digits, 0, 0, 0xffff_ffff)
    }
}

/// Reads an unsigned hexadecimal number that fits in 32 bits from `b`.
pub fn parse_hex(b: &[u8]) -> (res: Option<u32>)
    ensures
        match hex_value(b@) {
            Some(v) => v <= u32::MAX && res == Some(v as u32),
            None => res is None,
        },
{
    let start: usize = if b.len() > 0 && b[0] == 0x2b {
        1
    } else {
        0
    };
    let ghost digits = if b@.len() > 0 && b@[0] == 0x2b {
        b@.drop_first()
    } else {
        b@
    };
    assert(digits =~= b@.skip(start as int));
    if start == b.len() {
        return None;
    }
    let mut acc: u64 = 0;
    let mut i: usize = start;
    while i < b.len()
        invariant
            start <= i <= b.len(),
            start < b.len(),
            digits == b@.skip(start as int),
            hex_value(b@) == scan_hex(digits, 0, 0, 0xffff_ffff),
            acc <= 0xffff_ffff,
            scan_hex(digits, 0, 0, 0xffff_ffff) == scan_hex(digits, i - start, acc as nat, 0xffff_ffff),
        decreases b.len() - i,
    {
        let c = b[i];
        assert(digits[i - start] == c);
        let x: u64 = if 0x30 <= c && c <= 0x39 {
            (c - 0x30) as u64
        } else if 0x61 <= c && c <= 0x66 {
            (c - 0x61 + 10) as u64
        } else if 0x41 <= c && c <= 0x46 {
            (c - 0x41 + 10) as u64
        } else {
            return None;
        };
        let next = acc * 16 + x;
        if next > 0xffff_ffff {
            return None;
        }
        acc = next;
        i += 1;
    }
    Some(acc as u32)
}

} // verus!
