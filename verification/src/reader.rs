//! A cursor over the bytes of a log that reads whole bytes or single bits.

use bitter::BitReader as _;
use vstd::prelude::*;

verus! {

/// Bit `i` of `data`, counting from the most significant bit of the first
/// byte.
pub open spec fn bit_at(data: Seq<u8>, i: int) -> nat {
    ((data[i / 8] >> ((7 - i % 8) as u8)) & 1) as nat
}

/// The `count` bits of `data` starting at bit `start`, read as a big-endian
/// unsigned integer.
pub open spec fn bits_value(data: Seq<u8>, start: int, count: nat) -> nat
    decreases count,
{
    if count == 0 {
        0
    } else {
        2 * bits_value(data, start, (count - 1) as nat) + bit_at(data, start + count - 1)
    }
}

/// The index of the first whole byte at or after bit position `pos`.
pub open spec fn byte_index(pos: int) -> int {
    (pos + 7) / 8
}

/// Reads `count` bits, most significant first, after skipping `skip` bits of
/// `data[index..]`.
///
/// Calls `bitter::BigEndianReader::read_bits`, whose documentation promises
/// that it reads bits in big-endian order and returns `None` when fewer than
/// `count` bits remain; reading zero bits always succeeds.
#[verifier::external_body]
fn read_be_bits(data: &[u8], index: usize, skip: u32, count: u32) -> (res: Option<u64>)
    requires
        index <= data@.len(),
        skip < 8,
        skip > 0 ==> index < data@.len(),
        count <= 56,
    ensures
        8 * (data@.len() - index) >= skip + count ==> res == Some(
            bits_value(data@, 8 * index + skip, count as nat) as u64,
        ),
        8 * (data@.len() - index) < skip + count ==> res is None,
{
    let mut bits = bitter::BigEndianReader::new(&data[index..]);
    let _ = bits.read_bits(skip);
    bits.read_bits(count)
}

/// A saved position of a [`Reader`].
#[derive(Clone, Copy, Debug, PartialEq, Eq)]
pub struct RestorePoint {
    index: usize,
    bit: u32,
}

/// A cursor over the bytes of a log.
///
/// Whole bytes and multi-byte integers are read starting at the next byte
/// boundary; any partially read byte is skipped first.  Bits are read from the
/// current position, most significant bit first.
#[derive(Clone, Debug)]
pub struct Reader {
    data: Vec<u8>,
    index: usize,
    bit: u32,
}

impl RestorePoint {
    /// The point lies on a bit of some byte.
    pub closed spec fn wf(&self) -> bool {
        self.bit < 8
    }

    /// The bit position this point was saved at.
    pub closed spec fn pos(&self) -> int {
        8 * self.index + self.bit
    }
}

impl Reader {
    /// The bytes being read.
    pub closed spec fn data(&self) -> Seq<u8> {
        self.data@
    }

    /// The current bit position.
    pub closed spec fn pos(&self) -> int {
        8 * self.index + self.bit
    }

    /// The reader's own consistency: its position lies within its data.
    pub closed spec fn wf(&self) -> bool {
        &&& self.bit < 8
        &&& self.index <= self.data@.len()
        &&& self.bit > 0 ==> self.index < self.data@.len()
    }

    /// The position of a well-formed reader lies within its data.
    pub proof fn lemma_wf(&self)
        requires
            self.wf(),
        ensures
            0 <= self.pos() <= 8 * self.data().len(),
            byte_index(self.pos()) <= self.data().len(),
    {
    }

    /// Creates a reader positioned at the start of `data`.
    pub fn new(data: &[u8]) -> (r: Self)
        ensures
            r.wf(),
            r.data() == data@,
            r.pos() == 0,
    {
        let mut copy: Vec<u8> = Vec::with_capacity(data.len());
        let mut i: usize = 0;
        while i < data.len()
            invariant
                i <= data@.len(),
                copy@ == data@.subrange(0, i as int),
            decreases data@.len() - i,
        {
            copy.push(data[i]);
            i = i + 1;
            assert(copy@ == data@.subrange(0, i as int));
        }
        assert(copy@ == data@);
        Reader { data: copy, index: 0, bit: 0 }
    }

    fn aligned_index(&self) -> (k: usize)
        requires
            self.wf(),
        ensures
            k == byte_index(self.pos()),
            k <= self.data().len(),
    {
        let len = self.data.len();
        if self.bit == 0 {
            self.index
        } else {
            assert(self.index < len);
            self.index + 1
        }
    }

    /// The number of whole bytes left after the next byte boundary.
    pub fn remaining(&self) -> (n: usize)
        requires
            self.wf(),
        ensures
            n == self.data().len() - byte_index(self.pos()),
    {
        self.data.len() - self.aligned_index()
    }

    /// Returns `true` when no bits are left.
    pub fn is_empty(&self) -> (b: bool)
        requires
            self.wf(),
        ensures
            b == (self.pos() == 8 * self.data().len()),
    {
        self.index == self.data.len()
    }

    /// Returns `true` when the position is on a byte boundary.
    pub fn is_byte_aligned(&self) -> (b: bool)
        requires
            self.wf(),
        ensures
            b == (self.pos() % 8 == 0),
    {
        self.bit == 0
    }

    /// Skips the rest of a partially read byte.
    pub fn byte_align(&mut self)
        requires
            old(self).wf(),
        ensures
            final(self).wf(),
            final(self).data() == old(self).data(),
            final(self).pos() == 8 * byte_index(old(self).pos()),
    {
        if self.bit != 0 {
            let next = self.aligned_index();
            self.bit = 0;
            self.index = next;
        }
    }

    /// Saves the current position.
    pub fn get_restore_point(&self) -> (p: RestorePoint)
        requires
            self.wf(),
        ensures
            p.wf(),
            p.pos() == self.pos(),
    {
        RestorePoint { index: self.index, bit: self.bit }
    }

    /// Whether the reader stands before the saved position `point`.
    pub fn is_before(&self, point: RestorePoint) -> (b: bool)
        requires
            self.wf(),
            point.wf(),
        ensures
            b == (self.pos() < point.pos()),
    {
        self.index < point.index || (self.index == point.index && self.bit < point.bit)
    }

    /// Returns to a position saved earlier from a reader over the same data.
    pub fn restore(&mut self, point: RestorePoint)
        requires
            old(self).wf(),
            point.wf(),
            point.pos() <= 8 * old(self).data().len(),
        ensures
            final(self).wf(),
            final(self).data() == old(self).data(),
            final(self).pos() == point.pos(),
    {
        self.index = point.index;
        self.bit = point.bit;
    }

    /// The next whole byte, without consuming it.
    pub fn peek(&self) -> (b: Option<u8>)
        requires
            self.wf(),
        ensures
            byte_index(self.pos()) < self.data().len() ==> b == Some(
                self.data()[byte_index(self.pos())],
            ),
            byte_index(self.pos()) >= self.data().len() ==> b is None,
    {
        let k = self.aligned_index();
        if k < self.data.len() {
            Some(self.data[k])
        } else {
            None
        }
    }

    /// Reads the next whole byte.
    pub fn read_u8(&mut self) -> (b: Option<u8>)
        requires
            old(self).wf(),
        ensures
            final(self).wf(),
            final(self).data() == old(self).data(),
            byte_index(old(self).pos()) < old(self).data().len() ==> b == Some(
                old(self).data()[byte_index(old(self).pos())],
            ) && final(self).pos() == 8 * (byte_index(old(self).pos()) + 1),
            byte_index(old(self).pos()) >= old(self).data().len() ==> b is None && final(self).pos() == old(self).pos(),
    {
        let k = self.aligned_index();
        if k < self.data.len() {
            let b = self.data[k];
            self.bit = 0;
            self.index = k + 1;
            Some(b)
        } else {
            None
        }
    }

    /// Reads the next whole byte as a two's complement integer.
    pub fn read_i8(&mut self) -> (b: Option<i8>)
        requires
            old(self).wf(),
        ensures
            final(self).wf(),
            final(self).data() == old(self).data(),
            byte_index(old(self).pos()) < old(self).data().len() ==> b == Some(
                old(self).data()[byte_index(old(self).pos())] as i8,
            ) && final(self).pos() == 8 * (byte_index(old(self).pos()) + 1),
            byte_index(old(self).pos()) >= old(self).data().len() ==> b is None && final(self).pos() == old(self).pos(),
    {
        match self.read_u8() {
            Some(b) => Some(b as i8),
            None => None,
        }
    }

    /// Reads the next `n` whole bytes as a little-endian unsigned integer,
    /// or nothing if fewer than `n` bytes remain.
    fn read_le(&mut self, n: usize) -> (v: Option<u32>)
        requires
            old(self).wf(),
            1 <= n <= 4,
        ensures
            final(self).wf(),
            final(self).data() == old(self).data(),
            byte_index(old(self).pos()) + n <= old(self).data().len() ==> v == Some(
                le_value(old(self).data().subrange(byte_index(old(self).pos()), byte_index(old(self).pos()) + n)) as u32,
            ) && final(self).pos() == 8 * (byte_index(old(self).pos()) + n),
            byte_index(old(self).pos()) + n > old(self).data().len() ==> v is None && final(self).pos() == old(self).pos(),
    {
        let k = self.aligned_index();
        if n > self.data.len() - k {
            return None;
        }
        let ghost bytes = self.data@.subrange(k as int, k + n);
        let mut value: u32 = 0;
        let mut i: usize = n;
        while i > 0
            invariant
                0 <= i <= n <= 4,
                k + n <= self.data@.len() <= usize::MAX,
                bytes == self.data@.subrange(k as int, k + n),
                value as nat == le_value(bytes.subrange(i as int, n as int)),
                le_value(bytes.subrange(i as int, n as int)) < pow256((n - i) as nat),
            decreases i,
        {
            let ghost old_value = value;
            let byte = self.data[k + i - 1];
            proof {
                lemma_le_value_prepend(bytes.subrange(i - 1, n as int));
                assert(bytes.subrange(i - 1, n as int).drop_first() == bytes.subrange(i as int, n as int));
                assert(bytes.subrange(i - 1, n as int)[0] == byte);
                lemma_pow256_bounds((n - i) as nat);
                lemma_pow256_bounds((n - i + 1) as nat);
            }
            assert(old_value * 256 + byte < pow256((n - i + 1) as nat)) by (nonlinear_arith)
                requires
                    old_value < pow256((n - i) as nat),
                    pow256((n - i + 1) as nat) == 256 * pow256((n - i) as nat),
                    byte < 256,
            ;
            value = value * 256 + byte as u32;
            i = i - 1;
        }
        assert(bytes.subrange(0, n as int) == bytes);
        self.bit = 0;
        self.index = k + n;
        Some(value)
    }

    /// Reads the next two whole bytes as a little-endian integer.
    pub fn read_u16(&mut self) -> (v: Option<u16>)
        requires
            old(self).wf(),
        ensures
            final(self).wf(),
            final(self).data() == old(self).data(),
            byte_index(old(self).pos()) + 2 <= old(self).data().len() ==> v == Some(
                le_value(old(self).data().subrange(byte_index(old(self).pos()), byte_index(old(self).pos()) + 2)) as u16,
            ) && final(self).pos() == 8 * (byte_index(old(self).pos()) + 2),
            byte_index(old(self).pos()) + 2 > old(self).data().len() ==> v is None && final(self).pos() == old(self).pos(),
    {
        match self.read_le(2) {
            Some(v) => {
                proof {
                    lemma_pow256_bounds(2);
                    let k = byte_index(old(self).pos());
                    lemma_le_value_bound(old(self).data().subrange(k, k + 2));
                }
                Some(v as u16)
            },
            None => None,
        }
    }

    /// Reads the next two whole bytes as a little-endian two's complement
    /// integer.
    pub fn read_i16(&mut self) -> (v: Option<i16>)
        requires
            old(self).wf(),
        ensures
            final(self).wf(),
            final(self).data() == old(self).data(),
            byte_index(old(self).pos()) + 2 <= old(self).data().len() ==> v == Some(
                le_value(old(self).data().subrange(byte_index(old(self).pos()), byte_index(old(self).pos()) + 2)) as u16 as i16,
            ) && final(self).pos() == 8 * (byte_index(old(self).pos()) + 2),
            byte_index(old(self).pos()) + 2 > old(self).data().len() ==> v is None && final(self).pos() == old(self).pos(),
    {
        match self.read_u16() {
            Some(v) => Some(v as i16),
            None => None,
        }
    }

    /// Reads the next three whole bytes as a little-endian integer.
    pub fn read_u24(&mut self) -> (v: Option<u32>)
        requires
            old(self).wf(),
        ensures
            final(self).wf(),
            final(self).data() == old(self).data(),
            byte_index(old(self).pos()) + 3 <= old(self).data().len() ==> v == Some(
                le_value(old(self).data().subrange(byte_index(old(self).pos()), byte_index(old(self).pos()) + 3)) as u32,
            ) && final(self).pos() == 8 * (byte_index(old(self).pos()) + 3),
            byte_index(old(self).pos()) + 3 > old(self).data().len() ==> v is None && final(self).pos() == old(self).pos(),
    {
        self.read_le(3)
    }

    /// Reads the next four whole bytes as a little-endian integer.
    pub fn read_u32(&mut self) -> (v: Option<u32>)
        requires
            old(self).wf(),
        ensures
            final(self).wf(),
            final(self).data() == old(self).data(),
            byte_index(old(self).pos()) + 4 <= old(self).data().len() ==> v == Some(
                le_value(old(self).data().subrange(byte_index(old(self).pos()), byte_index(old(self).pos()) + 4)) as u32,
            ) && final(self).pos() == 8 * (byte_index(old(self).pos()) + 4),
            byte_index(old(self).pos()) + 4 > old(self).data().len() ==> v is None && final(self).pos() == old(self).pos(),
    {
        self.read_le(4)
    }

    /// Reads `count` bits, most significant first, from the current position.
    pub fn read_bits(&mut self, count: u32) -> (v: Option<u64>)
        requires
            old(self).wf(),
            count <= 56,
        ensures
            final(self).wf(),
            final(self).data() == old(self).data(),
            old(self).pos() + count <= 8 * old(self).data().len() ==> v == Some(
                bits_value(old(self).data(), old(self).pos(), count as nat) as u64,
            ) && final(self).pos() == old(self).pos() + count,
            old(self).pos() + count > 8 * old(self).data().len() ==> v is None && final(self).pos() == old(self).pos(),
    {
        let len = self.data.len();
        let res = read_be_bits(self.data.as_slice(), self.index, self.bit, count);
        match res {
            Some(v) => {
                let end = self.bit + count;
                assert(end / 8 <= self.data@.len() - self.index);
                let new_index = self.index + (end / 8) as usize;
                let new_bit = end % 8;
                assert(8 * new_index + new_bit == 8 * self.index + self.bit + count);
                self.bit = new_bit;
                self.index = new_index;
                Some(v)
            },
            None => None,
        }
    }

    /// Reads the bytes up to the next newline, which is consumed but not
    /// returned, or up to the end of the data.  Returns `None` only when no
    /// whole byte is left.
    pub fn read_line(&mut self) -> (line: Option<Vec<u8>>)
        requires
            old(self).wf(),
        ensures
            final(self).wf(),
            final(self).data() == old(self).data(),
            ({
                let d = old(self).data();
                let k = byte_index(old(self).pos());
                let end = line_end(d, k);
                if k < d.len() {
                    &&& line matches Some(l) && l@ == d.subrange(k, end)
                    &&& final(self).pos() == 8 * (if end < d.len() { end + 1 } else { end })
                } else {
                    line is None && final(self).pos() == old(self).pos()
                }
            }),
    {
        let k = self.aligned_index();
        let len = self.data.len();
        if k >= len {
            return None;
        }
        let mut line: Vec<u8> = Vec::new();
        let mut j = k;
        while j < len && self.data[j] != 10
            invariant
                k <= j <= len == self.data@.len(),
                line@ == self.data@.subrange(k as int, j as int),
                line_end(self.data@, k as int) == line_end(self.data@, j as int),
            decreases len - j,
        {
            line.push(self.data[j]);
            j = j + 1;
            assert(line@ == self.data@.subrange(k as int, j as int));
        }
        self.bit = 0;
        if j < len {
            self.index = j + 1;
        } else {
            self.index = j;
        }
        Some(line)
    }

    /// Advances to the next byte that is one of `targets`, without consuming
    /// it, or to the end of the data.
    pub fn skip_until_any(&mut self, targets: &[u8])
        requires
            old(self).wf(),
        ensures
            final(self).wf(),
            final(self).data() == old(self).data(),
            final(self).pos() == 8 * skip_end(
                old(self).data(),
                byte_index(old(self).pos()),
                targets@,
            ),
    {
        let k = self.aligned_index();
        let len = self.data.len();
        let mut j = k;
        while j < len && !contains_byte(targets, self.data[j])
            invariant
                k <= j <= len == self.data@.len(),
                skip_end(self.data@, k as int, targets@) == skip_end(self.data@, j as int, targets@),
            decreases len - j,
        {
            j = j + 1;
        }
        self.bit = 0;
        self.index = j;
    }

    /// The next byte that is one of `targets`, if any, without moving.
    pub fn peek_any(&self, targets: &[u8]) -> (b: Option<u8>)
        requires
            self.wf(),
        ensures
            ({
                let e = skip_end(self.data(), byte_index(self.pos()), targets@);
                if e < self.data().len() {
                    b == Some(self.data()[e])
                } else {
                    b is None
                }
            }),
    {
        let k = self.aligned_index();
        let len = self.data.len();
        let mut j = k;
        while j < len && !contains_byte(targets, self.data[j])
            invariant
                k <= j <= len == self.data@.len(),
                skip_end(self.data@, k as int, targets@) == skip_end(self.data@, j as int, targets@),
            decreases len - j,
        {
            j = j + 1;
        }
        if j < len {
            Some(self.data[j])
        } else {
            None
        }
    }

    /// Reads a single bit.
    pub fn read_bit(&mut self) -> (b: Option<bool>)
        requires
            old(self).wf(),
        ensures
            final(self).wf(),
            final(self).data() == old(self).data(),
            old(self).pos() < 8 * old(self).data().len() ==> b == Some(
                bit_at(old(self).data(), old(self).pos()) == 1,
            ) && final(self).pos() == old(self).pos() + 1,
            old(self).pos() >= 8 * old(self).data().len() ==> b is None && final(self).pos()
                == old(self).pos(),
    {
        match self.read_bits(1) {
            Some(v) => {
                proof {
                    reveal_with_fuel(bits_value, 2);
                    lemma_bit_at_bound(self.data@, old(self).pos());
                }
                Some(v == 1)
            },
            None => None,
        }
    }
}

/// The index of the first newline at or after `k`, or the length of `data` if
/// there is none.
pub open spec fn line_end(data: Seq<u8>, k: int) -> int
    decreases data.len() - k,
{
    if k >= data.len() {
        data.len() as int
    } else if data[k] == 10 {
        k
    } else {
        line_end(data, k + 1)
    }
}

/// The index of the first byte at or after `k` that is one of `targets`, or
/// the length of `data` if there is none.
pub open spec fn skip_end(data: Seq<u8>, k: int, targets: Seq<u8>) -> int
    decreases data.len() - k,
{
    if k >= data.len() {
        data.len() as int
    } else if targets.contains(data[k]) {
        k
    } else {
        skip_end(data, k + 1, targets)
    }
}

/// The byte that skipping stops at is one of the targets, and it lies at or
/// after `k`.
pub proof fn lemma_skip_end(data: Seq<u8>, k: int, targets: Seq<u8>)
    requires
        0 <= k,
    ensures
        k <= skip_end(data, k, targets) || k > data.len(),
        skip_end(data, k, targets) <= data.len(),
        skip_end(data, k, targets) < data.len() ==> targets.contains(data[skip_end(data, k, targets)]),
    decreases data.len() - k,
{
    if k < data.len() && !targets.contains(data[k]) {
        lemma_skip_end(data, k + 1, targets);
    }
}

/// Returns `true` when `b` is one of `targets`.
fn contains_byte(targets: &[u8], b: u8) -> (found: bool)
    ensures
        found == targets@.contains(b),
{
    let mut t: usize = 0;
    while t < targets.len()
        invariant
            t <= targets@.len(),
            !targets@.subrange(0, t as int).contains(b),
        decreases targets@.len() - t,
    {
        if targets[t] == b {
            assert(targets@[t as int] == b);
            return true;
        }
        proof {
            assert(targets@.subrange(0, t + 1) == targets@.subrange(0, t as int).push(targets@[t as int]));
            if targets@.subrange(0, t + 1).contains(b) {
                let w = choose|w: int| 0 <= w < t + 1 && #[trigger] targets@.subrange(0, t + 1)[w] == b;
                if w < t {
                    assert(targets@.subrange(0, t as int)[w] == b);
                    assert(targets@.subrange(0, t as int).contains(b));
                }
            }
        }
        t = t + 1;
    }
    assert(targets@.subrange(0, t as int) == targets@);
    false
}

/// The little-endian unsigned integer that `bytes` encode.
pub open spec fn le_value(bytes: Seq<u8>) -> nat
    decreases bytes.len(),
{
    if bytes.len() == 0 {
        0
    } else {
        (bytes[0] + 256 * le_value(bytes.drop_first())) as nat
    }
}

/// `256` to the power `n`.
pub open spec fn pow256(n: nat) -> nat
    decreases n,
{
    if n == 0 {
        1
    } else {
        256 * pow256((n - 1) as nat)
    }
}

/// A bit is zero or one.
pub proof fn lemma_bit_at_bound(data: Seq<u8>, i: int)
    ensures
        bit_at(data, i) <= 1,
{
    let b = data[i / 8];
    let s = (7 - i % 8) as u8;
    assert((b >> s) & 1 <= 1) by (bit_vector);
}

/// `bytes` encode a value below `256` to the power of their length.
pub proof fn lemma_le_value_bound(bytes: Seq<u8>)
    ensures
        le_value(bytes) < pow256(bytes.len()),
    decreases bytes.len(),
{
    if bytes.len() > 0 {
        lemma_le_value_bound(bytes.drop_first());
        let rest = le_value(bytes.drop_first());
        let p = pow256((bytes.len() - 1) as nat);
        assert(bytes[0] + 256 * rest < 256 * p) by (nonlinear_arith)
            requires
                rest < p,
                bytes[0] < 256,
        ;
    }
}

proof fn lemma_le_value_prepend(bytes: Seq<u8>)
    requires
        bytes.len() > 0,
    ensures
        le_value(bytes) == bytes[0] + 256 * le_value(bytes.drop_first()),
{
}

proof fn lemma_pow256_bounds(n: nat)
    ensures
        pow256(n + 1) == 256 * pow256(n),
        n == 0 ==> pow256(n) == 1,
        n == 1 ==> pow256(n) == 0x100,
        n == 2 ==> pow256(n) == 0x1_0000,
        n == 3 ==> pow256(n) == 0x100_0000,
        n == 4 ==> pow256(n) == 0x1_0000_0000,
{
    reveal_with_fuel(pow256, 5);
}

} // verus!
