//! The values of the last frames of one kind, kept for the predictors.

use vstd::prelude::*;

verus! {

/// The values of a field in the frames before the current one.
#[derive(Debug, Clone, Copy, PartialEq, Eq, Structural)]
pub enum History<T> {
    /// No earlier frame.
    Empty,
    /// One earlier frame.
    One(T),
    /// The last frame, then the one before it.
    Two(T, T),
}

/// The history after `past` frames, given the values of the last two.
pub open spec fn history_of<T>(past: u8, last: T, last_last: T) -> History<T> {
    match past {
        0 => History::Empty,
        1 => History::One(last),
        _ => History::Two(last, last_last),
    }
}

impl<T: Copy> History<T> {
    /// The history after `past` frames, given the values of the last two.
    pub fn new(past: u8, last: T, last_last: T) -> (h: Self)
        ensures
            h == history_of(past, last, last_last),
    {
        match past {
            0 => History::Empty,
            1 => History::One(last),
            _ => History::Two(last, last_last),
        }
    }

    /// The last value, or `default` when there is none.
    pub fn last_or(&self, default: T) -> (v: T)
        ensures
            v == crate::predictor::last_or_value(*self, default),
    {
        match self {
            History::Empty => default,
            History::One(last) => *last,
            History::Two(last, _) => *last,
        }
    }
}

impl History<u32> {
    /// The history with each value read as a two's complement integer.
    pub fn as_i32(self) -> (h: History<i32>)
        ensures
            h == crate::predictor::history_signed(self),
    {
        match self {
            History::Empty => History::Empty,
            History::One(last) => History::One(last as i32),
            History::Two(last, last_last) => History::Two(last as i32, last_last as i32),
        }
    }
}

/// Whether two histories have rows of the same length, the same current
/// row, the same number of frames finished and the same values.
pub open spec fn same_history(a: FrameHistory, b: FrameHistory) -> bool {
    &&& a.spec_len() == b.spec_len()
    &&& a.spec_current() == b.spec_current()
    &&& a.spec_past() == b.spec_past()
    &&& forall|r: int| 0 <= r < 3 ==> #[trigger] a.row(r) == b.row(r)
}

/// Whether `after` is `before` once a frame of the values `values` was
/// finished: they fill the row that was current, and the next row becomes
/// current.
pub open spec fn advanced(before: FrameHistory, after: FrameHistory, values: Seq<u32>) -> bool {
    &&& after.wf()
    &&& after.spec_len() == before.spec_len()
    &&& after.spec_current() == (before.spec_current() + 1) % 3
    &&& after.spec_past() == (if before.spec_past() == 255 {
        255
    } else {
        before.spec_past() + 1
    })
    &&& after.row(before.spec_current() as int) == values
    &&& forall|r: int|
        0 <= r < 3 && r != before.spec_current() ==> #[trigger] after.row(r) == before.row(r)
}

/// Three rows of field values: the frame being decoded and two before it,
/// used in turn.
#[derive(Debug, Clone)]
pub struct FrameHistory {
    data: Vec<u32>,
    current: u8,
    past: u8,
}

impl FrameHistory {
    /// The number of fields in a row.
    pub closed spec fn spec_len(&self) -> nat {
        self.data@.len() / 3
    }

    /// The row that the current frame is decoded into.
    pub closed spec fn spec_current(&self) -> nat {
        self.current as nat
    }

    /// The number of frames finished so far, at most 255.
    pub closed spec fn spec_past(&self) -> u8 {
        self.past
    }

    /// The values in row `r`.
    pub closed spec fn row(&self, r: int) -> Seq<u32> {
        self.data@.subrange(r * self.spec_len(), (r + 1) * self.spec_len())
    }

    /// The rows are whole and the current one exists.
    pub closed spec fn wf(&self) -> bool {
        &&& self.data@.len() % 3 == 0
        &&& self.current < 3
    }

    /// The history of field `i` of the current frame: the values of the
    /// rows after the current one, in turn.
    pub open spec fn spec_history(&self, i: int) -> History<u32> {
        history_of(
            self.spec_past(),
            self.row(((self.spec_current() + 1) % 3) as int)[i],
            self.row(((self.spec_current() + 2) % 3) as int)[i],
        )
    }

    /// A history of rows of `len` fields, all zero, with no frame finished.
    pub fn new(len: usize) -> (h: Self)
        requires
            len * 3 <= usize::MAX,
        ensures
            h.wf(),
            h.spec_len() == len,
            h.spec_current() == 0,
            h.spec_past() == 0,
            forall|r: int, i: int| 0 <= r < 3 && 0 <= i < len ==> h.row(r)[i] == 0,
    {
        let h = FrameHistory { data: vec![0; len * 3], current: 0, past: 0 };
        assert forall|r: int, i: int| 0 <= r < 3 && 0 <= i < len implies h.row(r)[i] == 0 by {
            h.lemma_row_bounds(r);
            assert(h.row(r)[i] == h.data@[r * len + i]);
        }
        h
    }

    /// A copy of the history.
    pub fn duplicate(&self) -> (h: Self)
        requires
            self.wf(),
        ensures
            h.wf(),
            same_history(h, *self),
    {
        FrameHistory { data: self.data.clone(), current: self.current, past: self.past }
    }

    /// The number of fields in a row.
    pub fn len(&self) -> (n: usize)
        requires
            self.wf(),
        ensures
            n == self.spec_len(),
    {
        self.data.len() / 3
    }

    /// The indices in the underlying storage of fields `start` up to `end`
    /// of the current row.
    pub fn map_range(&self, start: usize, end: usize) -> (range: (usize, usize))
        requires
            self.wf(),
            start <= end <= self.spec_len(),
        ensures
            range.0 == self.spec_current() * self.spec_len() + start,
            range.1 == self.spec_current() * self.spec_len() + end,
    {
        let len = self.len();
        proof {
            self.lemma_row_bounds(self.current as int);
        }
        let total = self.data.len();
        let c = self.current as usize;
        assert(c * len <= self.data@.len()) by (nonlinear_arith)
            requires
                c == self.spec_current(),
                len == self.spec_len(),
                (c + 1) * len <= self.data@.len(),
                (c + 1) * len == c * len + len,
        ;
        let offset = c * len;
        assert(offset + len <= self.data@.len());
        (offset + start, offset + end)
    }

    /// Each row holds one value per field.
    pub proof fn lemma_row_len(&self, r: int)
        requires
            self.wf(),
            0 <= r < 3,
        ensures
            self.row(r).len() == self.spec_len(),
    {
        self.lemma_row_bounds(r);
    }

    /// The current row is one of the three.
    pub proof fn lemma_current(&self)
        requires
            self.wf(),
        ensures
            self.spec_current() < 3,
    {
    }

    /// Row `r` lies within the storage.
    proof fn lemma_row_bounds(&self, r: int)
        requires
            self.wf(),
            0 <= r < 3,
        ensures
            0 <= r * self.spec_len(),
            (r + 1) * self.spec_len() <= self.data@.len(),
            (r + 1) * self.spec_len() == r * self.spec_len() + self.spec_len(),
    {
        let len = self.spec_len();
        assert(self.data@.len() == 3 * len);
        assert((r + 1) * len <= 3 * len) by (nonlinear_arith)
            requires
                0 <= r < 3,
        ;
        assert((r + 1) * len == r * len + len) by (nonlinear_arith);
        assert(0 <= r * len) by (nonlinear_arith)
            requires
                0 <= r,
        ;
    }

    /// Field `i` of the current frame.
    pub fn get(&self, i: usize) -> (v: u32)
        requires
            self.wf(),
            i < self.spec_len(),
        ensures
            v == self.row(self.spec_current() as int)[i as int],
    {
        let (start, _) = self.map_range(i, i);
        proof {
            self.lemma_row_bounds(self.current as int);
        }
        self.data[start]
    }

    /// Sets field `i` of the current frame to `value`.
    pub fn set(&mut self, i: usize, value: u32)
        requires
            old(self).wf(),
            i < old(self).spec_len(),
        ensures
            final(self).wf(),
            final(self).spec_len() == old(self).spec_len(),
            final(self).spec_current() == old(self).spec_current(),
            final(self).spec_past() == old(self).spec_past(),
            final(self).row(old(self).spec_current() as int) == old(self).row(
                old(self).spec_current() as int,
            ).update(i as int, value),
            forall|r: int| 0 <= r < 3 && r != old(self).spec_current() ==> final(self).row(r) == old(self).row(r),
    {
        let (start, _) = self.map_range(i, i);
        proof {
            self.lemma_row_bounds(self.current as int);
        }
        let ghost before = *self;
        self.data.set(start, value);
        proof {
            let len = before.spec_len();
            let c = before.current as int;
            assert(self.row(c) =~= before.row(c).update(i as int, value));
            assert forall|r: int| 0 <= r < 3 && r != c implies self.row(r) == before.row(r) by {
                before.lemma_row_bounds(r);
                if r < c {
                    assert((r + 1) * len <= c * len) by (nonlinear_arith)
                        requires
                            r + 1 <= c,
                            0 <= len,
                    ;
                } else {
                    assert((c + 1) * len <= r * len) by (nonlinear_arith)
                        requires
                            c + 1 <= r,
                            0 <= len,
                    ;
                }
                assert(self.row(r) =~= before.row(r));
            }
        }
    }

    /// The values of field `i` in the frames before the current one.
    pub fn history(&self, i: usize) -> (h: History<u32>)
        requires
            self.wf(),
            i < self.spec_len(),
        ensures
            h == self.spec_history(i as int),
    {
        let len = self.len();
        let total = self.data.len();
        let last_row = ((self.current + 1) % 3) as usize;
        let last_last_row = ((self.current + 2) % 3) as usize;
        proof {
            self.lemma_row_bounds(last_row as int);
            self.lemma_row_bounds(last_last_row as int);
        }
        assert(last_row * len + len <= self.data@.len()) by (nonlinear_arith)
            requires
                (last_row + 1) * len <= self.data@.len(),
                (last_row + 1) * len == last_row * len + len,
        ;
        assert(last_last_row * len + len <= self.data@.len()) by (nonlinear_arith)
            requires
                (last_last_row + 1) * len <= self.data@.len(),
                (last_last_row + 1) * len == last_last_row * len + len,
        ;
        let last_start = last_row * len;
        let last_last_start = last_last_row * len;
        assert(last_start + len <= self.data@.len());
        assert(last_last_start + len <= self.data@.len());
        assert(self.row(last_row as int)[i as int] == self.data@[last_start + i]);
        assert(self.row(last_last_row as int)[i as int] == self.data@[last_last_start + i]);
        let last = self.data[last_start + i];
        let last_last = self.data[last_last_start + i];
        History::new(self.past, last, last_last)
    }

    /// Ends the current frame: gives back its values and moves on to the
    /// next row.
    pub fn finish(&mut self) -> (values: Vec<u32>)
        requires
            old(self).wf(),
        ensures
            final(self).wf(),
            values@ == old(self).row(old(self).spec_current() as int),
            final(self).spec_len() == old(self).spec_len(),
            final(self).spec_current() == (old(self).spec_current() + 1) % 3,
            final(self).spec_past() == (if old(self).spec_past() == 255 {
                255
            } else {
                old(self).spec_past() + 1
            }),
            forall|r: int| 0 <= r < 3 ==> final(self).row(r) == old(self).row(r),
    {
        let len = self.len();
        let (start, end) = self.map_range(0, len);
        proof {
            self.lemma_row_bounds(self.current as int);
        }
        let mut values: Vec<u32> = Vec::with_capacity(len);
        let mut j = start;
        while j < end
            invariant
                start <= j <= end <= self.data@.len(),
                values@ == self.data@.subrange(start as int, j as int),
            decreases end - j,
        {
            values.push(self.data[j]);
            j += 1;
        }
        self.current = (self.current + 1) % 3;
        self.past = self.past.saturating_add(1);
        values
    }
}

/// A finished frame is the earliest of the two rows that the next frame's
/// history reads: the row after the current one holds the frame finished
/// two frames back.
pub proof fn lemma_finish_history(before: FrameHistory, after: FrameHistory, i: int)
    requires
        before.wf(),
        after.wf(),
        after.spec_len() == before.spec_len(),
        after.spec_current() == (before.spec_current() + 1) % 3,
        after.spec_past() >= 2,
        forall|r: int| 0 <= r < 3 ==> after.row(r) == before.row(r),
        0 <= i < before.spec_len(),
    ensures
        after.spec_history(i) == History::Two(
            before.row(((before.spec_current() + 2) % 3) as int)[i],
            before.row(before.spec_current() as int)[i],
        ),
{
}

} // verus!
