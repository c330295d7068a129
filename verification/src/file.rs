//! A file of one or more logs, each starting with the product header.

use vstd::prelude::*;

use crate::headers::state::headers_parse_matches;
use crate::headers::{Headers, ParseError};

verus! {

/// The line that starts every log.
pub open spec fn marker() -> Seq<u8> {
    seq![
        0x48u8, 0x20, 0x50, 0x72, 0x6f, 0x64, 0x75, 0x63, 0x74, 0x3a, 0x42, 0x6c, 0x61, 0x63, 0x6b,
        0x62, 0x6f, 0x78, 0x20, 0x66, 0x6c, 0x69, 0x67, 0x68, 0x74, 0x20, 0x64, 0x61, 0x74, 0x61,
        0x20, 0x72, 0x65, 0x63, 0x6f, 0x72, 0x64, 0x65, 0x72, 0x20, 0x62, 0x79, 0x20, 0x4e, 0x69,
        0x63, 0x68, 0x6f, 0x6c, 0x61, 0x73, 0x20, 0x53, 0x68, 0x65, 0x72, 0x6c, 0x6f, 0x63, 0x6b,
        0x0a,
    ]
}

/// The starts of the occurrences of `needle` in `haystack` from `i` on,
/// searching left to right and resuming after each one found, so that they
/// do not overlap.
pub open spec fn occurrences(haystack: Seq<u8>, needle: Seq<u8>, i: int) -> Seq<usize>
    decreases haystack.len() - i,
{
    if i < 0 || needle.len() == 0 || i + needle.len() > haystack.len() {
        seq![]
    } else if haystack.subrange(i, i + needle.len()) == needle {
        seq![i as usize] + occurrences(haystack, needle, i + needle.len())
    } else {
        occurrences(haystack, needle, i + 1)
    }
}

/// Calls `memchr::memmem::find_iter`: the starts of the non-overlapping
/// occurrences of `needle` in `haystack`, left to right.
#[verifier::external_body]
fn find_all(haystack: &[u8], needle: &[u8]) -> (starts: Vec<usize>)
    requires
        needle@.len() > 0,
    ensures
        starts@ == occurrences(haystack@, needle@, 0),
{
    memchr::memmem::find_iter(haystack, needle).collect()
}

/// A file of zero or more logs.
pub struct File<'data> {
    offsets: Vec<usize>,
    data: &'data [u8],
}

impl<'data> File<'data> {
    /// The starts of the logs.
    pub closed spec fn offsets(&self) -> Seq<usize> {
        self.offsets@
    }

    /// The bytes of the file.
    pub closed spec fn data(&self) -> Seq<u8> {
        self.data@
    }

    /// The starts of the logs lie in the file, in increasing order.
    pub open spec fn wf(&self) -> bool {
        &&& forall|i: int| 0 <= i < self.offsets().len() ==> self.offsets()[i] <= self.data().len()
        &&& forall|i: int, j: int|
            0 <= i < j < self.offsets().len() ==> self.offsets()[i] <= self.offsets()[j]
    }

    /// Finds the logs in `data` by their first line.
    pub fn new(data: &'data [u8]) -> (file: Self)
        ensures
            file.offsets() == occurrences(data@, marker(), 0),
            file.data() == data@,
            file.wf(),
    {
        let len = data.len();
        proof {
            lemma_occurrences(data@, marker(), 0);
        }
        let start_line: [u8; 61] = [
            0x48, 0x20, 0x50, 0x72, 0x6f, 0x64, 0x75, 0x63, 0x74, 0x3a, 0x42, 0x6c, 0x61, 0x63,
            0x6b, 0x62, 0x6f, 0x78, 0x20, 0x66, 0x6c, 0x69, 0x67, 0x68, 0x74, 0x20, 0x64, 0x61,
            0x74, 0x61, 0x20, 0x72, 0x65, 0x63, 0x6f, 0x72, 0x64, 0x65, 0x72, 0x20, 0x62, 0x79,
            0x20, 0x4e, 0x69, 0x63, 0x68, 0x6f, 0x6c, 0x61, 0x73, 0x20, 0x53, 0x68, 0x65, 0x72,
            0x6c, 0x6f, 0x63, 0x6b, 0x0a,
        ];
        assert(start_line@ == marker());
        let offsets = find_all(data, start_line.as_slice());
        File { offsets, data }
    }

    /// The number of logs found.
    pub fn log_count(&self) -> (n: usize)
        ensures
            n == self.offsets().len(),
    {
        self.offsets.len()
    }

    /// The bytes of log number `index`: from its start up to the start of the
    /// next one, or to the end of the file. `None` when there is no such log.
    pub fn log_data(&self, index: usize) -> (log: Option<&'data [u8]>)
        requires
            self.wf(),
        ensures
            index < self.offsets().len() ==> (log matches Some(l) && l@ == self.data().subrange(
                self.offsets()[index as int] as int,
                if index + 1 < self.offsets().len() {
                    self.offsets()[index + 1] as int
                } else {
                    self.data().len() as int
                },
            )),
            index >= self.offsets().len() ==> log is None,
    {
        if index >= self.offsets.len() {
            return None;
        }
        let start = self.offsets[index];
        assert(self.offsets()[index as int] <= self.data().len());
        assert(index + 1 < self.offsets().len() ==> self.offsets()[index as int] <= self.offsets()[index + 1]
            && self.offsets()[index + 1] <= self.data().len());
        let end = if index + 1 < self.offsets.len() {
            self.offsets[index + 1]
        } else {
            self.data.len()
        };
        Some(vstd::slice::slice_subrange(self.data, start, end))
    }
}

impl<'data> File<'data> {
    /// Reads the headers of log number `index`, up to the start of the next
    /// log; `None` when there is no such log.
    pub fn parse(&self, index: usize) -> (res: Option<Result<(Headers<'data>, usize), ParseError>>)
        requires
            self.wf(),
        ensures
            index < self.offsets().len() ==> (res matches Some(r) && headers_parse_matches(
                self.data().subrange(
                    self.offsets()[index as int] as int,
                    if index + 1 < self.offsets().len() {
                        self.offsets()[index + 1] as int
                    } else {
                        self.data().len() as int
                    },
                ),
                r,
            )),
            index >= self.offsets().len() ==> res is None,
    {
        match self.log_data(index) {
            Some(log) => Some(Headers::parse(log)),
            None => None,
        }
    }

    /// Reads the headers of each log, in order, from its start up to the end
    /// of the file.
    pub fn iter(&self) -> (all: Vec<Result<(Headers<'data>, usize), ParseError>>)
        requires
            self.wf(),
        ensures
            all@.len() == self.offsets().len(),
            forall|i: int|
                0 <= i < all@.len() ==> headers_parse_matches(
                    self.data().skip(self.offsets()[i] as int),
                    #[trigger] all@[i],
                ),
    {
        let mut all: Vec<Result<(Headers<'data>, usize), ParseError>> = Vec::new();
        let mut i: usize = 0;
        while i < self.offsets.len()
            invariant
                self.wf(),
                i <= self.offsets@.len(),
                all@.len() == i,
                forall|j: int|
                    0 <= j < i ==> headers_parse_matches(
                        self.data().skip(self.offsets()[j] as int),
                        #[trigger] all@[j],
                    ),
            decreases self.offsets@.len() - i,
        {
            let start = self.offsets[i];
            assert(self.offsets()[i as int] <= self.data().len());
            let log = vstd::slice::slice_subrange(self.data, start, self.data.len());
            assert(log@ =~= self.data().skip(start as int));
            all.push(Headers::parse(log));
            i += 1;
        }
        all
    }
}

/// Each occurrence lies within the haystack, holds the needle, and comes
/// after the one before it ends.
pub proof fn lemma_occurrences(haystack: Seq<u8>, needle: Seq<u8>, i: int)
    requires
        0 <= i,
        haystack.len() <= usize::MAX,
    ensures
        forall|k: int|
            0 <= k < occurrences(haystack, needle, i).len() ==> {
                let s = #[trigger] occurrences(haystack, needle, i)[k] as int;
                &&& i <= s
                &&& s + needle.len() <= haystack.len()
                &&& haystack.subrange(s, s + needle.len()) == needle
            },
        forall|a: int, b: int|
            0 <= a < b < occurrences(haystack, needle, i).len() ==> occurrences(haystack, needle, i)[a]
                + needle.len() <= occurrences(haystack, needle, i)[b],
    decreases haystack.len() - i,
{
    if !(needle.len() == 0 || i + needle.len() > haystack.len()) {
        if haystack.subrange(i, i + needle.len()) == needle {
            lemma_occurrences(haystack, needle, i + needle.len());
            let rest = occurrences(haystack, needle, i + needle.len());
            let all = occurrences(haystack, needle, i);
            assert((i as usize) as int == i);
            assert(all == seq![i as usize] + rest);
            assert(all[0] == i as usize);
            assert forall|k: int| 0 <= k < all.len() implies {
                let s = #[trigger] all[k] as int;
                &&& i <= s
                &&& s + needle.len() <= haystack.len()
                &&& haystack.subrange(s, s + needle.len()) == needle
            } by {
                if k > 0 {
                    assert(all[k] == rest[k - 1]);
                }
            }
            assert forall|a: int, b: int| 0 <= a < b < all.len() implies all[a] + needle.len()
                <= all[b] by {
                assert(all[b] == rest[b - 1]);
                if a > 0 {
                    assert(all[a] == rest[a - 1]);
                }
            }
        } else {
            lemma_occurrences(haystack, needle, i + 1);
            assert(occurrences(haystack, needle, i) == occurrences(haystack, needle, i + 1));
        }
    }
}

} // verus!
