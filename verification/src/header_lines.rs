//! Splitting the header section of a log into header lines.

use vstd::prelude::*;
use vstd::utf8::valid_utf8;

use crate::reader::{byte_index, line_end, Reader};
use crate::text::{find, split_once, string_text, text, to_string, utf8_text};

verus! {

/// Why a header line could not be read.
#[derive(Debug, PartialEq)]
pub enum Error {
    /// The line is not UTF-8 text.
    Utf8Error(core::str::Utf8Error),
    /// The line has no colon between the header's name and its value.
    MissingColon,
}

/// A header line as `HeadersParser::next` reads it from the line's bytes after
/// the leading `H`: less one leading space, UTF-8 text, split at its first
/// colon. `None` stands for text that is not UTF-8.
pub open spec fn header_line(line: Seq<u8>) -> Option<Option<(Seq<u8>, Seq<u8>)>> {
    let line = if line.len() > 0 && line[0] == 0x20 {
        line.drop_first()
    } else {
        line
    };
    let colon = find(line, 0x3a);
    if !valid_utf8(line) {
        None
    } else if colon == line.len() {
        Some(None)
    } else {
        Some(Some((line.take(colon), line.skip(colon + 1))))
    }
}

/// Reads the header lines at the start of a log, one at a time.
#[derive(Debug, Clone)]
pub struct HeadersParser {
    data: Reader,
}

impl HeadersParser {
    /// The reader over the log.
    pub closed spec fn reader(&self) -> Reader {
        self.data
    }

    /// Whether the next byte starts a header line.
    pub open spec fn at_header(&self) -> bool {
        let d = self.reader().data();
        let k = byte_index(self.reader().pos());
        k < d.len() && d[k] == 0x48
    }

    /// Starts reading at the start of `data`.
    pub fn new(data: &[u8]) -> (p: Self)
        ensures
            p.reader().wf(),
            p.reader().data() == data@,
            p.reader().pos() == 0,
    {
        HeadersParser { data: Reader::new(data) }
    }

    /// Gives back the reader, positioned after the header lines read so far.
    pub fn into_reader(self) -> (r: Reader)
        ensures
            r == self.reader(),
    {
        self.data
    }

    /// Whether the data ends with the `H` that would start the next header
    /// line, which `next` cannot read.
    pub fn ends_in_lone_h(&self) -> (b: bool)
        requires
            self.reader().wf(),
        ensures
            b == (self.at_header() && byte_index(self.reader().pos()) + 1 >= self.reader().data().len()),
    {
        proof {
            self.reader().lemma_wf();
        }
        self.data.peek() == Some(0x48u8) && self.data.remaining() <= 1
    }

    /// Reads the next header line, which starts with `H`, as its name and
    /// value; `None` when the next byte does not start a header line.
    pub fn next(&mut self) -> (res: Option<Result<(String, String), Error>>)
        requires
            old(self).reader().wf(),
            old(self).at_header() ==> byte_index(old(self).reader().pos()) + 1 < old(
                self,
            ).reader().data().len(),
        ensures
            final(self).reader().wf(),
            final(self).reader().data() == old(self).reader().data(),
            !old(self).at_header() ==> res is None && final(self).reader() == old(self).reader(),
            old(self).at_header() ==> ({
                let d = old(self).reader().data();
                let start = byte_index(old(self).reader().pos()) + 1;
                let end = line_end(d, start);
                &&& final(self).reader().pos() == 8 * (if end < d.len() {
                    end + 1
                } else {
                    end
                })
                &&& match header_line(d.subrange(start, end)) {
                    None => res matches Some(Err(Error::Utf8Error(_))),
                    Some(None) => res matches Some(Err(Error::MissingColon)),
                    Some(Some((name, value))) => res matches Some(Ok((n, v))) && string_text(&n)
                        == name && string_text(&v) == value,
                }
            }),
    {
        proof {
            old(self).reader().lemma_wf();
        }
        if self.data.peek() != Some(0x48u8) {
            return None;
        }
        let ghost d = old(self).reader().data();
        let ghost start = byte_index(old(self).reader().pos()) + 1;
        let _ = self.data.read_u8();
        assert(byte_index(self.data.pos()) == start);
        let line = match self.data.read_line() {
            Some(line) => line,
            None => return None,
        };
        let ghost raw = line@;
        let rest: &[u8] = if line.len() > 0 && line[0] == 0x20 {
            proof {
                assert(line@.subrange(1, line@.len() as int) =~= line@.drop_first());
            }
            slice_from(line.as_slice(), 1)
        } else {
            line.as_slice()
        };
        let text_line = match utf8_text(rest) {
            Ok(t) => t,
            Err(err) => return Some(Err(Error::Utf8Error(err))),
        };
        proof {
            crate::text::lemma_find(text(text_line), 0x3a);
        }
        match split_once(text_line, 0x3a) {
            Some((name, value)) => Some(Ok((to_string(name), to_string(value)))),
            None => Some(Err(Error::MissingColon)),
        }
    }
}

/// The bytes of `b` from index `start` on.
fn slice_from(b: &[u8], start: usize) -> (r: &[u8])
    requires
        start <= b.len(),
    ensures
        r@ == b@.subrange(start as int, b@.len() as int),
{
    vstd::slice::slice_subrange(b, start, b.len())
}

} // verus!
