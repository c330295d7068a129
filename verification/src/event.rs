//! Events in the data section of a log.

use vstd::prelude::*;

use crate::decode::{pow128, variable_from};
use crate::decode::{variable, variable_spec, ParseError};
use crate::reader::{byte_index, Reader};

verus! {

/// An event written among the frames of a log.
#[derive(Debug, Clone, Copy, PartialEq, Eq, Structural)]
pub enum Event {
    /// A beep to synchronize the log with a video, at the given time.
    SyncBeep(u64),
    /// The craft disarmed, for the given reason.
    Disarm(u32),
    /// The end of the log.
    End,
}

/// The kinds of events, by the byte that starts them.
#[derive(Debug, Clone, Copy, PartialEq, Eq, Structural)]
pub enum EventKind {
    SyncBeep,
    AutotuneCycleStart,
    AutotuneCycleResult,
    AutotuneTargets,
    InflightAdjustment,
    Resume,
    Disarm,
    GTuneCycleResult,
    FlightMode,
    End,
}

/// The kind of event that the byte `b` starts.
pub open spec fn event_kind_of(b: u8) -> Option<EventKind> {
    match b {
        0 => Some(EventKind::SyncBeep),
        10 => Some(EventKind::AutotuneCycleStart),
        11 => Some(EventKind::AutotuneCycleResult),
        12 => Some(EventKind::AutotuneTargets),
        13 => Some(EventKind::InflightAdjustment),
        14 => Some(EventKind::Resume),
        15 => Some(EventKind::Disarm),
        20 => Some(EventKind::GTuneCycleResult),
        30 => Some(EventKind::FlightMode),
        255 => Some(EventKind::End),
        _ => None,
    }
}

impl EventKind {
    /// The kind of event that the byte `b` starts.
    pub fn from_u8(b: u8) -> (kind: Option<Self>)
        ensures
            kind == event_kind_of(b),
    {
        match b {
            0 => Some(EventKind::SyncBeep),
            10 => Some(EventKind::AutotuneCycleStart),
            11 => Some(EventKind::AutotuneCycleResult),
            12 => Some(EventKind::AutotuneTargets),
            13 => Some(EventKind::InflightAdjustment),
            14 => Some(EventKind::Resume),
            15 => Some(EventKind::Disarm),
            20 => Some(EventKind::GTuneCycleResult),
            30 => Some(EventKind::FlightMode),
            255 => Some(EventKind::End),
            _ => None,
        }
    }
}

/// The bytes that follow the end event: `End of log` and a zero byte.
pub open spec fn end_message() -> Seq<u8> {
    seq![0x45u8, 0x6e, 0x64, 0x20, 0x6f, 0x66, 0x20, 0x6c, 0x6f, 0x67, 0x00]
}

/// The event that starts at byte `k` of `d`, and the byte after it; events
/// of other kinds than sync beeps, disarms and the end are not read.
pub open spec fn event_at(d: Seq<u8>, k: int) -> Result<(Event, int), ParseError> {
    if k >= d.len() {
        Err(ParseError::UnexpectedEof)
    } else if d[k] == 0 {
        match variable_spec(d, k + 1) {
            (Ok(time), end) => Ok((Event::SyncBeep(time as u64), end)),
            (Err(e), _) => Err(e),
        }
    } else if d[k] == 15 {
        match variable_spec(d, k + 1) {
            (Ok(reason), end) => Ok((Event::Disarm(reason), end)),
            (Err(e), _) => Err(e),
        }
    } else if k + 12 <= d.len() && d.subrange(k + 1, k + 12) == end_message() {
        Ok((Event::End, k + 12))
    } else {
        Err(ParseError::Corrupted)
    }
}

/// A variable-length integer that reads ends after its first byte.
proof fn lemma_variable_end(data: Seq<u8>, k: int, i: nat, acc: nat)
    ensures
        variable_from(data, k, i, acc).0 is Ok ==> variable_from(data, k, i, acc).1 >= k + i + 1,
    decreases 5 - i,
{
    if i < 5 && k + i < data.len() && data[k + i] >= 128 && i != 4 {
        lemma_variable_end(data, k, i + 1, (acc + (data[k + i] % 128) * pow128(i)) as nat);
    }
}

/// An event that reads ends after its kind byte.
pub proof fn lemma_event_end(d: Seq<u8>, k: int)
    ensures
        event_at(d, k) matches Ok((_, end)) ==> end >= k + 1,
{
    lemma_variable_end(d, k + 1, 0, 0);
}

impl Event {
    /// Reads an event: its kind, then what that kind holds.
    pub fn parse(data: &mut Reader) -> (res: Result<Self, ParseError>)
        requires
            old(data).wf(),
            byte_index(old(data).pos()) < old(data).data().len() ==> {
                let b = old(data).data()[byte_index(old(data).pos())];
                b == 0 || b == 15 || b == 255
            },
        ensures
            final(data).wf(),
            final(data).data() == old(data).data(),
            match event_at(old(data).data(), byte_index(old(data).pos())) {
                Ok((event, end)) => res == Ok::<Self, ParseError>(event) && final(data).pos() == 8
                    * end,
                Err(e) => res == Err::<Self, ParseError>(e),
            },
    {
        proof {
            old(data).lemma_wf();
        }
        let ghost d = old(data).data();
        let ghost k = byte_index(old(data).pos());
        let kind = match data.read_u8() {
            Some(b) => b,
            None => return Err(ParseError::UnexpectedEof),
        };
        assert(byte_index(data.pos()) == k + 1);
        match EventKind::from_u8(kind) {
            Some(EventKind::SyncBeep) => match variable(data) {
                Ok(time) => Ok(Event::SyncBeep(time as u64)),
                Err(e) => Err(e),
            },
            Some(EventKind::Disarm) => match variable(data) {
                Ok(reason) => Ok(Event::Disarm(reason)),
                Err(e) => Err(e),
            },
            _ => {
                let message: [u8; 11] = [0x45, 0x6e, 0x64, 0x20, 0x6f, 0x66, 0x20, 0x6c, 0x6f, 0x67, 0x00];
                assert(message@ == end_message());
                let mut i: usize = 0;
                while i < 11
                    invariant
                        i <= 11,
                        d == old(data).data(),
                        k == byte_index(old(data).pos()),
                        0 <= k < d.len(),
                        d[k] == kind,
                        kind != 0 && kind != 15,
                        message@ == end_message(),
                        data.wf(),
                        data.data() == d,
                        data.pos() == 8 * (k + 1 + i),
                        k + 1 + i <= d.len(),
                        d.subrange(k + 1, k + 1 + i) == end_message().take(i as int),
                    decreases 11 - i,
                {
                    let ghost pos = data.pos();
                    assert(byte_index(pos) == k + 1 + i);
                    match data.read_u8() {
                        Some(b) => {
                            assert(b == d[k + 1 + i]);
                            if b != message[i] {
                                assert(!(k + 12 <= d.len() && d.subrange(k + 1, k + 12)
                                    == end_message())) by {
                                    if k + 12 <= d.len() {
                                        assert(d.subrange(k + 1, k + 12)[i as int] == b);
                                    }
                                }
                                return Err(ParseError::Corrupted);
                            }
                            assert(d.subrange(k + 1, k + 2 + i) =~= end_message().take(i + 1)) by {
                                assert(d.subrange(k + 1, k + 2 + i) =~= d.subrange(k + 1, k + 1 + i).push(b));
                                assert(end_message().take(i + 1) =~= end_message().take(i as int).push(message@[i as int]));
                            }
                        },
                        None => {
                            return Err(ParseError::Corrupted);
                        },
                    }
                    i += 1;
                }
                assert(end_message().take(11) =~= end_message());
                Ok(Event::End)
            },
        }
    }
}

} // verus!
