//! Predictors: what a field's raw value is added to, derived from earlier
//! frames and header values.

use vstd::prelude::*;

use crate::data::History;
use crate::headers::{motor_output_range_of, Headers, MotorOutputRange};
use crate::text::{decimal, parse_decimal, str_eq, text};

verus! {

/// How the value of a field is predicted; the log holds the difference.
#[derive(Debug, Clone, Copy, PartialEq, Eq, Hash, Structural)]
pub enum Predictor {
    Zero,
    Previous,
    StraightLine,
    Average2,
    MinThrottle,
    Motor0,
    Increment,
    HomeLat,
    FifteenHundred,
    VBatReference,
    LastMainFrameTime,
    MinMotor,
    HomeLon,
}

/// The predictor that the number `b` stands for in a frame definition header.
pub open spec fn predictor_of_num(b: Seq<u8>) -> Option<Predictor> {
    if b == text("0") {
        Some(Predictor::Zero)
    } else if b == text("1") {
        Some(Predictor::Previous)
    } else if b == text("2") {
        Some(Predictor::StraightLine)
    } else if b == text("3") {
        Some(Predictor::Average2)
    } else if b == text("4") {
        Some(Predictor::MinThrottle)
    } else if b == text("5") {
        Some(Predictor::Motor0)
    } else if b == text("6") {
        Some(Predictor::Increment)
    } else if b == text("7") {
        Some(Predictor::HomeLat)
    } else if b == text("8") {
        Some(Predictor::FifteenHundred)
    } else if b == text("9") {
        Some(Predictor::VBatReference)
    } else if b == text("10") {
        Some(Predictor::LastMainFrameTime)
    } else if b == text("11") {
        Some(Predictor::MinMotor)
    } else {
        None
    }
}

/// The low 32 bits of `x`, as an unsigned number.
pub open spec fn wrap32(x: int) -> u32 {
    (x % 0x1_0000_0000) as u32
}

/// Extrapolates the next value from the last two, as `2 * last - last_last`,
/// falling back on the last value when that leaves the range of `u32`.
pub open spec fn straight_line_value(history: History<u32>) -> u32 {
    match history {
        History::Empty => 0,
        History::One(last) => last,
        History::Two(last, last_last) => {
            let r = 2 * last - last_last;
            if 0 <= r <= u32::MAX {
                r as u32
            } else {
                last
            }
        },
    }
}

/// Extrapolates the next value from the last two, as `2 * last - last_last`,
/// falling back on the last value when that leaves the range of `i32`.
pub open spec fn straight_line_signed_value(history: History<i32>) -> i32 {
    match history {
        History::Empty => 0,
        History::One(last) => last,
        History::Two(last, last_last) => {
            let r = 2 * last - last_last;
            if i32::MIN <= r <= i32::MAX {
                r as i32
            } else {
                last
            }
        },
    }
}

/// `x / 2`, rounded toward zero.
pub open spec fn half_toward_zero(x: int) -> int {
    if x >= 0 {
        x / 2
    } else {
        -((-x) / 2)
    }
}

/// The mean of the last two values, rounded toward zero.
pub open spec fn average_value(history: History<u32>) -> u32 {
    match history {
        History::Empty => 0,
        History::One(last) => last,
        History::Two(last, last_last) => ((last + last_last) / 2) as u32,
    }
}

/// The mean of the last two values, rounded toward zero.
pub open spec fn average_signed_value(history: History<i32>) -> i32 {
    match history {
        History::Empty => 0,
        History::One(last) => last,
        History::Two(last, last_last) => half_toward_zero(last + last_last) as i32,
    }
}

/// The history with each value read as a two's complement integer.
pub open spec fn history_signed(history: History<u32>) -> History<i32> {
    match history {
        History::Empty => History::Empty,
        History::One(last) => History::One(last as i32),
        History::Two(last, last_last) => History::Two(last as i32, last_last as i32),
    }
}

/// The last value, or `default` when there is none.
pub open spec fn last_or_value<T>(history: History<T>, default: T) -> T {
    match history {
        History::Empty => default,
        History::One(last) => last,
        History::Two(last, _) => last,
    }
}

/// Extrapolates the next unsigned value from the last two.
pub fn straight_line(history: History<u32>) -> (v: u32)
    ensures
        v == straight_line_value(history),
{
    match history {
        History::Two(last, last_last) => {
            let sum = last as u64 + last as u64;
            if last_last as u64 > sum {
                return last;
            }
            let r = sum - last_last as u64;
            if r > u32::MAX as u64 {
                last
            } else {
                r as u32
            }
        },
        History::One(last) => last,
        History::Empty => 0,
    }
}

/// Extrapolates the next signed value from the last two.
pub fn straight_line_signed(history: History<i32>) -> (v: i32)
    ensures
        v == straight_line_signed_value(history),
{
    match history {
        History::Two(last, last_last) => {
            let r = last as i64 + last as i64 - last_last as i64;
            if r < i32::MIN as i64 || r > i32::MAX as i64 {
                last
            } else {
                r as i32
            }
        },
        History::One(last) => last,
        History::Empty => 0,
    }
}

/// The mean of the last two unsigned values.
pub fn average(history: History<u32>) -> (v: u32)
    ensures
        v == average_value(history),
{
    match history {
        History::Empty => 0,
        History::One(last) => last,
        History::Two(last, last_last) => ((last as u64 + last_last as u64) / 2) as u32,
    }
}

/// The mean of the last two signed values.
pub fn average_signed(history: History<i32>) -> (v: i32)
    ensures
        v == average_signed_value(history),
{
    match history {
        History::Empty => 0,
        History::One(last) => last,
        History::Two(last, last_last) => {
            let sum = last as i64 + last_last as i64;
            if sum >= 0 {
                (sum / 2) as i32
            } else {
                (-((-sum) / 2)) as i32
            }
        },
    }
}

/// A position on the globe, in the units of the log.
#[derive(Debug, Clone, Copy, PartialEq, Eq, Structural)]
pub struct GpsPosition {
    pub latitude: i32,
    pub longitude: i32,
}

/// What a predictor reads besides the value of its field when frames are
/// parsed one field at a time: the headers, the field's values in the last
/// two frames, how many frames were skipped before this one, and the GPS home
/// position once a GPS home frame was read.
pub struct PredictorContext<'a, 'data> {
    pub headers: &'a Headers<'data>,
    pub last: Option<u32>,
    pub last_last: Option<u32>,
    pub skipped_frames: u32,
    pub gps_home: Option<GpsPosition>,
}

impl<'a, 'data> PredictorContext<'a, 'data> {
    /// A context with no earlier values, nothing skipped and no home.
    pub fn new(headers: &'a Headers<'data>) -> (c: Self)
        ensures
            c.headers == headers,
            c.last is None,
            c.last_last is None,
            c.skipped_frames == 0,
            c.gps_home is None,
    {
        PredictorContext { headers, last: None, last_last: None, skipped_frames: 0, gps_home: None }
    }

    /// A context with no earlier values and `skipped_frames` frames skipped.
    pub fn with_skipped(headers: &'a Headers<'data>, skipped_frames: u32) -> (c: Self)
        ensures
            c.headers == headers,
            c.last is None,
            c.last_last is None,
            c.skipped_frames == skipped_frames,
            c.gps_home is None,
    {
        PredictorContext { headers, last: None, last_last: None, skipped_frames, gps_home: None }
    }

    /// A context with no earlier values whose GPS home is `gps_home`.
    pub fn with_home(headers: &'a Headers<'data>, gps_home: Option<GpsPosition>) -> (c: Self)
        ensures
            c.headers == headers,
            c.last is None,
            c.last_last is None,
            c.skipped_frames == 0,
            c.gps_home == gps_home,
    {
        PredictorContext { headers, last: None, last_last: None, skipped_frames: 0, gps_home }
    }

    /// Sets the field's value in the last frame.
    pub fn set_last(&mut self, last: Option<u32>)
        ensures
            *final(self) == (PredictorContext { last, ..*old(self) }),
    {
        self.last = last;
    }

    /// Sets the field's values in the last two frames.
    pub fn set_last_2(&mut self, last: Option<u32>, last_last: Option<u32>)
        ensures
            *final(self) == (PredictorContext { last, last_last, ..*old(self) }),
    {
        self.last = last;
        self.last_last = last_last;
    }
}

/// The header values and frame values that predictors need.
#[derive(Debug, Clone, Copy, PartialEq, Eq, Structural)]
pub struct PredictorContextV2 {
    pub gps_home: GpsPosition,
    pub min_motor: u32,
    pub min_throttle: u32,
    pub motor_0: u32,
    pub vbat_reference: u32,
}

/// The context after reading the header `header` with value `value`, or
/// `None` when the value of a header it reads is invalid.
pub open spec fn context_update(
    ctx: PredictorContextV2,
    header: Seq<u8>,
    value: Seq<u8>,
) -> Option<PredictorContextV2> {
    if header == text("minthrottle") {
        match decimal(value, 0xffff) {
            Ok(v) => Some(PredictorContextV2 { min_throttle: v as u32, ..ctx }),
            Err(_) => None,
        }
    } else if header == text("vbatref") {
        match decimal(value, 0xffff) {
            Ok(v) => Some(PredictorContextV2 { vbat_reference: v as u32, ..ctx }),
            Err(_) => None,
        }
    } else if header == text("motorOutput") {
        match motor_output_range_of(value) {
            Some(range) => Some(PredictorContextV2 { min_motor: range.min as u32, ..ctx }),
            None => None,
        }
    } else {
        Some(ctx)
    }
}

impl PredictorContextV2 {
    /// A context before any header was read: all values zero.
    pub open spec fn new_spec() -> Self {
        PredictorContextV2 {
            gps_home: GpsPosition { latitude: 0, longitude: 0 },
            min_motor: 0,
            min_throttle: 0,
            motor_0: 0,
            vbat_reference: 0,
        }
    }

    /// A context before any header was read: all values zero.
    pub fn new() -> (ctx: Self)
        ensures
            ctx == Self::new_spec(),
    {
        PredictorContextV2 {
            gps_home: GpsPosition { latitude: 0, longitude: 0 },
            min_motor: 0,
            min_throttle: 0,
            motor_0: 0,
            vbat_reference: 0,
        }
    }

    /// Takes in a header line: `minthrottle`, `vbatref` and `motorOutput` set
    /// the values that predictors use; other headers are passed over.
    pub fn update(&mut self, header: &str, value: &str) -> (res: Result<(), ()>)
        ensures
            match context_update(*old(self), text(header), text(value)) {
                Some(ctx) => res is Ok && *final(self) == ctx,
                None => res is Err && *final(self) == *old(self),
            },
    {
        if str_eq(header, "minthrottle") {
            match parse_decimal(value.as_bytes(), 0xffff) {
                Ok(v) => {
                    self.min_throttle = v;
                    Ok(())
                },
                Err(_) => Err(()),
            }
        } else if str_eq(header, "vbatref") {
            match parse_decimal(value.as_bytes(), 0xffff) {
                Ok(v) => {
                    self.vbat_reference = v;
                    Ok(())
                },
                Err(_) => Err(()),
            }
        } else if str_eq(header, "motorOutput") {
            match MotorOutputRange::from_str(value) {
                Some(range) => {
                    self.min_motor = range.min as u32;
                    Ok(())
                },
                None => Err(()),
            }
        } else {
            Ok(())
        }
    }

    /// Records the value of `motor[0]` in the current frame.
    pub fn set_motor_0(&mut self, value: u32)
        ensures
            *final(self) == (PredictorContextV2 { motor_0: value, ..*old(self) }),
    {
        self.motor_0 = value;
    }

    /// Records the latitude of the home position.
    pub fn set_gps_home_lat(&mut self, value: u32)
        ensures
            *final(self) == (PredictorContextV2 {
                gps_home: GpsPosition { latitude: value as i32, ..old(self).gps_home },
                ..*old(self)
            }),
    {
        self.gps_home.latitude = value as i32;
    }

    /// Records the longitude of the home position.
    pub fn set_gps_home_lon(&mut self, value: u32)
        ensures
            *final(self) == (PredictorContextV2 {
                gps_home: GpsPosition { longitude: value as i32, ..old(self).gps_home },
                ..*old(self)
            }),
    {
        self.gps_home.longitude = value as i32;
    }
}

/// What `p` adds to a field's raw value.
pub open spec fn prediction(
    p: Predictor,
    signed: bool,
    skipped: u32,
    ctx: PredictorContextV2,
    history: History<u32>,
) -> u32 {
    match p {
        Predictor::Zero => 0,
        Predictor::Previous => last_or_value(history, 0),
        Predictor::StraightLine => if signed {
            straight_line_signed_value(history_signed(history)) as u32
        } else {
            straight_line_value(history)
        },
        Predictor::Average2 => if signed {
            average_signed_value(history_signed(history)) as u32
        } else {
            average_value(history)
        },
        Predictor::MinThrottle => ctx.min_throttle,
        Predictor::Motor0 => ctx.motor_0,
        Predictor::Increment => wrap32(skipped + 1 + last_or_value(history, 0)),
        Predictor::HomeLat => ctx.gps_home.latitude as u32,
        Predictor::HomeLon => ctx.gps_home.longitude as u32,
        Predictor::FifteenHundred => 1500,
        Predictor::VBatReference => ctx.vbat_reference,
        Predictor::LastMainFrameTime => 0,
        Predictor::MinMotor => ctx.min_motor,
    }
}

impl Predictor {
    /// Reads the predictor number of a frame definition header.
    pub fn from_num_str(s: &str) -> (p: Option<Self>)
        ensures
            p == predictor_of_num(text(s)),
    {
        if str_eq(s, "0") {
            Some(Predictor::Zero)
        } else if str_eq(s, "1") {
            Some(Predictor::Previous)
        } else if str_eq(s, "2") {
            Some(Predictor::StraightLine)
        } else if str_eq(s, "3") {
            Some(Predictor::Average2)
        } else if str_eq(s, "4") {
            Some(Predictor::MinThrottle)
        } else if str_eq(s, "5") {
            Some(Predictor::Motor0)
        } else if str_eq(s, "6") {
            Some(Predictor::Increment)
        } else if str_eq(s, "7") {
            Some(Predictor::HomeLat)
        } else if str_eq(s, "8") {
            Some(Predictor::FifteenHundred)
        } else if str_eq(s, "9") {
            Some(Predictor::VBatReference)
        } else if str_eq(s, "10") {
            Some(Predictor::LastMainFrameTime)
        } else if str_eq(s, "11") {
            Some(Predictor::MinMotor)
        } else {
            None
        }
    }

    /// Adds the prediction to the raw value `value` of a field, wrapping
    /// around at 32 bits.
    pub fn apply_v2(
        self,
        value: u32,
        signed: bool,
        skipped: u32,
        ctx: &PredictorContextV2,
        history: History<u32>,
    ) -> (v: u32)
        requires
            self is Increment && !signed ==> skipped <= i32::MAX,
        ensures
            v == wrap32(value + prediction(self, signed, skipped, *ctx, history)),
    {
        let diff: u32 = match self {
            Predictor::Zero => 0,
            Predictor::Previous => history.last_or(0),
            Predictor::StraightLine => {
                if signed {
                    straight_line_signed(history.as_i32()) as u32
                } else {
                    straight_line(history)
                }
            },
            Predictor::Average2 => {
                if signed {
                    average_signed(history.as_i32()) as u32
                } else {
                    average(history)
                }
            },
            Predictor::MinThrottle => ctx.min_throttle,
            Predictor::Motor0 => ctx.motor_0,
            Predictor::Increment => {
                let last = history.last_or(0);
                let r = skipped.wrapping_add(1).wrapping_add(last);
                assert(r == wrap32(skipped + 1 + last));
                r
            },
            Predictor::HomeLat => ctx.gps_home.latitude as u32,
            Predictor::HomeLon => ctx.gps_home.longitude as u32,
            Predictor::FifteenHundred => 1500,
            Predictor::VBatReference => ctx.vbat_reference,
            Predictor::LastMainFrameTime => 0,
            Predictor::MinMotor => ctx.min_motor,
        };
        let r = value.wrapping_add(diff);
        assert(r == wrap32(value + diff));
        r
    }
}

/// The predictors that read a header add that header's value and nothing
/// else: once `vbatref` was read as `n`, the battery reference predictor
/// turns a raw value into the raw value plus `n`, modulo 2^32, whatever the
/// other headers said; likewise `minthrottle` for the minimum throttle
/// predictor and the low end of `motorOutput` for the minimum motor
/// predictor.
pub proof fn lemma_header_predictors(
    ctx: PredictorContextV2,
    v: Seq<u8>,
    value: u32,
    signed: bool,
    skipped: u32,
    history: History<u32>,
)
    ensures
        decimal(v, 0xffff) matches Ok(n) ==> (context_update(ctx, text("vbatref"), v) matches Some(
            c,
        ) && wrap32(value + prediction(Predictor::VBatReference, signed, skipped, c, history))
            == (value + n) % 0x1_0000_0000),
        decimal(v, 0xffff) matches Ok(n) ==> (context_update(ctx, text("minthrottle"), v) matches Some(
            c,
        ) && wrap32(value + prediction(Predictor::MinThrottle, signed, skipped, c, history))
            == (value + n) % 0x1_0000_0000),
        motor_output_range_of(v) matches Some(r) ==> (context_update(
            ctx,
            text("motorOutput"),
            v,
        ) matches Some(c) && wrap32(value + prediction(Predictor::MinMotor, signed, skipped, c, history))
            == (value + r.min) % 0x1_0000_0000),
{
    reveal_strlit("vbatref");
    reveal_strlit("minthrottle");
    reveal_strlit("motorOutput");
    crate::text::lemma_ascii_text("vbatref");
    crate::text::lemma_ascii_text("minthrottle");
    crate::text::lemma_ascii_text("motorOutput");
    crate::text::lemma_decimal_bound(v, 0xffff);
    assert(text("vbatref") != text("minthrottle")) by {
        assert(text("vbatref").len() != text("minthrottle").len());
    }
    assert(text("motorOutput") != text("minthrottle")) by {
        assert(text("motorOutput")[1] != text("minthrottle")[1]);
    }
    assert(text("motorOutput") != text("vbatref")) by {
        assert(text("motorOutput")[0] != text("vbatref")[0]);
    }
}

/// What each predictor adds to an unsigned field whose last two values were
/// `last` and, before it, `before`: nothing for the zero and time
/// predictors, `last` for the previous value, their mean rounded down for
/// the average, `2 * last - before` for the straight line when that is a
/// `u32` (else `last`), `skipped + 1 + last` modulo 2^32 for the increment,
/// 1500 for the fixed one, and the first motor, home latitude and home
/// longitude of the context for theirs. With a single earlier value the
/// history predictors add it; with none they add nothing.
pub proof fn lemma_history_predictors(
    last: u32,
    before: u32,
    skipped: u32,
    ctx: PredictorContextV2,
)
    ensures
        prediction(Predictor::Zero, false, skipped, ctx, History::Two(last, before)) == 0,
        prediction(Predictor::LastMainFrameTime, false, skipped, ctx, History::Two(last, before))
            == 0,
        prediction(Predictor::Previous, false, skipped, ctx, History::Two(last, before)) == last,
        prediction(Predictor::Average2, false, skipped, ctx, History::Two(last, before)) == (last
            + before) / 2,
        2 * last >= before && 2 * last - before <= u32::MAX ==> prediction(
            Predictor::StraightLine,
            false,
            skipped,
            ctx,
            History::Two(last, before),
        ) == 2 * last - before,
        !(2 * last >= before && 2 * last - before <= u32::MAX) ==> prediction(
            Predictor::StraightLine,
            false,
            skipped,
            ctx,
            History::Two(last, before),
        ) == last,
        prediction(Predictor::Increment, false, skipped, ctx, History::Two(last, before)) == (
        skipped + 1 + last) % 0x1_0000_0000,
        prediction(Predictor::FifteenHundred, false, skipped, ctx, History::Two(last, before))
            == 1500,
        prediction(Predictor::Motor0, false, skipped, ctx, History::Two(last, before))
            == ctx.motor_0,
        prediction(Predictor::HomeLat, false, skipped, ctx, History::Two(last, before))
            == ctx.gps_home.latitude as u32,
        prediction(Predictor::HomeLon, false, skipped, ctx, History::Two(last, before))
            == ctx.gps_home.longitude as u32,
        prediction(Predictor::Previous, false, skipped, ctx, History::One(last)) == last,
        prediction(Predictor::Average2, false, skipped, ctx, History::One(last)) == last,
        prediction(Predictor::StraightLine, false, skipped, ctx, History::One(last)) == last,
        prediction(Predictor::Previous, false, skipped, ctx, History::Empty) == 0,
        prediction(Predictor::Average2, false, skipped, ctx, History::Empty) == 0,
        prediction(Predictor::StraightLine, false, skipped, ctx, History::Empty) == 0,
{
}

/// The predictor numbers of the frame definition headers: 0 zero, 1 the
/// previous value, 2 the straight line, 3 the average, 4 the minimum
/// throttle, 5 the first motor, 6 the increment, 7 the home coordinate, 8 the
/// fixed 1500, 9 the battery reference, 10 the last main frame time and 11 the
/// minimum motor; each predictor has its one number, the home longitude none,
/// and every other text stands for none.
pub proof fn lemma_predictor_numbers(b: Seq<u8>)
    ensures
        predictor_of_num(b) == Some(Predictor::Zero) <==> b == text("0"),
        predictor_of_num(b) == Some(Predictor::Previous) <==> b == text("1"),
        predictor_of_num(b) == Some(Predictor::StraightLine) <==> b == text("2"),
        predictor_of_num(b) == Some(Predictor::Average2) <==> b == text("3"),
        predictor_of_num(b) == Some(Predictor::MinThrottle) <==> b == text("4"),
        predictor_of_num(b) == Some(Predictor::Motor0) <==> b == text("5"),
        predictor_of_num(b) == Some(Predictor::Increment) <==> b == text("6"),
        predictor_of_num(b) == Some(Predictor::HomeLat) <==> b == text("7"),
        predictor_of_num(b) == Some(Predictor::FifteenHundred) <==> b == text("8"),
        predictor_of_num(b) == Some(Predictor::VBatReference) <==> b == text("9"),
        predictor_of_num(b) == Some(Predictor::LastMainFrameTime) <==> b == text("10"),
        predictor_of_num(b) == Some(Predictor::MinMotor) <==> b == text("11"),
        predictor_of_num(b) != Some(Predictor::HomeLon),
        predictor_of_num(b) is None <==> !(b == text("0") || b == text("1") || b == text("2")
            || b == text("3") || b == text("4") || b == text("5") || b == text("6") || b == text(
            "7",
        ) || b == text("8") || b == text("9") || b == text("10") || b == text("11")),
{
    reveal_strlit("0");
    crate::text::lemma_ascii_text("0");
    assert(text("0")[0] == 0x30);
    reveal_strlit("1");
    crate::text::lemma_ascii_text("1");
    assert(text("1")[0] == 0x31);
    reveal_strlit("2");
    crate::text::lemma_ascii_text("2");
    assert(text("2")[0] == 0x32);
    reveal_strlit("3");
    crate::text::lemma_ascii_text("3");
    assert(text("3")[0] == 0x33);
    reveal_strlit("4");
    crate::text::lemma_ascii_text("4");
    assert(text("4")[0] == 0x34);
    reveal_strlit("5");
    crate::text::lemma_ascii_text("5");
    assert(text("5")[0] == 0x35);
    reveal_strlit("6");
    crate::text::lemma_ascii_text("6");
    assert(text("6")[0] == 0x36);
    reveal_strlit("7");
    crate::text::lemma_ascii_text("7");
    assert(text("7")[0] == 0x37);
    reveal_strlit("8");
    crate::text::lemma_ascii_text("8");
    assert(text("8")[0] == 0x38);
    reveal_strlit("9");
    crate::text::lemma_ascii_text("9");
    assert(text("9")[0] == 0x39);
    reveal_strlit("10");
    crate::text::lemma_ascii_text("10");
    assert(text("10")[0] == 0x31);
    assert(text("10")[1] == 0x30);
    reveal_strlit("11");
    crate::text::lemma_ascii_text("11");
    assert(text("11")[0] == 0x31);
    assert(text("11")[1] == 0x31);
}

/// A signed number kept in a `u32` reads back as itself.
proof fn lemma_i32_round_trip(x: i32)
    by (bit_vector)
    ensures
        (x as u32) as i32 == x,
{
}

/// The history predictors of a signed field whose last two values were
/// `last` and, before it, `before`, each read as a signed number: the
/// average adds their mean rounded toward zero, and the straight line adds
/// `2 * last - before` when that is an `i32`, else `last`.
pub proof fn lemma_signed_history_predictors(
    last: u32,
    before: u32,
    skipped: u32,
    ctx: PredictorContextV2,
)
    ensures
        ({
            let sum = last as i32 + before as i32;
            prediction(Predictor::Average2, true, skipped, ctx, History::Two(last, before)) as i32
                == (if sum >= 0 {
                sum / 2
            } else {
                -((-sum) / 2)
            })
        }),
        ({
            let r = 2 * (last as i32) - before as i32;
            prediction(Predictor::StraightLine, true, skipped, ctx, History::Two(last, before))
                as i32 == (if i32::MIN <= r <= i32::MAX {
                r
            } else {
                last as i32 as int
            })
        }),
{
    let sum = last as i32 + before as i32;
    let half: int = if sum >= 0 {
        sum / 2
    } else {
        -((-sum) / 2)
    };
    assert(i32::MIN <= half <= i32::MAX);
    lemma_i32_round_trip(half as i32);
    let r = 2 * (last as i32) - before as i32;
    if i32::MIN <= r <= i32::MAX {
        lemma_i32_round_trip(r as i32);
    } else {
        lemma_i32_round_trip(last as i32);
    }
}

} // verus!
