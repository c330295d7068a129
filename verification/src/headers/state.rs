//! Taking in the header lines of a log one by one, then checking them and
//! building the `Headers`.

use vstd::prelude::*;

use super::{
    firmware_of, firmware_of_revision, header_at, header_end, motor_output_range_of, Firmware, InternalFirmware,
    MotorOutputRange, ParseError,
};
use crate::frame::gps::{gps_def_matches, gps_def_outcome, gps_def_valid, gps_header_names};
use crate::frame::gps_home::{
    gps_home_def_matches, gps_home_def_outcome, gps_home_def_valid, gps_home_header_names,
};
use crate::frame::main::{main_def_matches, main_def_outcome, main_def_valid, main_header_names};
use crate::frame::slow::{slow_def_matches, slow_def_outcome, slow_def_valid, slow_header_names};
use crate::frame::{def_error_matches, Available};
use crate::units::debug_mode::debug_mode_of;
use crate::units::pwm_protocol::pwm_protocol_of;
use crate::units::{DebugMode, DisabledFields, FeatureSet, PwmProtocol};
use crate::frame::gps::{gps_def_updated, GpsFrameDef, GpsFrameDefBuilder};
use crate::frame::gps_home::{gps_home_def_updated, GpsHomeFrameDef, GpsHomeFrameDefBuilder};
use crate::frame::main::{main_def_updated, MainFrameDef, MainFrameDefBuilder};
use crate::frame::slow::{slow_def_updated, SlowFrameDef, SlowFrameDefBuilder};
use crate::frame::{frame_def_header_of, parse_frame_def_header};
use crate::decode::InternalError;
use crate::headers::DataFrameKind;
use crate::reader::line_end;
use crate::text::{
    decimal, hex_value, parse_decimal, parse_hex, parse_i32, signed_decimal, str_eq, string_text,
    strip_prefix, text, to_string,
};

verus! {

/// A date and time of day as plain numbers: the year, the month from 1 to
/// 12, the day of the month, and the hour, minute and second.
#[derive(Debug, Clone, Copy, PartialEq, Eq, Structural)]
pub struct FirmwareDate {
    pub year: i32,
    pub month: u8,
    pub day: u8,
    pub hour: u8,
    pub minute: u8,
    pub second: u8,
}

/// The format of the `Firmware date` header, in the format description
/// language of the `time` crate: the short month name in any case, the day
/// padded with a space, the year, then the time of day.
pub open spec fn date_format() -> &'static str {
    "[month repr:short case_sensitive:false] [day padding:space] [year] [hour repr:24]:[minute]:[second]"
}

/// The format of the `Firmware date` header.
pub fn firmware_date_format() -> (f: &'static str)
    ensures
        f@ == date_format()@,
{
    "[month repr:short case_sensitive:false] [day padding:space] [year] [hour repr:24]:[minute]:[second]"
}

/// What `parse_date_time` gives for the text `s` and the format `format`.
pub uninterp spec fn parsed_date_time(s: Seq<u8>, format: Seq<u8>) -> Option<(i32, u8, u8, u8, u8, u8)>;

/// Calls `time::format_description::parse_borrowed::<1>` on `format`, then
/// `time::PrimitiveDateTime::parse` on `s` with the description it gives,
/// and takes the year, month, day, hour, minute and second of the result.
/// `None` when either call fails. Nothing more is claimed of the result than
/// that it is a function of the two texts.
#[verifier::external_body]
fn parse_date_time(s: &str, format: &str) -> (r: Option<(i32, u8, u8, u8, u8, u8)>)
    ensures
        r == parsed_date_time(text(s), text(format)),
{
    let items = time::format_description::parse_borrowed::<1>(format).ok()?;
    let d = time::PrimitiveDateTime::parse(s, &items).ok()?;
    Some((d.year(), u8::from(d.month()), d.day(), d.hour(), d.minute(), d.second()))
}

/// The headers that are read as nothing else, by name, kept in a
/// `hashbrown::HashMap`.
#[verifier::external_body]
pub struct UnknownHeaders {
    map: hashbrown::HashMap<String, String>,
}

/// The UTF-8 bytes of the names and values of the headers held.
pub uninterp spec fn unknown_entries(headers: UnknownHeaders) -> Map<Seq<u8>, Seq<u8>>;

/// Calls `hashbrown::HashMap::new`: no header is held.
#[verifier::external_body]
fn no_unknown_headers() -> (held: UnknownHeaders)
    ensures
        unknown_entries(held).dom() == Set::<Seq<u8>>::empty(),
{
    UnknownHeaders { map: hashbrown::HashMap::new() }
}

/// Calls `hashbrown::HashMap::insert`: `name` then has the value `value`,
/// in place of any value it had.
#[verifier::external_body]
fn insert_unknown_header(headers: &mut UnknownHeaders, name: String, value: String)
    ensures
        unknown_entries(*final(headers)) == unknown_entries(*old(headers)).insert(
            string_text(&name),
            string_text(&value),
        ),
{
    headers.map.insert(name, value);
}

/// Calls `hashbrown::HashMap::get`: a copy of the value of `name`, if the
/// header is held.
#[verifier::external_body]
fn unknown_header_value(headers: &UnknownHeaders, name: &str) -> (value: Option<String>)
    ensures
        match value {
            Some(v) => unknown_entries(*headers).dom().contains(text(name)) && string_text(&v)
                == unknown_entries(*headers)[text(name)],
            None => !unknown_entries(*headers).dom().contains(text(name)),
        },
{
    headers.map.get(name).cloned()
}

/// Calls `hashbrown::HashMap::len`: the number of headers held.
#[verifier::external_body]
fn unknown_header_count(headers: &UnknownHeaders) -> (n: usize)
    ensures
        n == unknown_entries(*headers).dom().len(),
{
    headers.map.len()
}

/// Calls `hashbrown::HashMap::keys`: copies of the names held, each once,
/// in the order that the map's hasher puts them in.
#[verifier::external_body]
fn unknown_header_names(headers: &UnknownHeaders) -> (names: Vec<String>)
    ensures
        names@.len() == unknown_entries(*headers).dom().len(),
        forall|i: int|
            0 <= i < names@.len() ==> unknown_entries(*headers).dom().contains(
                string_text(&#[trigger] names@[i]),
            ),
        forall|i: int, j: int|
            0 <= i < j < names@.len() ==> string_text(&names@[i]) != string_text(&names@[j]),
{
    headers.map.keys().cloned().collect()
}

impl UnknownHeaders {
    /// The value of the header `name`, if it is held.
    pub fn get(&self, name: &str) -> (value: Option<String>)
        ensures
            match value {
                Some(v) => unknown_entries(*self).dom().contains(text(name)) && string_text(&v)
                    == unknown_entries(*self)[text(name)],
                None => !unknown_entries(*self).dom().contains(text(name)),
            },
    {
        unknown_header_value(self, name)
    }

    /// The number of headers held.
    pub fn len(&self) -> (n: usize)
        ensures
            n == unknown_entries(*self).dom().len(),
    {
        unknown_header_count(self)
    }

    /// The names of the headers held, each once, in no particular order.
    pub fn names(&self) -> (names: Vec<String>)
        ensures
            names@.len() == unknown_entries(*self).dom().len(),
            forall|i: int|
                0 <= i < names@.len() ==> unknown_entries(*self).dom().contains(
                    string_text(&#[trigger] names@[i]),
                ),
            forall|i: int, j: int|
                0 <= i < j < names@.len() ==> string_text(&names@[i]) != string_text(&names@[j]),
    {
        unknown_header_names(self)
    }
}

/// Whether `c` is white space as Unicode's White_Space property has it.
pub open spec fn is_white_space(c: char) -> bool {
    let n = c as u32;
    (0x9 <= n <= 0xd) || n == 0x20 || n == 0x85 || n == 0xa0 || n == 0x1680 || (0x2000 <= n
        <= 0x200a) || n == 0x2028 || n == 0x2029 || n == 0x202f || n == 0x205f || n == 0x3000
}

/// `s` less its leading white space.
pub open spec fn trim_start(s: Seq<char>) -> Seq<char>
    decreases s.len(),
{
    if s.len() > 0 && is_white_space(s[0]) {
        trim_start(s.drop_first())
    } else {
        s
    }
}

/// `s` less its trailing white space.
pub open spec fn trim_end(s: Seq<char>) -> Seq<char>
    decreases s.len(),
{
    if s.len() > 0 && is_white_space(s.last()) {
        trim_end(s.drop_last())
    } else {
        s
    }
}

/// `s` less its leading and trailing white space.
pub open spec fn trimmed(s: Seq<char>) -> Seq<char> {
    trim_end(trim_start(s))
}

/// Calls `str::trim`: `s` less its leading and trailing white space, as
/// Unicode's White_Space property has it.
#[verifier::external_body]
fn trim(s: &str) -> (t: &str)
    ensures
        t@ == trimmed(s@),
{
    s.trim()
}

/// A header value, trimmed, when something is left of it.
pub open spec fn trimmed_value<'data>(v: Option<&'data str>, t: Option<&'data str>) -> bool {
    match v {
        None => t is None,
        Some(s) => if trimmed(s@).len() == 0 {
            t is None
        } else {
            t matches Some(x) && x@ == trimmed(s@)
        },
    }
}

/// Trims a header value, and drops it when nothing is left.
fn trim_value<'data>(v: Option<&'data str>) -> (t: Option<&'data str>)
    ensures
        trimmed_value(v, t),
{
    match v {
        None => None,
        Some(s) => {
            let t = trim(s);
            if t.is_empty() {
                None
            } else {
                Some(t)
            }
        },
    }
}

/// A header value read as a number, kept with the header to report it.
#[derive(Debug, Clone, Copy)]
pub struct RawHeaderValue<'data> {
    pub header: &'data str,
    pub raw: &'data str,
    pub value: u32,
}

impl<'data> RawHeaderValue<'data> {
    /// Reads `raw`, the value of `header`, as an unsigned decimal number.
    pub fn parse(header: &'data str, raw: &'data str) -> (res: Option<Self>)
        ensures
            match decimal(text(raw), u32::MAX as nat) {
                Ok(v) => res == Some(RawHeaderValue { header, raw, value: v as u32 }),
                Err(_) => res is None,
            },
    {
        match parse_decimal(raw.as_bytes(), u32::MAX) {
            Ok(value) => Some(RawHeaderValue { header, raw, value }),
            Err(_) => None,
        }
    }

    /// The error that reports that this header's value cannot be used.
    pub fn invalid_header_error(&self) -> (err: ParseError)
        ensures
            err matches ParseError::InvalidHeader { header, value } && string_text(&header) == text(
                self.header,
            ) && string_text(&value) == text(self.raw),
    {
        ParseError::InvalidHeader { header: to_string(self.header), value: to_string(self.raw) }
    }
}

/// The headers taken in so far.
pub struct State<'data> {
    pub main_frames: MainFrameDefBuilder<'data>,
    pub slow_frames: SlowFrameDefBuilder<'data>,
    pub gps_frames: GpsFrameDefBuilder<'data>,
    pub gps_home_frames: GpsHomeFrameDefBuilder<'data>,
    pub firmware_revision: Option<&'data str>,
    pub firmware_date: Option<&'data str>,
    pub firmware_kind: Option<&'data str>,
    pub board_info: Option<&'data str>,
    pub craft_name: Option<&'data str>,
    pub debug_mode: Option<RawHeaderValue<'data>>,
    pub disabled_fields: u32,
    pub features: u32,
    pub pwm_protocol: Option<RawHeaderValue<'data>>,
    pub vbat_reference: Option<u16>,
    pub acceleration_1g: Option<u16>,
    /// The bits of the 32-bit float that the gyro scale header gives.
    pub gyro_scale: Option<u32>,
    pub min_throttle: Option<u16>,
    pub motor_output_range: Option<MotorOutputRange>,
    pub unknown: UnknownHeaders,
}

/// The bits that the gyro scale header value `v` gives: a hexadecimal
/// number after `0x`, else a decimal one.
pub open spec fn gyro_scale_of(v: Seq<u8>) -> Option<u32> {
    if v.len() >= 2 && v[0] == 0x30 && v[1] == 0x78 {
        match hex_value(v.skip(2)) {
            Some(n) => Some(n as u32),
            None => None,
        }
    } else {
        match decimal(v, u32::MAX as nat) {
            Ok(n) => Some(n as u32),
            Err(_) => None,
        }
    }
}

/// Whether `h` names a calibration header that is no longer used.
pub open spec fn legacy_header(h: Seq<u8>) -> bool {
    h == text("vbatscale") || h == text("vbat_scale") || h == text("currentMeter") || h == text(
        "currentSensor",
    )
}

/// Whether `h` names a header that is read into a field of its own.
pub open spec fn known_header(h: Seq<u8>) -> bool {
    h == text("Firmware revision") || h == text("Firmware date") || h == text("Firmware type")
        || h == text("Board information") || h == text("Craft name") || h == text("debug_mode")
        || h == text("fields_disabled_mask") || h == text("features") || h == text(
        "motor_pwm_protocol",
    ) || h == text("vbatref") || h == text("acc_1G") || h == text("gyro.scale") || h == text(
        "gyro_scale",
    ) || h == text("minthrottle") || h == text("motorOutput")
}

/// Whether the header `h` is kept among the unknown headers.
pub open spec fn goes_to_unknown(h: Seq<u8>) -> bool {
    !known_header(h) && frame_def_header_of(h) is None && !legacy_header(h)
}

/// The headers taken in after the header `header` with value `value`,
/// the unknown headers aside; `None` when the value cannot be read.
#[verifier::opaque]
pub open spec fn state_updated<'data>(s: State<'data>, header: &'data str, value: &'data str) -> Option<State<'data>> {
    let h = text(header);
    let v = text(value);
    if h == text("Firmware revision") {
        Some(State { firmware_revision: Some(value), ..s })
    } else if h == text("Firmware date") {
        Some(State { firmware_date: Some(value), ..s })
    } else if h == text("Firmware type") {
        Some(State { firmware_kind: Some(value), ..s })
    } else if h == text("Board information") {
        Some(State { board_info: Some(value), ..s })
    } else if h == text("Craft name") {
        Some(State { craft_name: Some(value), ..s })
    } else if h == text("debug_mode") {
        match decimal(v, u32::MAX as nat) {
            Ok(n) => Some(State { debug_mode: Some(RawHeaderValue { header, raw: value, value: n as u32 }), ..s }),
            Err(_) => None,
        }
    } else if h == text("fields_disabled_mask") {
        match decimal(v, u32::MAX as nat) {
            Ok(n) => Some(State { disabled_fields: n as u32, ..s }),
            Err(_) => None,
        }
    } else if h == text("features") {
        match signed_decimal(v) {
            Some(n) => Some(State { features: n as i32 as u32, ..s }),
            None => None,
        }
    } else if h == text("motor_pwm_protocol") {
        match decimal(v, u32::MAX as nat) {
            Ok(n) => Some(State { pwm_protocol: Some(RawHeaderValue { header, raw: value, value: n as u32 }), ..s }),
            Err(_) => None,
        }
    } else if h == text("vbatref") {
        match decimal(v, 0xffff) {
            Ok(n) => Some(State { vbat_reference: Some(n as u16), ..s }),
            Err(_) => None,
        }
    } else if h == text("acc_1G") {
        match decimal(v, 0xffff) {
            Ok(n) => Some(State { acceleration_1g: Some(n as u16), ..s }),
            Err(_) => None,
        }
    } else if h == text("gyro.scale") || h == text("gyro_scale") {
        match gyro_scale_of(v) {
            Some(n) => Some(State { gyro_scale: Some(n), ..s }),
            None => None,
        }
    } else if h == text("minthrottle") {
        match decimal(v, 0xffff) {
            Ok(n) => Some(State { min_throttle: Some(n as u16), ..s }),
            Err(_) => None,
        }
    } else if h == text("motorOutput") {
        match motor_output_range_of(v) {
            Some(r) => Some(State { motor_output_range: Some(r), ..s }),
            None => None,
        }
    } else {
        match frame_def_header_of(h) {
            Some((kind, property)) => Some(
                match kind {
                    DataFrameKind::Intra | DataFrameKind::Inter => State {
                        main_frames: main_def_updated(s.main_frames, kind, property, value),
                        ..s
                    },
                    DataFrameKind::Slow => State {
                        slow_frames: slow_def_updated(s.slow_frames, property, value),
                        ..s
                    },
                    DataFrameKind::Gps => State {
                        gps_frames: gps_def_updated(s.gps_frames, property, value),
                        ..s
                    },
                    DataFrameKind::GpsHome => State {
                        gps_home_frames: gps_home_def_updated(s.gps_home_frames, property, value),
                        ..s
                    },
                },
            ),
            None => Some(s),
        }
    }
}

/// The headers taken in before any header line, the unknown headers aside.
pub open spec fn initial_state<'data>() -> State<'data> {
    State {
        main_frames: MainFrameDefBuilder {
            names: None,
            predictors_intra: None,
            predictors_inter: None,
            encodings_intra: None,
            encodings_inter: None,
            signs: None,
        },
        slow_frames: SlowFrameDefBuilder { names: None, predictors: None, encodings: None, signs: None },
        gps_frames: GpsFrameDefBuilder { names: None, predictors: None, encodings: None, signs: None },
        gps_home_frames: GpsHomeFrameDefBuilder {
            names: None,
            predictors: None,
            encodings: None,
            signs: None,
        },
        firmware_revision: None,
        firmware_date: None,
        firmware_kind: None,
        board_info: None,
        craft_name: None,
        debug_mode: None,
        disabled_fields: 0,
        features: 0,
        pwm_protocol: None,
        vbat_reference: None,
        acceleration_1g: None,
        gyro_scale: None,
        min_throttle: None,
        motor_output_range: None,
        unknown: arbitrary(),
    }
}

impl<'data> State<'data> {
    /// No header taken in yet.
    pub fn new() -> (s: Self)
        ensures
            s == (State { unknown: s.unknown, ..initial_state() }),
            unknown_entries(s.unknown).dom() == Set::<Seq<u8>>::empty(),
    {
        State {
            main_frames: MainFrameDef::builder(),
            slow_frames: SlowFrameDef::builder(),
            gps_frames: GpsFrameDef::builder(),
            gps_home_frames: GpsHomeFrameDef::builder(),
            firmware_revision: None,
            firmware_date: None,
            firmware_kind: None,
            board_info: None,
            craft_name: None,
            debug_mode: None,
            disabled_fields: 0,
            features: 0,
            pwm_protocol: None,
            vbat_reference: None,
            acceleration_1g: None,
            gyro_scale: None,
            min_throttle: None,
            motor_output_range: None,
            unknown: no_unknown_headers(),
        }
    }

    /// Takes in the header `header` with value `value`. `false` when the
    /// value cannot be read; the state is then left as it was.
    #[verifier::rlimit(80)]
    pub fn update(&mut self, header: &'data str, value: &'data str) -> (ok: bool)
        ensures
            match state_updated(*old(self), header, value) {
                None => !ok && *final(self) == *old(self),
                Some(s) => ok && *final(self) == (State { unknown: final(self).unknown, ..s })
                    && unknown_entries(final(self).unknown) == (if goes_to_unknown(text(header)) {
                    unknown_entries(old(self).unknown).insert(text(header), text(value))
                } else {
                    unknown_entries(old(self).unknown)
                }),
            },
    {
        reveal(state_updated);
        if str_eq(header, "Firmware revision") {
            self.firmware_revision = Some(value);
        } else if str_eq(header, "Firmware date") {
            self.firmware_date = Some(value);
        } else if str_eq(header, "Firmware type") {
            self.firmware_kind = Some(value);
        } else if str_eq(header, "Board information") {
            self.board_info = Some(value);
        } else if str_eq(header, "Craft name") {
            self.craft_name = Some(value);
        } else if str_eq(header, "debug_mode") {
            match RawHeaderValue::parse(header, value) {
                Some(raw) => self.debug_mode = Some(raw),
                None => return false,
            }
        } else if str_eq(header, "fields_disabled_mask") {
            match parse_decimal(value.as_bytes(), u32::MAX) {
                Ok(n) => self.disabled_fields = n,
                Err(_) => return false,
            }
        } else if str_eq(header, "features") {
            match parse_i32(value.as_bytes()) {
                Some(n) => self.features = n as u32,
                None => return false,
            }
        } else if str_eq(header, "motor_pwm_protocol") {
            match RawHeaderValue::parse(header, value) {
                Some(raw) => self.pwm_protocol = Some(raw),
                None => return false,
            }
        } else if str_eq(header, "vbatref") {
            match parse_decimal(value.as_bytes(), 0xffff) {
                Ok(n) => self.vbat_reference = Some(n as u16),
                Err(_) => return false,
            }
        } else if str_eq(header, "acc_1G") {
            match parse_decimal(value.as_bytes(), 0xffff) {
                Ok(n) => self.acceleration_1g = Some(n as u16),
                Err(_) => return false,
            }
        } else if str_eq(header, "gyro.scale") || str_eq(header, "gyro_scale") {
            match parse_gyro_scale(value) {
                Some(n) => self.gyro_scale = Some(n),
                None => return false,
            }
        } else if str_eq(header, "minthrottle") {
            match parse_decimal(value.as_bytes(), 0xffff) {
                Ok(n) => self.min_throttle = Some(n as u16),
                Err(_) => return false,
            }
        } else if str_eq(header, "motorOutput") {
            match MotorOutputRange::from_str(value) {
                Some(range) => self.motor_output_range = Some(range),
                None => return false,
            }
        } else {
            match parse_frame_def_header(header) {
                Some((kind, property)) => match kind {
                    DataFrameKind::Intra | DataFrameKind::Inter => {
                        self.main_frames.update(kind, property, value)
                    },
                    DataFrameKind::Slow => self.slow_frames.update(property, value),
                    DataFrameKind::Gps => self.gps_frames.update(property, value),
                    DataFrameKind::GpsHome => self.gps_home_frames.update(property, value),
                },
                None => {
                    if !(str_eq(header, "vbatscale") || str_eq(header, "vbat_scale") || str_eq(
                        header,
                        "currentMeter",
                    ) || str_eq(header, "currentSensor")) {
                        insert_unknown_header(&mut self.unknown, to_string(header), to_string(value));
                    }
                },
            }
        }
        true
    }
}

/// Reads the value of the gyro scale header.
fn parse_gyro_scale(value: &str) -> (bits: Option<u32>)
    ensures
        bits == gyro_scale_of(text(value)),
{
    proof {
        reveal_strlit("0x");
        crate::text::lemma_ascii_text("0x");
    }
    match strip_prefix(value, "0x") {
        Some(hex) => {
            assert(text("0x") =~= seq![0x30u8, 0x78]);
            parse_hex(hex.as_bytes())
        },
        None => {
            assert(!(text(value).len() >= 2 && text(value)[0] == 0x30 && text(value)[1] == 0x78)) by {
                if text(value).len() >= 2 && text(value)[0] == 0x30 && text(value)[1] == 0x78 {
                    assert(text(value).take(2) =~= text("0x"));
                }
            }
            match parse_decimal(value.as_bytes(), u32::MAX) {
                Ok(n) => Some(n),
                Err(_) => None,
            }
        },
    }
}

/// What the header section of a log says.
pub struct Headers<'data> {
    pub main_frame_def: MainFrameDef<'data>,
    pub slow_frame_def: SlowFrameDef<'data>,
    pub gps_frame_def: Option<GpsFrameDef<'data>>,
    pub gps_home_frame_def: Option<GpsHomeFrameDef<'data>>,
    pub firmware_revision: &'data str,
    pub firmware: InternalFirmware,
    pub firmware_date: Option<&'data str>,
    pub board_info: Option<&'data str>,
    pub craft_name: Option<&'data str>,
    pub debug_mode: DebugMode,
    pub disabled_fields: DisabledFields,
    pub features: FeatureSet,
    pub pwm_protocol: PwmProtocol,
    /// The battery voltage measured at arm.
    pub vbat_reference: Option<u16>,
    /// Calibration of the accelerometer.
    pub acceleration_1g: Option<u16>,
    /// The bits of the 32-bit float that calibrates the gyro, in degrees
    /// per second.
    pub gyro_scale: Option<u32>,
    pub min_throttle: Option<u16>,
    pub motor_output_range: Option<MotorOutputRange>,
    pub unknown: UnknownHeaders,
}

/// Which of the headers that some predictors and units need `h` has.
pub open spec fn available_in(h: Headers) -> Available {
    Available {
        min_throttle: h.min_throttle is Some,
        motor_0: h.main_frame_def.index_motor_0 is Some,
        gps_home: h.gps_home_frame_def is Some,
        vbat_reference: h.vbat_reference is Some,
        min_motor: h.motor_output_range is Some,
        acceleration: h.acceleration_1g is Some,
    }
}

/// Whether every field of every frame definition of `h` has the headers its
/// predictors and unit need.
pub open spec fn headers_valid(h: Headers) -> bool {
    let a = available_in(h);
    &&& main_def_valid(h.main_frame_def, a)
    &&& slow_def_valid(h.slow_frame_def, a)
    &&& (h.gps_frame_def matches Some(d) ==> gps_def_valid(d, a))
    &&& (h.gps_home_frame_def matches Some(d) ==> gps_home_def_valid(d, a))
}

/// The debug mode that the header read as `raw` gives for firmware `fw`:
/// none when there is no such header.
pub open spec fn debug_mode_outcome(raw: Option<RawHeaderValue>, fw: InternalFirmware) -> Option<DebugMode> {
    match raw {
        None => Some(DebugMode::Off),
        Some(r) => debug_mode_of(r.value, fw),
    }
}

/// Whether `h` is built from the headers `s` taken in, the firmware `fw`,
/// the frame definitions of `mm`, `sm`, `gm` and `hm` rows and the debug
/// mode and PWM protocol read.
pub open spec fn headers_built<'data>(
    s: State<'data>,
    fw: InternalFirmware,
    mm: int,
    sm: int,
    gm: Option<int>,
    hm: Option<int>,
    debug_mode: DebugMode,
    pwm_protocol: PwmProtocol,
    h: Headers<'data>,
) -> bool {
    &&& s.firmware_revision == Some(h.firmware_revision)
    &&& h.firmware == fw
    &&& main_def_matches(h.main_frame_def, s.main_frames.values(), mm)
    &&& slow_def_matches(h.slow_frame_def, s.slow_frames.values(), sm)
    &&& match gm {
        None => h.gps_frame_def is None,
        Some(m) => h.gps_frame_def matches Some(d) && gps_def_matches(d, s.gps_frames.values(), m),
    }
    &&& match hm {
        None => h.gps_home_frame_def is None,
        Some(m) => h.gps_home_frame_def matches Some(d) && gps_home_def_matches(
            d,
            s.gps_home_frames.values(),
            m,
        ),
    }
    &&& h.firmware_date == s.firmware_date
    &&& trimmed_value(s.board_info, h.board_info)
    &&& trimmed_value(s.craft_name, h.craft_name)
    &&& h.debug_mode == debug_mode
    &&& h.disabled_fields.spec_raw() == s.disabled_fields
    &&& h.disabled_fields.spec_firmware() == fw
    &&& h.features.spec_raw() == s.features
    &&& h.features.spec_firmware() == fw
    &&& h.pwm_protocol == pwm_protocol
    &&& h.vbat_reference == s.vbat_reference
    &&& h.acceleration_1g == s.acceleration_1g
    &&& h.gyro_scale == s.gyro_scale
    &&& h.min_throttle == s.min_throttle
    &&& h.motor_output_range == s.motor_output_range
    &&& h.unknown == s.unknown
}

/// Whether `res` is what finishing the headers `s` comes to: the first
/// problem met, in the order they are checked, or the headers.
#[verifier::opaque]
pub open spec fn finish_matches<'data>(s: State<'data>, res: Result<Headers<'data>, ParseError>) -> bool {
    match s.firmware_revision {
        None => res matches Err(ParseError::MissingHeader),
        Some(rev) => match firmware_of_revision(text(rev)) {
            None => res matches Err(ParseError::InvalidFirmware(r)) && string_text(&r) == text(rev),
            Some(fw) => match main_def_outcome(s.main_frames.values()) {
                Err(e) => res matches Err(err) && def_error_matches(
                    e,
                    err,
                    main_header_names(),
                    s.main_frames.values(),
                ),
                Ok(mm) => match slow_def_outcome(s.slow_frames.values()) {
                    Err(e) => res matches Err(err) && def_error_matches(
                        e,
                        err,
                        slow_header_names(),
                        s.slow_frames.values(),
                    ),
                    Ok(sm) => match gps_def_outcome(s.gps_frames.values()) {
                        Err(e) => res matches Err(err) && def_error_matches(
                            e,
                            err,
                            gps_header_names(),
                            s.gps_frames.values(),
                        ),
                        Ok(gm) => match gps_home_def_outcome(s.gps_home_frames.values()) {
                            Err(e) => res matches Err(err) && def_error_matches(
                                e,
                                err,
                                gps_home_header_names(),
                                s.gps_home_frames.values(),
                            ),
                            Ok(hm) => match debug_mode_outcome(s.debug_mode, fw) {
                                None => res matches Err(ParseError::InvalidHeader { header, value })
                                    && string_text(&header) == text(s.debug_mode->0.header)
                                    && string_text(&value) == text(s.debug_mode->0.raw),
                                Some(dm) => match s.pwm_protocol {
                                    None => res matches Err(ParseError::MissingHeader),
                                    Some(raw) => match pwm_protocol_of(raw.value, fw) {
                                        None => res matches Err(
                                            ParseError::InvalidHeader { header, value },
                                        ) && string_text(&header) == text(raw.header)
                                            && string_text(&value) == text(raw.raw),
                                        Some(pwm) => exists|h: Headers<'data>|
                                            #[trigger] headers_built(s, fw, mm, sm, gm, hm, dm, pwm, h)
                                                && if headers_valid(h) {
                                                res == Ok::<Headers<'data>, ParseError>(h)
                                            } else {
                                                res matches Err(ParseError::MissingHeader)
                                            },
                                    },
                                },
                            },
                        },
                    },
                },
            },
        },
    }
}

impl<'data> Headers<'data> {
    /// The definition of main frames.
    pub fn main_frame_def(&self) -> (def: &MainFrameDef<'data>)
        ensures
            *def == self.main_frame_def,
    {
        &self.main_frame_def
    }

    /// The definition of slow frames.
    pub fn slow_frame_def(&self) -> (def: &SlowFrameDef<'data>)
        ensures
            *def == self.slow_frame_def,
    {
        &self.slow_frame_def
    }

    /// The definition of GPS frames, if the log has any.
    pub fn gps_frame_def(&self) -> (def: Option<&GpsFrameDef<'data>>)
        ensures
            match self.gps_frame_def {
                Some(d) => def == Some(&d),
                None => def is None,
            },
    {
        match &self.gps_frame_def {
            Some(d) => Some(d),
            None => None,
        }
    }

    /// The definition of GPS home frames, if the log has any.
    pub fn gps_home_frame_def(&self) -> (def: Option<&GpsHomeFrameDef<'data>>)
        ensures
            match self.gps_home_frame_def {
                Some(d) => def == Some(&d),
                None => def is None,
            },
    {
        match &self.gps_home_frame_def {
            Some(d) => Some(d),
            None => None,
        }
    }

    /// The whole `Firmware revision` header.
    pub fn firmware_revision(&self) -> (r: &'data str)
        ensures
            r == self.firmware_revision,
    {
        self.firmware_revision
    }

    /// The firmware that wrote the log.
    pub fn firmware(&self) -> (f: Firmware)
        ensures
            f == firmware_of(self.firmware),
    {
        self.firmware.to_firmware()
    }

    /// The `Firmware date` header.
    pub fn firmware_date_raw(&self) -> (d: Option<&'data str>)
        ensures
            d == self.firmware_date,
    {
        self.firmware_date
    }

    /// The `Firmware date` header read as a date and time, such as
    /// `Jun  6 2022 20:49:11`; the raw text when it does not read as one.
    pub fn firmware_date(&self) -> (d: Option<Result<FirmwareDate, &'data str>>)
        ensures
            match self.firmware_date {
                None => d is None,
                Some(raw) => match parsed_date_time(text(raw), text(date_format())) {
                    Some((year, month, day, hour, minute, second)) => d == Some(
                        Ok::<FirmwareDate, &'data str>(
                            FirmwareDate { year, month, day, hour, minute, second },
                        ),
                    ),
                    None => d == Some(Err::<FirmwareDate, &'data str>(raw)),
                },
            },
    {
        match self.firmware_date {
            None => None,
            Some(raw) => match parse_date_time(raw, firmware_date_format()) {
                Some((year, month, day, hour, minute, second)) => Some(
                    Ok(FirmwareDate { year, month, day, hour, minute, second }),
                ),
                None => Some(Err(raw)),
            },
        }
    }

    /// The `Board information` header, trimmed, unless it is empty.
    pub fn board_info(&self) -> (b: Option<&'data str>)
        ensures
            b == self.board_info,
    {
        self.board_info
    }

    /// The `Craft name` header, trimmed, unless it is empty.
    pub fn craft_name(&self) -> (c: Option<&'data str>)
        ensures
            c == self.craft_name,
    {
        self.craft_name
    }

    /// The debug mode the firmware ran in.
    pub fn debug_mode(&self) -> (m: DebugMode)
        ensures
            m == self.debug_mode,
    {
        self.debug_mode
    }

    /// The groups of fields that were not logged.
    pub fn disabled_fields(&self) -> (f: DisabledFields)
        ensures
            f == self.disabled_fields,
    {
        self.disabled_fields
    }

    /// The enabled firmware features.
    pub fn features(&self) -> (f: FeatureSet)
        ensures
            f == self.features,
    {
        self.features
    }

    /// The protocol used to drive the motors.
    pub fn pwm_protocol(&self) -> (p: PwmProtocol)
        ensures
            p == self.pwm_protocol,
    {
        self.pwm_protocol
    }

    /// The headers that are read as nothing else.
    pub fn unknown(&self) -> (u: &UnknownHeaders)
        ensures
            *u == self.unknown,
    {
        &self.unknown
    }

    /// Checks that every field of every frame definition has the headers
    /// its predictors and unit need.
    pub fn validate(&self) -> (res: Result<(), ParseError>)
        ensures
            res is Ok <==> headers_valid(*self),
            res is Err ==> res matches Err(ParseError::MissingHeader),
    {
        let available = Available {
            min_throttle: self.min_throttle.is_some(),
            motor_0: self.main_frame_def.has_motor_0(),
            gps_home: self.gps_home_frame_def.is_some(),
            vbat_reference: self.vbat_reference.is_some(),
            min_motor: self.motor_output_range.is_some(),
            acceleration: self.acceleration_1g.is_some(),
        };
        assert(available == available_in(*self));
        match self.main_frame_def.validate(&available) {
            Ok(()) => {},
            Err(e) => return Err(e),
        }
        match self.slow_frame_def.validate(&available) {
            Ok(()) => {},
            Err(e) => return Err(e),
        }
        match &self.gps_frame_def {
            Some(def) => match def.validate(&available) {
                Ok(()) => {},
                Err(e) => return Err(e),
            },
            None => {},
        }
        match &self.gps_home_frame_def {
            Some(def) => match def.validate(&available) {
                Ok(()) => {},
                Err(e) => return Err(e),
            },
            None => {},
        }
        Ok(())
    }
}

impl<'data> State<'data> {
    /// Checks the headers taken in and builds the `Headers`: the firmware
    /// revision and the PWM protocol must be given, and every frame
    /// definition must be well formed.
    #[verifier::rlimit(60)]
    pub fn finish(self) -> (res: Result<Headers<'data>, ParseError>)
        ensures
            finish_matches(self, res),
    {
        reveal(finish_matches);
        let firmware_revision = match self.firmware_revision {
            Some(rev) => rev,
            None => return Err(ParseError::MissingHeader),
        };
        let firmware = match InternalFirmware::parse(firmware_revision) {
            Ok(fw) => fw,
            Err(e) => return Err(e),
        };
        let main_frame_def = match self.main_frames.parse() {
            Ok(def) => def,
            Err(e) => return Err(e),
        };
        let slow_frame_def = match self.slow_frames.parse() {
            Ok(def) => def,
            Err(e) => return Err(e),
        };
        let gps_frame_def = match self.gps_frames.parse() {
            Ok(def) => def,
            Err(e) => return Err(e),
        };
        let gps_home_frame_def = match self.gps_home_frames.parse() {
            Ok(def) => def,
            Err(e) => return Err(e),
        };
        let debug_mode = match self.debug_mode {
            None => DebugMode::Off,
            Some(raw) => match DebugMode::new(raw.value, firmware) {
                Some(mode) => mode,
                None => return Err(raw.invalid_header_error()),
            },
        };
        let pwm_protocol = match self.pwm_protocol {
            None => return Err(ParseError::MissingHeader),
            Some(raw) => match PwmProtocol::new(raw.value, firmware) {
                Some(protocol) => protocol,
                None => return Err(raw.invalid_header_error()),
            },
        };
        let headers = Headers {
            main_frame_def,
            slow_frame_def,
            gps_frame_def,
            gps_home_frame_def,
            firmware_revision,
            firmware,
            firmware_date: self.firmware_date,
            board_info: trim_value(self.board_info),
            craft_name: trim_value(self.craft_name),
            debug_mode,
            disabled_fields: DisabledFields::new(self.disabled_fields, firmware),
            features: FeatureSet::new(self.features, firmware),
            pwm_protocol,
            vbat_reference: self.vbat_reference,
            acceleration_1g: self.acceleration_1g,
            gyro_scale: self.gyro_scale,
            min_throttle: self.min_throttle,
            motor_output_range: self.motor_output_range,
            unknown: self.unknown,
        };
        let ghost mm = main_def_outcome(self.main_frames.values())->Ok_0;
        let ghost sm = slow_def_outcome(self.slow_frames.values())->Ok_0;
        let ghost gm = gps_def_outcome(self.gps_frames.values())->Ok_0;
        let ghost hm = gps_home_def_outcome(self.gps_home_frames.values())->Ok_0;
        assert(headers_built(self, firmware, mm, sm, gm, hm, debug_mode, pwm_protocol, headers));
        match headers.validate() {
            Ok(()) => Ok(headers),
            Err(e) => Err(e),
        }
    }
}

/// The index after the line that starts at `k`: after its newline, or the
/// end of the data.
pub open spec fn after_line(d: Seq<u8>, k: int) -> int {
    let e = line_end(d, k);
    if e < d.len() {
        e + 1
    } else {
        e
    }
}

/// The end of a line is at or after its start and within the data.
pub proof fn lemma_line_end(d: Seq<u8>, k: int)
    requires
        0 <= k <= d.len(),
    ensures
        k <= line_end(d, k) <= d.len(),
        line_end(d, k) < d.len() ==> d[line_end(d, k)] == 10,
        forall|i: int| k <= i < line_end(d, k) ==> d[i] != 10,
    decreases d.len() - k,
{
    if k < d.len() && d[k] != 10 {
        lemma_line_end(d, k + 1);
    }
}

/// Where the end of the line that starts at `k` is.
fn line_end_at(d: &[u8], k: usize) -> (e: usize)
    requires
        k <= d@.len(),
    ensures
        e == line_end(d@, k as int),
{
    let mut e = k;
    while e < d.len() && d[e] != 10
        invariant
            k <= e <= d@.len(),
            line_end(d@, k as int) == line_end(d@, e as int),
        decreases d@.len() - e,
    {
        e += 1;
    }
    e
}

/// The index after the line that starts at `k`.
fn after_line_at(d: &[u8], k: usize) -> (next: usize)
    requires
        k <= d@.len(),
    ensures
        next == after_line(d@, k as int),
        k <= next <= d@.len(),
{
    proof {
        lemma_line_end(d@, k as int);
    }
    let e = line_end_at(d, k);
    if e < d.len() {
        e + 1
    } else {
        e
    }
}

/// Whether the data starts with the product line and then the line that
/// gives the version of the format that this library reads.
pub open spec fn version_ok(d: Seq<u8>) -> bool {
    let k = after_line(d, 0);
    k < d.len() && d.subrange(k, line_end(d, k)) == text("H Data version:2")
}

/// Where the header lines start: after the product and version lines.
pub open spec fn headers_start(d: Seq<u8>) -> int {
    after_line(d, after_line(d, 0))
}

/// The header lines from byte `k` on, as names and values, up to the first
/// byte that starts no header line or the first corrupted line; then where
/// they stop, and whether the data ends in the middle of a header line.
pub open spec fn header_lines(d: Seq<u8>, k: int) -> (Seq<(Seq<u8>, Seq<u8>)>, int, bool)
    decreases d.len() - k,
{
    if k < 0 || k >= d.len() || d[k] != 0x48 {
        (seq![], k, false)
    } else {
        match header_at(d, k) {
            Err(InternalError::Retry) => (seq![], k, false),
            Err(InternalError::Eof) => (seq![], k, true),
            Ok(line) => {
                proof {
                    lemma_line_end(d, k + 1);
                }
                let rest = header_lines(d, header_end(d, k) / 8);
                (seq![line] + rest.0, rest.1, rest.2)
            },
        }
    }
}

/// The texts of header lines.
pub open spec fn line_texts(lines: Seq<(&str, &str)>) -> Seq<(Seq<u8>, Seq<u8>)> {
    lines.map_values(|l: (&str, &str)| (text(l.0), text(l.1)))
}

/// The headers taken in after the lines `lines` from `s`, the unknown
/// headers aside, or the index of the first line whose value cannot be
/// read.
pub open spec fn state_after<'data>(s: State<'data>, lines: Seq<(&'data str, &'data str)>) -> Result<State<'data>, int>
    decreases lines.len(),
{
    if lines.len() == 0 {
        Ok(s)
    } else {
        match state_after(s, lines.drop_last()) {
            Err(j) => Err(j),
            Ok(t) => match state_updated(t, lines.last().0, lines.last().1) {
                None => Err(lines.len() - 1),
                Some(u) => Ok(u),
            },
        }
    }
}

/// The unknown headers after the lines `lines`, from `m`.
pub open spec fn unknown_after(m: Map<Seq<u8>, Seq<u8>>, lines: Seq<(&str, &str)>) -> Map<Seq<u8>, Seq<u8>>
    decreases lines.len(),
{
    if lines.len() == 0 {
        m
    } else {
        let before = unknown_after(m, lines.drop_last());
        let h = text(lines.last().0);
        if goes_to_unknown(h) {
            before.insert(h, text(lines.last().1))
        } else {
            before
        }
    }
}

/// Whether `res` is what reading the header section of `d` comes to, when
/// its header lines are `lines` and the headers taken in from them are `s`.
#[verifier::opaque]
pub open spec fn parse_outcome<'data>(
    d: Seq<u8>,
    lines: Seq<(&'data str, &'data str)>,
    s: State<'data>,
    res: Result<(Headers<'data>, usize), ParseError>,
) -> bool {
    let (texts, end, eof) = header_lines(d, headers_start(d));
    match state_after(initial_state(), lines) {
        Err(j) => {
            &&& j == lines.len() - 1
            &&& lines.len() <= texts.len()
            &&& line_texts(lines) == texts.take(lines.len() as int)
            &&& res matches Err(ParseError::InvalidHeader { header, value })
            &&& string_text(&header) == text(lines[j].0)
            &&& string_text(&value) == text(lines[j].1)
        },
        Ok(t) => {
            &&& line_texts(lines) == texts
            &&& if eof {
                res matches Err(ParseError::IncompleteHeaders)
            } else {
                &&& s == (State { unknown: s.unknown, ..t })
                &&& unknown_entries(s.unknown) == unknown_after(Map::empty(), lines)
                &&& finish_matches(
                    s,
                    match res {
                        Ok((h, _)) => Ok(h),
                        Err(e) => Err(e),
                    },
                )
                &&& (res matches Ok((_, n)) ==> n == end)
            }
        },
    }
}

/// Whether `res` is what reading the header section at the start of `d`
/// comes to: the version line must name the version read, and then the
/// header lines are taken in and the headers built.
pub open spec fn headers_parse_matches<'data>(
    d: Seq<u8>,
    res: Result<(Headers<'data>, usize), ParseError>,
) -> bool {
    &&& (!version_ok(d) ==> res matches Err(ParseError::UnsupportedVersion))
    &&& (version_ok(d) ==> exists|lines: Seq<(&'data str, &'data str)>, s: State<'data>|
        #[trigger] parse_outcome(d, lines, s, res))
}

/// Reads the header line that starts at byte `k` of `d` as its name and
/// value.
fn header_line_at<'data>(d: &'data [u8], k: usize) -> (res: Result<(&'data str, &'data str), InternalError>)
    requires
        k < d@.len(),
        d@[k as int] == 0x48,
    ensures
        match header_at(d@, k as int) {
            Ok((name, value)) => res matches Ok((n, v)) && text(n) == name && text(v) == value,
            Err(e) => res == Err::<(&'data str, &'data str), InternalError>(e),
        },
{
    if d.len() - k <= 1 {
        return Err(InternalError::Eof);
    }
    proof {
        lemma_line_end(d@, k as int + 1);
    }
    let e = line_end_at(d, k + 1);
    let raw = vstd::slice::slice_subrange(d, k + 1, e);
    let line = match crate::text::utf8_text(raw) {
        Ok(line) => line,
        Err(_) => return Err(InternalError::Retry),
    };
    proof {
        reveal_strlit(" ");
        crate::text::lemma_ascii_text(" ");
    }
    let ghost bytes = raw@;
    let line = match strip_prefix(line, " ") {
        Some(rest) => rest,
        None => line,
    };
    assert(text(line) == (if bytes.len() > 0 && bytes[0] == 0x20 {
        bytes.drop_first()
    } else {
        bytes
    })) by {
        if bytes.len() > 0 && bytes[0] == 0x20 {
            assert(bytes.take(1) =~= text(" "));
            assert(bytes.skip(1) =~= bytes.drop_first());
        } else if bytes.len() > 0 {
            assert(bytes.take(1)[0] != text(" ")[0]);
        }
    }
    proof {
        crate::text::lemma_find(text(line), 0x3a);
    }
    match crate::text::split_once(line, 0x3a) {
        Some((name, value)) => Ok((name, value)),
        None => Err(InternalError::Retry),
    }
}

/// Whether two byte strings are the same.
fn bytes_eq(a: &[u8], b: &[u8]) -> (eq: bool)
    ensures
        eq == (a@ == b@),
{
    if a.len() != b.len() {
        return false;
    }
    let mut i: usize = 0;
    while i < a.len()
        invariant
            a@.len() == b@.len(),
            i <= a@.len(),
            forall|j: int| 0 <= j < i ==> a@[j] == b@[j],
        decreases a@.len() - i,
    {
        if a[i] != b[i] {
            return false;
        }
        i += 1;
    }
    assert(a@ =~= b@);
    true
}

/// Taking in a header does not depend on the unknown headers held.
pub proof fn lemma_unknown_aside<'data>(s: State<'data>, u: UnknownHeaders, header: &'data str, value: &'data str)
    ensures
        state_updated(State { unknown: u, ..s }, header, value) == (match state_updated(
            s,
            header,
            value,
        ) {
            Some(x) => Some(State { unknown: u, ..x }),
            None => None::<State<'data>>,
        }),
{
    reveal(state_updated);
}

/// A header given twice counts with its last value: once the first value
/// was taken in, taking in the second comes to the same as taking in the
/// second alone.
pub proof fn lemma_last_value_counts<'data>(
    s: State<'data>,
    header: &'data str,
    first: &'data str,
    second: &'data str,
)
    requires
        state_updated(s, header, first) is Some,
    ensures
        state_updated(state_updated(s, header, first)->0, header, second) == state_updated(
            s,
            header,
            second,
        ),
{
    reveal(state_updated);
    let t = state_updated(s, header, first)->0;
    if frame_def_header_of(text(header)) is Some && !known_header(text(header)) {
        let (kind, property) = frame_def_header_of(text(header))->0;
        match kind {
            DataFrameKind::Intra | DataFrameKind::Inter => {
                assert(main_def_updated(t.main_frames, kind, property, second) == main_def_updated(
                    s.main_frames,
                    kind,
                    property,
                    second,
                ));
            },
            _ => {},
        }
    }
}

/// Unknown headers given twice keep their last value.
pub proof fn lemma_last_unknown_value_counts(m: Map<Seq<u8>, Seq<u8>>, h: Seq<u8>, first: Seq<u8>, second: Seq<u8>)
    ensures
        m.insert(h, first).insert(h, second) == m.insert(h, second),
{
    assert(m.insert(h, first).insert(h, second) =~= m.insert(h, second));
}

impl<'data> Headers<'data> {
    /// Reads the header section of a log that starts at the start of
    /// `data`: the product line, the version line, then the header lines.
    /// Gives the headers and where the data section starts.
    #[verifier::rlimit(60)]
    pub fn parse(data: &'data [u8]) -> (res: Result<(Headers<'data>, usize), ParseError>)
        ensures
            headers_parse_matches(data@, res),
    {
        let ghost d = data@;
        let k0 = after_line_at(data, 0);
        if k0 >= data.len() {
            return Err(ParseError::UnsupportedVersion);
        }
        proof {
            lemma_line_end(d, k0 as int);
        }
        let e = line_end_at(data, k0);
        let version = vstd::slice::slice_subrange(data, k0, e);
        proof {
            reveal_strlit("H Data version:2");
        }
        if !bytes_eq(version, "H Data version:2".as_bytes()) {
            return Err(ParseError::UnsupportedVersion);
        }
        let mut k = after_line_at(data, k0);
        assert(k == headers_start(d));
        let mut state = State::new();
        let ghost mut lines: Seq<(&'data str, &'data str)> = seq![];
        let ghost all = header_lines(d, headers_start(d));
        assert(state_after(initial_state(), lines) == Ok::<State<'data>, int>(initial_state()));
        assert(unknown_after(Map::empty(), lines) =~= unknown_entries(state.unknown));
        loop
            invariant
                d == data@,
                version_ok(d),
                k <= d.len(),
                all == header_lines(d, headers_start(d)),
                all.0 == line_texts(lines) + header_lines(d, k as int).0,
                all.1 == header_lines(d, k as int).1,
                all.2 == header_lines(d, k as int).2,
                state_after(initial_state(), lines) matches Ok(t) && state == (State {
                    unknown: state.unknown,
                    ..t
                }),
                unknown_entries(state.unknown) == unknown_after(Map::empty(), lines),
            ensures
                header_lines(d, k as int) == (Seq::<(Seq<u8>, Seq<u8>)>::empty(), k as int, false),
            decreases d.len() - k,
        {
            if k >= data.len() || data[k] != 0x48 {
                break;
            }
            match header_line_at(data, k) {
                Err(InternalError::Retry) => break,
                Err(InternalError::Eof) => {
                    assert(parse_outcome(d, lines, state, Err(ParseError::IncompleteHeaders))) by {
                        reveal(parse_outcome);
                    }
                    return Err(ParseError::IncompleteHeaders);
                },
                Ok((name, value)) => {
                    let ghost before = state;
                    let ghost t = state_after(initial_state(), lines)->Ok_0;
                    proof {
                        lemma_unknown_aside(t, before.unknown, name, value);
                    }
                    let ok = state.update(name, value);
                    let ghost next_lines = lines.push((name, value));
                    assert(next_lines.drop_last() =~= lines);
                    if !ok {
                        let err = ParseError::InvalidHeader {
                            header: to_string(name),
                            value: to_string(value),
                        };
                        assert(state_after(initial_state(), next_lines) == Err::<State<'data>, int>(
                            lines.len() as int,
                        ));
                        assert(line_texts(next_lines) =~= line_texts(lines).push(
                            (text(name), text(value)),
                        ));
                        assert(line_texts(next_lines) =~= all.0.take(next_lines.len() as int));
                        assert(parse_outcome(d, next_lines, state, Err(err))) by {
                            reveal(parse_outcome);
                        }
                        return Err(err);
                    }
                    proof {
                        lemma_line_end(d, k as int + 1);
                        assert(line_texts(next_lines) =~= line_texts(lines).push(
                            (text(name), text(value)),
                        ));
                        lines = next_lines;
                    }
                    k = after_line_at(data, k + 1);
                },
            }
        }
        assert(line_texts(lines) + Seq::<(Seq<u8>, Seq<u8>)>::empty() =~= line_texts(lines));
        let res = match state.finish() {
            Ok(headers) => Ok((headers, k)),
            Err(e) => Err(e),
        };
        assert(parse_outcome(d, lines, state, res)) by {
            reveal(parse_outcome);
        }
        res
    }
}

} // verus!
