//! Frame definitions as the header section of a log declares them and as
//! `Headers` keeps them: for each kind of frame, its fields with their
//! predictor, encoding, signedness and unit.
//!
//! Each definition header lists one property of every field, separated by
//! commas. The lists are read side by side, field by field, and a field is
//! taken in only when every list still has an entry for it.

use vstd::prelude::*;

use crate::frame_defs::{
    column_lens, column_texts, column_valid, def_header_parts, first_bad, first_bad_in_row,
    first_missing, first_with_len, frame_kind_of, frame_property_of, header_columns,
    lemma_first_with_len, lemma_min_len, min_len, Column, FrameKind, FrameProperty,
};
use crate::headers::{DataFrameKind, ParseError};
use crate::predictor::Predictor;
use crate::text::{pieces, split_all, split_once, string_text, strip_prefix, text, texts, to_string};

pub mod gps;
pub mod gps_home;
pub mod main;
pub mod slow;

verus! {

/// The kind of data frame that the letter `b` names.
pub open spec fn data_frame_kind_of(b: Seq<u8>) -> Option<DataFrameKind> {
    match frame_kind_of(b) {
        Some(FrameKind::Intra) => Some(DataFrameKind::Intra),
        Some(FrameKind::Inter) => Some(DataFrameKind::Inter),
        Some(FrameKind::Slow) => Some(DataFrameKind::Slow),
        Some(FrameKind::Gps) => Some(DataFrameKind::Gps),
        Some(FrameKind::GpsHome) => Some(DataFrameKind::GpsHome),
        None => None,
    }
}

/// The kind of frame and the property that the header `h` defines, when it
/// is a frame definition header: `Field `, a frame letter, a space and the
/// name of a property.
pub open spec fn frame_def_header_of(h: Seq<u8>) -> Option<(DataFrameKind, FrameProperty)> {
    match def_header_parts(h) {
        Some((kind, property)) => match (data_frame_kind_of(kind), frame_property_of(property)) {
            (Some(k), Some(p)) => Some((k, p)),
            _ => None,
        },
        None => None,
    }
}

/// Reads the kind of frame and the property that a frame definition header
/// defines.
pub fn parse_frame_def_header(header: &str) -> (res: Option<(DataFrameKind, FrameProperty)>)
    ensures
        res == frame_def_header_of(text(header)),
{
    proof {
        reveal_strlit("Field ");
        crate::text::lemma_ascii_text("Field ");
    }
    let rest = match strip_prefix(header, "Field ") {
        Some(rest) => rest,
        None => return None,
    };
    proof {
        crate::text::lemma_find(text(rest), 0x20);
    }
    let (kind, property) = match split_once(rest, 0x20) {
        Some(parts) => parts,
        None => return None,
    };
    let kind = match FrameKind::from_str(kind) {
        Some(FrameKind::Intra) => DataFrameKind::Intra,
        Some(FrameKind::Inter) => DataFrameKind::Inter,
        Some(FrameKind::Slow) => DataFrameKind::Slow,
        Some(FrameKind::Gps) => DataFrameKind::Gps,
        Some(FrameKind::GpsHome) => DataFrameKind::GpsHome,
        None => return None,
    };
    match FrameProperty::from_str(property) {
        Some(p) => Some((kind, p)),
        None => None,
    }
}

/// Whether `header` is a frame definition header.
pub fn is_frame_def_header(header: &str) -> (b: bool)
    ensures
        b == frame_def_header_of(text(header)) is Some,
{
    parse_frame_def_header(header).is_some()
}

/// What a value of a field stands for.
#[derive(Debug, Clone, Copy, PartialEq, Eq, Hash, Structural)]
pub enum Unit {
    Amperage,
    Voltage,
    Acceleration,
    Rotation,
    FlightMode,
    State,
    FailsafePhase,
    Boolean,
    GpsCoordinate,
    Altitude,
    Velocity,
    GpsHeading,
    Unitless,
}

/// What a frame definition says of one of its fields.
#[derive(Debug, Clone, Copy, PartialEq, Eq)]
pub struct FieldDef<'data, U> {
    pub name: &'data str,
    pub unit: U,
    pub signed: bool,
}

/// Which of the headers that some predictors and units need were given.
#[derive(Debug, Clone, Copy, PartialEq, Eq, Structural)]
pub struct Available {
    pub min_throttle: bool,
    pub motor_0: bool,
    pub gps_home: bool,
    pub vbat_reference: bool,
    pub min_motor: bool,
    pub acceleration: bool,
}

/// Whether the headers that predictor `p` needs were given.
pub open spec fn predictor_available(p: Predictor, a: Available) -> bool {
    match p {
        Predictor::MinThrottle => a.min_throttle,
        Predictor::Motor0 => a.motor_0,
        Predictor::HomeLat | Predictor::HomeLon => a.gps_home,
        Predictor::VBatReference => a.vbat_reference,
        Predictor::MinMotor => a.min_motor,
        _ => true,
    }
}

/// Whether the headers that values of unit `u` need were given.
pub open spec fn unit_available(u: Unit, a: Available) -> bool {
    u != Unit::Acceleration || a.acceleration
}

/// Checks that the headers that predictor `p` needs were given.
pub fn check_predictor(p: Predictor, a: &Available) -> (res: Result<(), ParseError>)
    ensures
        res is Ok <==> predictor_available(p, *a),
        res is Err ==> res matches Err(ParseError::MissingHeader),
{
    let ok = match p {
        Predictor::MinThrottle => a.min_throttle,
        Predictor::Motor0 => a.motor_0,
        Predictor::HomeLat | Predictor::HomeLon => a.gps_home,
        Predictor::VBatReference => a.vbat_reference,
        Predictor::MinMotor => a.min_motor,
        Predictor::Zero
        | Predictor::Previous
        | Predictor::StraightLine
        | Predictor::Average2
        | Predictor::Increment
        | Predictor::FifteenHundred
        | Predictor::LastMainFrameTime => true,
    };
    if ok {
        Ok(())
    } else {
        Err(ParseError::MissingHeader)
    }
}

/// Checks that the headers that values of unit `u` need were given.
pub fn check_unit(u: Unit, a: &Available) -> (res: Result<(), ParseError>)
    ensures
        res is Ok <==> unit_available(u, *a),
        res is Err ==> res matches Err(ParseError::MissingHeader),
{
    let ok = match u {
        Unit::Acceleration => a.acceleration,
        _ => true,
    };
    if ok {
        Ok(())
    } else {
        Err(ParseError::MissingHeader)
    }
}

/// Whether a field is signed: its entry in the `signed` header is `1`.
pub open spec fn signed_entry(b: Seq<u8>) -> bool {
    b == text("1")
}

/// Reads an entry of a `signed` header.
pub fn parse_sign(raw: &str) -> (signed: bool)
    ensures
        signed == signed_entry(text(raw)),
{
    crate::text::str_eq(raw, "1")
}

/// Why a frame definition cannot be built.
#[derive(Debug, Clone, Copy)]
pub enum DefError {
    /// A definition header is missing.
    MissingHeader,
    /// An entry of the header in this column cannot be read.
    InvalidValue(usize),
    /// A field that frames of this kind need is missing or misdefined.
    MissingField(DataFrameKind, &'static str),
    /// The headers list different numbers of fields.
    Malformed(DataFrameKind),
}

/// Whether `err` reports `e` for the headers `values` named `names`.
pub open spec fn def_error_matches(
    e: DefError,
    err: ParseError,
    names: Seq<&'static str>,
    values: Seq<Option<&str>>,
) -> bool {
    match e {
        DefError::MissingHeader => err is MissingHeader,
        DefError::InvalidValue(c) => err matches ParseError::InvalidHeader { header, value }
            && string_text(&header) == text(names[c as int]) && string_text(&value) == text(
            values[c as int]->0,
        ),
        DefError::MissingField(kind, name) => err matches ParseError::MissingField { frame, field }
            && frame == kind && string_text(&field) == text(name),
        DefError::Malformed(kind) => err matches ParseError::MalformedFrameDef(k) && k == kind,
    }
}

/// The error that reports that the entry in column `c` cannot be read.
pub fn invalid_entry(names: &[&'static str], values: &Vec<Option<&str>>, c: usize) -> (err: ParseError)
    requires
        c < names@.len(),
        c < values@.len(),
        values@[c as int] is Some,
    ensures
        def_error_matches(DefError::InvalidValue(c), err, names@, values@),
{
    let value = match values[c] {
        Some(v) => v,
        None => "",
    };
    ParseError::InvalidHeader { header: to_string(names[c]), value: to_string(value) }
}

/// The error that reports a missing or misdefined field.
pub fn missing_field(kind: DataFrameKind, name: &'static str) -> (err: ParseError)
    ensures
        err matches ParseError::MissingField { frame, field } && frame == kind && string_text(
            &field,
        ) == text(name),
{
    ParseError::MissingField { frame: kind, field: to_string(name) }
}

/// Whether column `i` has an entry that reading the columns side by side
/// leaves unread. Reading stops at the first column, in order, that has no
/// more entries; every column before it has given up one entry more than
/// the shortest.
pub open spec fn left_in(lens: Seq<int>, i: int) -> bool {
    let m = min_len(lens);
    if i < first_with_len(lens, m, 0) {
        lens[i] >= m + 2
    } else {
        lens[i] >= m + 1
    }
}

/// Whether any of the first four columns has entries left unread.
pub open spec fn any_left(lens: Seq<int>) -> bool {
    left_in(lens, 0) || left_in(lens, 1) || left_in(lens, 2) || left_in(lens, 3)
}

/// Splits each of the headers `values` into its entries; `None` when one of
/// them is missing.
pub fn split_headers<'data>(values: &Vec<Option<&'data str>>) -> (res: Option<Vec<Vec<&'data str>>>)
    ensures
        first_missing(values@, 0) is Some ==> res is None,
        first_missing(values@, 0) is None ==> (res matches Some(cols) && column_texts(cols@)
            == header_columns(values@) && cols@.len() == values@.len()),
        res is Some ==> forall|i: int| 0 <= i < values@.len() ==> values@[i] is Some,
{
    let mut cols: Vec<Vec<&'data str>> = Vec::new();
    let mut i: usize = 0;
    while i < values.len()
        invariant
            i <= values@.len(),
            first_missing(values@, 0) == first_missing(values@, i as int),
            cols@.len() == i,
            column_texts(cols@) == header_columns(values@).take(i as int),
            forall|j: int| 0 <= j < i ==> values@[j] is Some,
        decreases values@.len() - i,
    {
        match values[i] {
            Some(v) => {
                let ghost before = cols@;
                cols.push(split_all(v, 0x2c));
                assert(column_texts(cols@) =~= header_columns(values@).take(i as int + 1)) by {
                    assert(column_texts(cols@) =~= column_texts(before).push(pieces(text(v), 0x2c)));
                }
            },
            None => {
                return None;
            },
        }
        i += 1;
    }
    assert(header_columns(values@).take(values@.len() as int) =~= header_columns(values@));
    Some(cols)
}

/// The fewest entries of any column.
pub fn fewest_entries(cols: &Vec<Vec<&str>>) -> (m: usize)
    requires
        cols@.len() >= 1,
    ensures
        m == min_len(column_lens(column_texts(cols@))),
{
    let ghost lens = column_lens(column_texts(cols@));
    let mut m: usize = cols[0].len();
    let mut i: usize = 1;
    assert(lens.take(1) =~= seq![lens[0]]);
    while i < cols.len()
        invariant
            1 <= i <= cols@.len() == lens.len(),
            lens == column_lens(column_texts(cols@)),
            m == min_len(lens.take(i as int)),
        decreases cols@.len() - i,
    {
        assert(lens[i as int] == cols@[i as int]@.len());
        assert(lens.take(i as int + 1).drop_last() =~= lens.take(i as int));
        if cols[i].len() < m {
            m = cols[i].len();
        }
        i += 1;
    }
    assert(lens.take(cols@.len() as int) =~= lens);
    m
}

/// Whether column `i` has entries left unread once the columns are read
/// side by side.
pub fn entries_left(cols: &Vec<Vec<&str>>, i: usize) -> (left: bool)
    requires
        cols@.len() >= 1,
        i < cols@.len(),
    ensures
        left == left_in(column_lens(column_texts(cols@)), i as int),
{
    let ghost lens = column_lens(column_texts(cols@));
    let m = fewest_entries(cols);
    proof {
        lemma_min_len(lens);
        lemma_first_with_len(lens, m as int, 0);
    }
    let ghost fj = first_with_len(lens, m as int, 0);
    let n = cols.len();
    let mut j: usize = 0;
    while cols[j].len() != m
        invariant
            n == cols@.len(),
            j < cols@.len() == lens.len(),
            lens == column_lens(column_texts(cols@)),
            m == min_len(lens),
            fj == first_with_len(lens, m as int, 0),
            j <= fj < lens.len(),
            lens[fj] == m,
            forall|x: int| 0 <= x < j ==> lens[x] != m,
        decreases cols@.len() - j,
    {
        assert(lens[j as int] == cols@[j as int]@.len());
        assert(j < fj);
        j += 1;
    }
    assert(lens[j as int] == cols@[j as int]@.len());
    assert(j == fj);
    assert(lens[i as int] == cols@[i as int]@.len());
    if i < j {
        cols[i].len() - m >= 2
    } else {
        cols[i].len() - m >= 1
    }
}

/// Whether entry `b` of a column of kind `c` can be read.
pub fn entry_valid(c: Column, b: &str) -> (ok: bool)
    ensures
        ok == column_valid(c, text(b)),
{
    match c {
        Column::Name => true,
        Column::Predictor => Predictor::from_num_str(b).is_some(),
        Column::Encoding => crate::decode::Encoding::from_num_str(b).is_some(),
        Column::Signed => crate::frame_defs::parse_signed(b).is_some(),
    }
}

/// The first column of row `k` whose entry cannot be read.
pub fn first_bad_entry_in_row(layout: &[Column], cols: &Vec<Vec<&str>>, k: usize) -> (bad: Option<usize>)
    requires
        layout@.len() == cols@.len(),
        forall|c: int| 0 <= c < cols@.len() ==> k < cols@[c]@.len(),
    ensures
        bad matches Some(c) ==> c < layout@.len(),
        bad matches Some(c) ==> first_bad_in_row(layout@, column_texts(cols@), k as int, 0) == Some(
            c as int,
        ),
        bad is None ==> first_bad_in_row(layout@, column_texts(cols@), k as int, 0) is None,
{
    let ghost tcols = column_texts(cols@);
    let mut c: usize = 0;
    while c < layout.len()
        invariant
            c <= layout@.len() == cols@.len(),
            tcols == column_texts(cols@),
            forall|d: int| 0 <= d < cols@.len() ==> k < cols@[d]@.len(),
            first_bad_in_row(layout@, tcols, k as int, 0) == first_bad_in_row(
                layout@,
                tcols,
                k as int,
                c as int,
            ),
        decreases layout@.len() - c,
    {
        assert(texts(cols@[c as int]@)[k as int] == text(cols@[c as int]@[k as int]));
        if !entry_valid(layout[c], cols[c][k]) {
            return Some(c);
        }
        c += 1;
    }
    None
}

/// The first column, row by row from row `k` up to row `m`, whose entry
/// cannot be read.
pub fn first_bad_entry(layout: &[Column], cols: &Vec<Vec<&str>>, k: usize, m: usize) -> (bad: Option<usize>)
    requires
        layout@.len() == cols@.len(),
        k <= m,
        forall|c: int| 0 <= c < cols@.len() ==> m <= cols@[c]@.len(),
    ensures
        bad matches Some(c) ==> c < layout@.len(),
        bad matches Some(c) ==> first_bad(layout@, column_texts(cols@), k as int, m as int) == Some(
            c as int,
        ),
        bad is None ==> first_bad(layout@, column_texts(cols@), k as int, m as int) is None,
{
    let ghost tcols = column_texts(cols@);
    let mut r: usize = k;
    while r < m
        invariant
            k <= r <= m,
            layout@.len() == cols@.len(),
            tcols == column_texts(cols@),
            forall|c: int| 0 <= c < cols@.len() ==> m <= cols@[c]@.len(),
            first_bad(layout@, tcols, k as int, m as int) == first_bad(
                layout@,
                tcols,
                r as int,
                m as int,
            ),
        decreases m - r,
    {
        match first_bad_entry_in_row(layout, cols, r) {
            Some(c) => return Some(c),
            None => {},
        }
        r += 1;
    }
    None
}

/// Every column has at least `m` entries, when `m` is the fewest.
pub proof fn lemma_fewest(cols: Seq<Vec<&str>>)
    requires
        cols.len() >= 1,
    ensures
        forall|c: int|
            0 <= c < cols.len() ==> min_len(column_lens(column_texts(cols))) <= cols[c]@.len(),
{
    let lens = column_lens(column_texts(cols));
    lemma_min_len(lens);
    assert forall|c: int| 0 <= c < cols.len() implies min_len(lens) <= cols[c]@.len() by {
        assert(lens[c] == cols[c]@.len());
    }
}

} // verus!
