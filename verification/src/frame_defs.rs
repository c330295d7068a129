//! Frame definitions: the `Field <kind> <property>` headers that list, for
//! each kind of frame, the names, predictors, encodings and signedness of its
//! fields.

use vstd::prelude::*;
use vstd::utf8::{decode_utf8, encode_utf8};

use crate::decode::{encoding_of_num, Encoding};
use crate::predictor::{predictor_of_num, Predictor};
use crate::text::{
    decimal, find, pieces, split_all, split_once, str_eq, string_text, strip_prefix, strip_suffix,
    text, texts, to_string, NumberError,
};

verus! {

/// Why a frame definition header could not be read.
#[derive(Debug, Clone)]
pub enum ParseError {
    /// The letter after `Field ` names no kind of frame.
    InvalidFrameType(String),
    /// The word after the frame kind names no property.
    InvalidFrameProperty(String),
}

/// Why the frame definition of a kind of frame could not be built.
#[derive(Debug, Clone, Copy, PartialEq, Eq)]
pub enum BuildError {
    /// None of the frame's definition headers was given.
    NotDeclared,
    /// The named header is missing.
    MissingHeader(&'static str),
    /// The named header holds a value that cannot be read.
    InvalidValue(&'static str),
    /// The definition headers list different numbers of fields.
    UnmatchedLengths,
}

/// The kinds of frames whose fields are defined in the headers.
#[derive(Debug, Clone, Copy, PartialEq, Eq, Structural)]
pub enum FrameKind {
    Intra,
    Inter,
    Slow,
    Gps,
    GpsHome,
}

/// The frame kind that the letter `b` names.
pub open spec fn frame_kind_of(b: Seq<u8>) -> Option<FrameKind> {
    if b.len() != 1 {
        None
    } else if b[0] == 0x49 {
        Some(FrameKind::Intra)
    } else if b[0] == 0x50 {
        Some(FrameKind::Inter)
    } else if b[0] == 0x53 {
        Some(FrameKind::Slow)
    } else if b[0] == 0x47 {
        Some(FrameKind::Gps)
    } else if b[0] == 0x48 {
        Some(FrameKind::GpsHome)
    } else {
        None
    }
}

impl FrameKind {
    /// Reads the one-letter name of a kind of frame: `I`, `P`, `S`, `G` or
    /// `H`.
    pub fn from_str(s: &str) -> (kind: Option<Self>)
        ensures
            kind == frame_kind_of(text(s)),
    {
        let b = s.as_bytes();
        if b.len() != 1 {
            return None;
        }
        let c = b[0];
        if c == 0x49 {
            Some(FrameKind::Intra)
        } else if c == 0x50 {
            Some(FrameKind::Inter)
        } else if c == 0x53 {
            Some(FrameKind::Slow)
        } else if c == 0x47 {
            Some(FrameKind::Gps)
        } else if c == 0x48 {
            Some(FrameKind::GpsHome)
        } else {
            None
        }
    }
}

/// The properties of fields that frame definition headers list.
#[derive(Debug, Clone, Copy, PartialEq, Eq, Structural)]
pub enum FrameProperty {
    Name,
    Predictor,
    Encoding,
    Signed,
}

/// The property that the word `b` names.
pub open spec fn frame_property_of(b: Seq<u8>) -> Option<FrameProperty> {
    if b == text("name") {
        Some(FrameProperty::Name)
    } else if b == text("predictor") {
        Some(FrameProperty::Predictor)
    } else if b == text("encoding") {
        Some(FrameProperty::Encoding)
    } else if b == text("signed") {
        Some(FrameProperty::Signed)
    } else {
        None
    }
}

impl FrameProperty {
    /// Reads the name of a property.
    pub fn from_str(s: &str) -> (prop: Option<Self>)
        ensures
            prop == frame_property_of(text(s)),
    {
        if str_eq(s, "name") {
            Some(FrameProperty::Name)
        } else if str_eq(s, "predictor") {
            Some(FrameProperty::Predictor)
        } else if str_eq(s, "encoding") {
            Some(FrameProperty::Encoding)
        } else if str_eq(s, "signed") {
            Some(FrameProperty::Signed)
        } else {
            None
        }
    }
}

/// The signedness that `b` stands for: `0` or `1`.
pub open spec fn signed_of(b: Seq<u8>) -> Option<bool> {
    if b == text("0") {
        Some(false)
    } else if b == text("1") {
        Some(true)
    } else {
        None
    }
}

/// Reads the signedness of a field: `0` or `1`.
pub fn parse_signed(raw: &str) -> (signed: Option<bool>)
    ensures
        signed == signed_of(text(raw)),
{
    if str_eq(raw, "0") {
        Some(false)
    } else if str_eq(raw, "1") {
        Some(true)
    } else {
        None
    }
}

/// The index of a field within an array of fields such as `motor[0]`;
/// negative when there is none.
#[derive(Debug, Clone, Copy, PartialEq, Eq, Structural)]
pub struct FieldIndex(pub i8);

impl FieldIndex {
    /// The index, if there is one.
    pub fn get(self) -> (index: Option<u8>)
        ensures
            index == (if self.0 < 0 {
                None
            } else {
                Some(self.0 as u8)
            }),
    {
        if self.0 < 0 {
            None
        } else {
            Some(self.0 as u8)
        }
    }
}

/// A field name split into its base name and index: `motor[2]` is `motor`
/// with index 2. A name without a well-formed index is kept whole with no
/// index; an index over 255 leaves the base name with no index, and one
/// from 128 on is read as a negative byte, so as no index.
pub open spec fn field_name_of(b: Seq<u8>) -> (Seq<u8>, i8) {
    if b.len() == 0 || b.last() != 0x5d {
        (b, -1i8)
    } else {
        let inner = b.drop_last();
        let i = find(inner, 0x5b);
        if i >= inner.len() {
            (b, -1i8)
        } else {
            match decimal(inner.skip(i + 1), 255) {
                Ok(v) => (inner.take(i), v as u8 as i8),
                Err(NumberError::Overflow) => (inner.take(i), -1i8),
                Err(NumberError::Invalid) => (b, -1i8),
            }
        }
    }
}

/// Splits a field name into its base name and index.
pub fn parse_field_name(raw: &str) -> (res: (&str, FieldIndex))
    ensures
        (text(res.0), res.1.0) == field_name_of(text(raw)),
{
    let inner = match strip_suffix(raw, 0x5d) {
        Some(inner) => inner,
        None => return (raw, FieldIndex(-1)),
    };
    proof {
        crate::text::lemma_find(text(inner), 0x5b);
    }
    let (name, index) = match split_once(inner, 0x5b) {
        Some(parts) => parts,
        None => return (raw, FieldIndex(-1)),
    };
    match crate::text::parse_decimal(index.as_bytes(), 255) {
        Ok(v) => (name, FieldIndex(v as u8 as i8)),
        Err(NumberError::Overflow) => (name, FieldIndex(-1)),
        Err(NumberError::Invalid) => (raw, FieldIndex(-1)),
    }
}

/// The name of a field up to its index: `motor` for `motor[2]`.
pub open spec fn raw_kind_of(b: Seq<u8>) -> Seq<u8> {
    b.take(find(b, 0x5b))
}

/// The name of a field up to its index.
pub fn raw_kind(raw_name: &str) -> (kind: &str)
    ensures
        text(kind) == raw_kind_of(text(raw_name)),
{
    proof {
        crate::text::lemma_find(text(raw_name), 0x5b);
    }
    match split_once(raw_name, 0x5b) {
        Some((kind, _)) => kind,
        None => {
            assert(text(raw_name).take(find(text(raw_name), 0x5b)) =~= text(raw_name));
            raw_name
        },
    }
}

/// The meanings of fields that decoding itself needs to know.
#[derive(Debug, Clone, Copy, PartialEq, Eq, Hash, Structural)]
pub enum Kind {
    Motor,
    FailsafePhase,
    HomeLatittude,
    HomeLongitude,
    Unknown,
}

/// Known fields of main frames.
#[derive(Debug, Clone, Copy, PartialEq, Eq, Hash, Structural)]
pub enum MainFieldKind {
    Motor,
    Unknown,
}

/// Known fields of slow frames.
#[derive(Debug, Clone, Copy, PartialEq, Eq, Hash, Structural)]
pub enum SlowFieldKind {
    FailsafePhase,
    Unknown,
}

/// Known fields of GPS frames.
#[derive(Debug, Clone, Copy, PartialEq, Eq, Hash, Structural)]
pub enum GpsFieldKind {
    Unknown,
}

/// Known fields of GPS home frames.
#[derive(Debug, Clone, Copy, PartialEq, Eq, Hash, Structural)]
pub enum GpsHomeFieldKind {
    Latittude,
    Longitude,
    Unknown,
}

/// The main frame field with base name `name`.
pub open spec fn main_kind_of(name: Seq<u8>) -> MainFieldKind {
    if name == text("motor") {
        MainFieldKind::Motor
    } else {
        MainFieldKind::Unknown
    }
}

/// The slow frame field with base name `name`.
pub open spec fn slow_kind_of(name: Seq<u8>) -> SlowFieldKind {
    if name == text("failsafePhase") {
        SlowFieldKind::FailsafePhase
    } else {
        SlowFieldKind::Unknown
    }
}

/// The GPS home frame field with base name `name` and index `index`.
pub open spec fn gps_home_kind_of(name: Seq<u8>, index: i8) -> GpsHomeFieldKind {
    if name == text("GPS_home") && index == 0 {
        GpsHomeFieldKind::Latittude
    } else if name == text("GPS_home") && index == 1 {
        GpsHomeFieldKind::Longitude
    } else {
        GpsHomeFieldKind::Unknown
    }
}

impl MainFieldKind {
    /// The main frame field with base name `name`.
    pub fn new(name: &str, _index: FieldIndex) -> (kind: Self)
        ensures
            kind == main_kind_of(text(name)),
    {
        if str_eq(name, "motor") {
            MainFieldKind::Motor
        } else {
            MainFieldKind::Unknown
        }
    }

    /// The meaning of this field.
    pub fn to_kind(self) -> (kind: Kind)
        ensures
            kind == (match self {
                MainFieldKind::Motor => Kind::Motor,
                MainFieldKind::Unknown => Kind::Unknown,
            }),
    {
        match self {
            MainFieldKind::Motor => Kind::Motor,
            MainFieldKind::Unknown => Kind::Unknown,
        }
    }
}

impl SlowFieldKind {
    /// The slow frame field with base name `name`.
    pub fn new(name: &str, _index: FieldIndex) -> (kind: Self)
        ensures
            kind == slow_kind_of(text(name)),
    {
        if str_eq(name, "failsafePhase") {
            SlowFieldKind::FailsafePhase
        } else {
            SlowFieldKind::Unknown
        }
    }

    /// The meaning of this field.
    pub fn to_kind(self) -> (kind: Kind)
        ensures
            kind == (match self {
                SlowFieldKind::FailsafePhase => Kind::FailsafePhase,
                SlowFieldKind::Unknown => Kind::Unknown,
            }),
    {
        match self {
            SlowFieldKind::FailsafePhase => Kind::FailsafePhase,
            SlowFieldKind::Unknown => Kind::Unknown,
        }
    }
}

impl GpsFieldKind {
    /// No GPS frame field is known.
    pub fn new(_name: &str, _index: FieldIndex) -> (kind: Self)
        ensures
            kind == GpsFieldKind::Unknown,
    {
        GpsFieldKind::Unknown
    }

    /// The meaning of this field.
    pub fn to_kind(self) -> (kind: Kind)
        ensures
            kind == Kind::Unknown,
    {
        Kind::Unknown
    }
}

impl GpsHomeFieldKind {
    /// The GPS home frame field with base name `name` and index `index`:
    /// `GPS_home[0]` is the latitude and `GPS_home[1]` the longitude.
    pub fn new(name: &str, index: FieldIndex) -> (kind: Self)
        ensures
            kind == gps_home_kind_of(text(name), index.0),
    {
        if str_eq(name, "GPS_home") && index.0 == 0 {
            GpsHomeFieldKind::Latittude
        } else if str_eq(name, "GPS_home") && index.0 == 1 {
            GpsHomeFieldKind::Longitude
        } else {
            GpsHomeFieldKind::Unknown
        }
    }

    /// The meaning of this field.
    pub fn to_kind(self) -> (kind: Kind)
        ensures
            kind == (match self {
                GpsHomeFieldKind::Latittude => Kind::HomeLatittude,
                GpsHomeFieldKind::Longitude => Kind::HomeLongitude,
                GpsHomeFieldKind::Unknown => Kind::Unknown,
            }),
    {
        match self {
            GpsHomeFieldKind::Latittude => Kind::HomeLatittude,
            GpsHomeFieldKind::Longitude => Kind::HomeLongitude,
            GpsHomeFieldKind::Unknown => Kind::Unknown,
        }
    }
}

/// What one header of a frame definition lists for each field.
#[derive(Debug, Clone, Copy, PartialEq, Eq, Structural)]
pub enum Column {
    Name,
    Predictor,
    Encoding,
    Signed,
}

/// Whether `b` is a readable entry of a column of kind `c`.
pub open spec fn column_valid(c: Column, b: Seq<u8>) -> bool {
    match c {
        Column::Name => true,
        Column::Predictor => predictor_of_num(b) is Some,
        Column::Encoding => encoding_of_num(b) is Some,
        Column::Signed => signed_of(b) is Some,
    }
}

/// The smallest of `lens`.
pub open spec fn min_len(lens: Seq<int>) -> int
    decreases lens.len(),
{
    if lens.len() == 0 {
        0
    } else if lens.len() == 1 {
        lens[0]
    } else {
        let m = min_len(lens.drop_last());
        if lens.last() < m {
            lens.last()
        } else {
            m
        }
    }
}

/// The first index from `i` on whose length is `m`.
pub open spec fn first_with_len(lens: Seq<int>, m: int, i: int) -> int
    decreases lens.len() - i,
{
    if i < 0 || i >= lens.len() {
        lens.len() as int
    } else if lens[i] == m {
        i
    } else {
        first_with_len(lens, m, i + 1)
    }
}

/// Whether reading the columns side by side leaves an entry unread. The
/// columns are read as zipped iterators, asked in turn for their next entry
/// and stopped by the first that has none; each column asked before that
/// one has given up one more entry, which is lost. So the check finds a
/// column with two more entries than the shortest before the first shortest
/// one, or one more after it.
pub open spec fn leftover(lens: Seq<int>) -> bool {
    let m = min_len(lens);
    let j = first_with_len(lens, m, 0);
    (exists|i: int| 0 <= i < j && lens[i] >= m + 2) || (exists|i: int|
        j < i < lens.len() && lens[i] >= m + 1)
}

/// The first column from `c` on whose entry in row `k` cannot be read.
pub open spec fn first_bad_in_row(
    layout: Seq<Column>,
    cols: Seq<Seq<Seq<u8>>>,
    k: int,
    c: int,
) -> Option<int>
    decreases layout.len() - c,
{
    if c < 0 || c >= layout.len() {
        None
    } else if !column_valid(layout[c], cols[c][k]) {
        Some(c)
    } else {
        first_bad_in_row(layout, cols, k, c + 1)
    }
}

/// The column of the first entry that cannot be read, going row by row
/// from row `k` up to row `m`.
pub open spec fn first_bad(layout: Seq<Column>, cols: Seq<Seq<Seq<u8>>>, k: int, m: int) -> Option<int>
    decreases m - k,
{
    if k < 0 || k >= m {
        None
    } else {
        match first_bad_in_row(layout, cols, k, 0) {
            Some(c) => Some(c),
            None => first_bad(layout, cols, k + 1, m),
        }
    }
}

/// The first header from `i` on that is missing.
pub open spec fn first_missing(values: Seq<Option<&str>>, i: int) -> Option<int>
    decreases values.len() - i,
{
    if i < 0 || i >= values.len() {
        None
    } else if values[i] is None {
        Some(i)
    } else {
        first_missing(values, i + 1)
    }
}

/// The entries of each given header.
pub open spec fn header_columns(values: Seq<Option<&str>>) -> Seq<Seq<Seq<u8>>> {
    values.map_values(|v: Option<&str>| pieces(text(v->0), 0x2c))
}

/// The number of entries of each column.
pub open spec fn column_lens(cols: Seq<Seq<Seq<u8>>>) -> Seq<int> {
    cols.map_values(|c: Seq<Seq<u8>>| c.len() as int)
}

/// Checking the headers `values` of a frame definition whose columns are
/// laid out as `layout` and named `names`: either the number of fields, or
/// the first problem found.
pub open spec fn columns_outcome(
    values: Seq<Option<&str>>,
    layout: Seq<Column>,
    names: Seq<&'static str>,
) -> Result<int, BuildError> {
    if forall|i: int| 0 <= i < values.len() ==> values[i] is None {
        Err(BuildError::NotDeclared)
    } else {
        match first_missing(values, 0) {
            Some(i) => Err(BuildError::MissingHeader(names[i])),
            None => {
                let cols = header_columns(values);
                let m = min_len(column_lens(cols));
                match first_bad(layout, cols, 0, m) {
                    Some(c) => Err(BuildError::InvalidValue(names[c])),
                    None => if leftover(column_lens(cols)) {
                        Err(BuildError::UnmatchedLengths)
                    } else {
                        Ok(m)
                    },
                }
            },
        }
    }
}

/// The entries of the columns held as lists of texts.
pub open spec fn column_texts(cols: Seq<Vec<&str>>) -> Seq<Seq<Seq<u8>>> {
    cols.map_values(|c: Vec<&str>| texts(c@))
}

/// `min_len` is one of the lengths and no larger than any.
pub proof fn lemma_min_len(lens: Seq<int>)
    requires
        lens.len() > 0,
    ensures
        exists|i: int| 0 <= i < lens.len() && lens[i] == min_len(lens),
        forall|i: int| 0 <= i < lens.len() ==> min_len(lens) <= lens[i],
    decreases lens.len(),
{
    if lens.len() == 1 {
        assert(lens[0] == min_len(lens));
    } else {
        let init = lens.drop_last();
        lemma_min_len(init);
        let i = choose|i: int| 0 <= i < init.len() && init[i] == min_len(init);
        assert(lens[i] == init[i]);
        if lens.last() < min_len(init) {
            assert(lens[lens.len() - 1] == min_len(lens));
        } else {
            assert(lens[i] == min_len(lens));
        }
        assert forall|j: int| 0 <= j < lens.len() implies min_len(lens) <= lens[j] by {
            if j < init.len() {
                assert(lens[j] == init[j]);
            }
        }
    }
}

/// The first index with length `m` exists when some length is `m`, and no
/// index before it has that length.
pub proof fn lemma_first_with_len(lens: Seq<int>, m: int, i: int)
    requires
        0 <= i <= lens.len(),
        exists|j: int| i <= j < lens.len() && lens[j] == m,
    ensures
        i <= first_with_len(lens, m, i) < lens.len(),
        lens[first_with_len(lens, m, i)] == m,
        forall|j: int| i <= j < first_with_len(lens, m, i) ==> lens[j] != m,
    decreases lens.len() - i,
{
    if lens[i] != m {
        let j = choose|j: int| i <= j < lens.len() && lens[j] == m;
        assert(j > i);
        lemma_first_with_len(lens, m, i + 1);
    }
}

/// With nothing unreadable in a row from column `c` on, every entry there can be read.
pub proof fn lemma_row_valid(layout: Seq<Column>, cols: Seq<Seq<Seq<u8>>>, k: int, c: int)
    requires
        0 <= c,
        first_bad_in_row(layout, cols, k, c) is None,
    ensures
        forall|d: int| c <= d < layout.len() ==> column_valid(layout[d], cols[d][k]),
    decreases layout.len() - c,
{
    if c < layout.len() {
        lemma_row_valid(layout, cols, k, c + 1);
    }
}

/// With nothing unreadable from row `k` on, every entry there can be read.
pub proof fn lemma_rows_valid(layout: Seq<Column>, cols: Seq<Seq<Seq<u8>>>, k: int, m: int)
    requires
        0 <= k,
        first_bad(layout, cols, k, m) is None,
    ensures
        forall|r: int, d: int|
            k <= r < m && 0 <= d < layout.len() ==> column_valid(layout[d], cols[d][r]),
    decreases m - k,
{
    if k < m {
        lemma_row_valid(layout, cols, k, 0);
        lemma_rows_valid(layout, cols, k + 1, m);
    }
}

/// Whether entry `b` of a column of kind `c` can be read.
fn check_entry(c: Column, b: &str) -> (ok: bool)
    ensures
        ok == column_valid(c, text(b)),
{
    match c {
        Column::Name => true,
        Column::Predictor => Predictor::from_num_str(b).is_some(),
        Column::Encoding => Encoding::from_num_str(b).is_some(),
        Column::Signed => parse_signed(b).is_some(),
    }
}

/// Checks the headers `values` of a frame definition whose columns are laid
/// out as `layout` and named `names`, and splits them into their entries.
pub fn check_columns<'data>(
    values: &Vec<Option<&'data str>>,
    layout: &Vec<Column>,
    names: &Vec<&'static str>,
) -> (res: Result<(Vec<Vec<&'data str>>, usize), BuildError>)
    requires
        values@.len() == layout@.len() == names@.len(),
        values@.len() >= 1,
    ensures
        match columns_outcome(values@, layout@, names@) {
            Ok(m) => res matches Ok((cols, n)) && n == m && column_texts(cols@) == header_columns(
                values@,
            ),
            Err(e) => res == Err::<(Vec<Vec<&'data str>>, usize), BuildError>(e),
        },
{
    let n = values.len();
    let mut i: usize = 0;
    let mut declared = false;
    while i < n
        invariant
            i <= n == values@.len(),
            declared == exists|j: int| 0 <= j < i && values@[j] is Some,
        decreases n - i,
    {
        if values[i].is_some() {
            declared = true;
        }
        i += 1;
    }
    if !declared {
        return Err(BuildError::NotDeclared);
    }
    let ghost some_declared = !(forall|i: int| 0 <= i < values@.len() ==> values@[i] is None);
    assert(some_declared);
    let mut cols: Vec<Vec<&'data str>> = Vec::new();
    let mut i: usize = 0;
    while i < n
        invariant
            i <= n == values@.len() == names@.len(),
            some_declared == !(forall|i: int| 0 <= i < values@.len() ==> values@[i] is None),
            some_declared,
            first_missing(values@, 0) == first_missing(values@, i as int),
            cols@.len() == i,
            column_texts(cols@) == header_columns(values@).take(i as int),
        decreases n - i,
    {
        match values[i] {
            Some(v) => {
                let ghost before = cols@;
                cols.push(split_all(v, 0x2c));
                assert(column_texts(cols@) =~= header_columns(values@).take(i as int + 1)) by {
                    assert(column_texts(cols@) =~= column_texts(before).push(pieces(text(v), 0x2c)));
                }
            },
            None => {
                return Err(BuildError::MissingHeader(names[i]));
            },
        }
        i += 1;
    }
    assert(first_missing(values@, n as int) is None);
    assert(header_columns(values@).take(n as int) =~= header_columns(values@));
    let ghost tcols = header_columns(values@);
    let ghost lens = column_lens(tcols);
    // the fewest entries in a column
    let mut m: usize = cols[0].len();
    let mut i: usize = 1;
    assert(lens.take(1) =~= seq![lens[0]]);
    while i < n
        invariant
            1 <= i <= n == cols@.len() == lens.len(),
            column_texts(cols@) == tcols,
            lens == column_lens(tcols),
            m == min_len(lens.take(i as int)),
        decreases n - i,
    {
        assert(cols@[i as int]@.len() == tcols[i as int].len());
        assert(lens.take(i as int + 1).drop_last() =~= lens.take(i as int));
        if cols[i].len() < m {
            m = cols[i].len();
        }
        i += 1;
    }
    assert(lens.take(n as int) =~= lens);
    proof {
        lemma_min_len(lens);
        lemma_first_with_len(lens, m as int, 0);
    }
    let ghost outcome = match first_bad(layout@, tcols, 0, m as int) {
        Some(c) => Err(BuildError::InvalidValue(names@[c])),
        None => if leftover(lens) {
            Err(BuildError::UnmatchedLengths)
        } else {
            Ok(m as int)
        },
    };
    assert(columns_outcome(values@, layout@, names@) == outcome);
    // every entry of the first m rows can be read
    let mut k: usize = 0;
    while k < m
        invariant
            k <= m == min_len(lens),
            n == cols@.len() == layout@.len() == names@.len() == lens.len(),
            n >= 1,
            column_texts(cols@) == tcols,
            lens == column_lens(tcols),
            forall|j: int| 0 <= j < lens.len() ==> min_len(lens) <= lens[j],
            columns_outcome(values@, layout@, names@) == outcome,
            outcome == (match first_bad(layout@, tcols, 0, m as int) {
                Some(c) => Err(BuildError::InvalidValue(names@[c])),
                None => if leftover(lens) {
                    Err(BuildError::UnmatchedLengths)
                } else {
                    Ok(m as int)
                },
            }),
            first_bad(layout@, tcols, 0, m as int) == first_bad(layout@, tcols, k as int, m as int),
        decreases m - k,
    {
        let mut c: usize = 0;
        while c < n
            invariant
                k < m == min_len(lens),
                c <= n == cols@.len() == layout@.len() == names@.len() == lens.len(),
                column_texts(cols@) == tcols,
                lens == column_lens(tcols),
                forall|j: int| 0 <= j < lens.len() ==> min_len(lens) <= lens[j],
                columns_outcome(values@, layout@, names@) == outcome,
                outcome == (match first_bad(layout@, tcols, 0, m as int) {
                    Some(c) => Err(BuildError::InvalidValue(names@[c])),
                    None => if leftover(lens) {
                        Err(BuildError::UnmatchedLengths)
                    } else {
                        Ok(m as int)
                    },
                }),
                first_bad(layout@, tcols, 0, m as int) == first_bad(layout@, tcols, k as int, m as int),
                first_bad_in_row(layout@, tcols, k as int, 0) == first_bad_in_row(
                    layout@,
                    tcols,
                    k as int,
                    c as int,
                ),
            decreases n - c,
        {
            assert(lens[c as int] == cols@[c as int]@.len());
            assert(texts(cols@[c as int]@)[k as int] == text(cols@[c as int]@[k as int]));
            if !check_entry(layout[c], cols[c][k]) {
                assert(first_bad_in_row(layout@, tcols, k as int, c as int) == Some(c as int));
                assert(first_bad(layout@, tcols, k as int, m as int) == Some(c as int));
                return Err(BuildError::InvalidValue(names[c]));
            }
            c += 1;
        }
        assert(first_bad_in_row(layout@, tcols, k as int, n as int) is None);
        k += 1;
    }
    assert(first_bad(layout@, tcols, 0, m as int) is None);
    // no column has entries left unread
    let ghost fj = first_with_len(lens, m as int, 0);
    let mut j: usize = 0;
    while cols[j].len() != m
        invariant
            j < n == cols@.len() == lens.len(),
            column_texts(cols@) == tcols,
            lens == column_lens(tcols),
            m == min_len(lens),
            fj == first_with_len(lens, m as int, 0),
            j <= fj < lens.len(),
            lens[fj] == m,
            forall|x: int| 0 <= x < j ==> lens[x] != m,
        decreases n - j,
    {
        assert(lens[j as int] == cols@[j as int]@.len());
        j += 1;
    }
    assert(lens[j as int] == cols@[j as int]@.len());
    assert(j == fj) by {
        lemma_first_with_len(lens, m as int, 0);
    }
    let mut i: usize = 0;
    while i < n
        invariant
            i <= n == cols@.len() == lens.len(),
            j < n,
            column_texts(cols@) == tcols,
            lens == column_lens(tcols),
            m == min_len(lens),
            forall|x: int| 0 <= x < lens.len() ==> min_len(lens) <= lens[x],
            j == first_with_len(lens, m as int, 0),
            columns_outcome(values@, layout@, names@) == outcome,
            outcome == (if leftover(lens) {
                Err(BuildError::UnmatchedLengths)
            } else {
                Ok(m as int)
            }),
            forall|x: int| 0 <= x < i ==> (x < j ==> lens[x] < m + 2) && (x > j ==> lens[x] < m + 1),
        decreases n - i,
    {
        assert(lens[i as int] == cols@[i as int]@.len());
        if i < j && cols[i].len() - m >= 2 {
            assert(leftover(lens));
            return Err(BuildError::UnmatchedLengths);
        }
        if i > j && cols[i].len() - m >= 1 {
            assert(leftover(lens));
            return Err(BuildError::UnmatchedLengths);
        }
        i += 1;
    }
    assert(!leftover(lens));
    Ok((cols, m))
}

/// A field of main frames, as its definition headers give it.
#[derive(Debug, Clone, Copy)]
pub struct MainField<'data> {
    pub raw_name: &'data str,
    pub kind: MainFieldKind,
    pub index: FieldIndex,
    pub predictor_intra: Predictor,
    pub predictor_inter: Predictor,
    pub encoding_intra: Encoding,
    pub encoding_inter: Encoding,
    pub signed: bool,
}

/// A field of slow, GPS or GPS home frames, as its definition headers give it.
#[derive(Debug, Clone, Copy)]
pub struct CommonField<'data, K> {
    pub raw_name: &'data str,
    pub kind: K,
    pub index: FieldIndex,
    pub predictor: Predictor,
    pub encoding: Encoding,
    pub signed: bool,
}

/// A field of slow frames.
pub type SlowField<'data> = CommonField<'data, SlowFieldKind>;

/// A field of GPS frames.
pub type GpsField<'data> = CommonField<'data, GpsFieldKind>;

/// A field of GPS home frames.
pub type GpsHomeField<'data> = CommonField<'data, GpsHomeFieldKind>;

/// What can be asked of a field of any kind of frame.
pub trait Field {
    /// The meanings that fields of this kind of frame can have.
    type Kind: Copy;

    fn kind(&self) -> Self::Kind;

    fn index(&self) -> Option<u8>;

    fn raw_kind(&self) -> &str;

    fn raw_name(&self) -> &str;

    fn signed(&self) -> bool;
}

impl<'data> Field for MainField<'data> {
    type Kind = MainFieldKind;

    /// The meaning of the field.
    fn kind(&self) -> (k: MainFieldKind)
        ensures
            k == self.kind,
    {
        self.kind
    }

    /// The index of the field within its array, if it has one.
    fn index(&self) -> (i: Option<u8>)
        ensures
            i == index_of(self.index),
    {
        self.index.get()
    }

    /// The name of the field up to its index.
    fn raw_kind(&self) -> (k: &str)
        ensures
            text(k) == raw_kind_of(text(self.raw_name)),
    {
        raw_kind(self.raw_name)
    }

    /// The whole name of the field.
    fn raw_name(&self) -> (n: &str)
        ensures
            n == self.raw_name,
    {
        self.raw_name
    }

    /// Whether the field's values are signed.
    fn signed(&self) -> (b: bool)
        ensures
            b == self.signed,
    {
        self.signed
    }
}

impl<'data, K: Copy> Field for CommonField<'data, K> {
    type Kind = K;

    /// The meaning of the field.
    fn kind(&self) -> (k: K)
        ensures
            k == self.kind,
    {
        self.kind
    }

    /// The index of the field within its array, if it has one.
    fn index(&self) -> (i: Option<u8>)
        ensures
            i == index_of(self.index),
    {
        self.index.get()
    }

    /// The name of the field up to its index.
    fn raw_kind(&self) -> (k: &str)
        ensures
            text(k) == raw_kind_of(text(self.raw_name)),
    {
        raw_kind(self.raw_name)
    }

    /// The whole name of the field.
    fn raw_name(&self) -> (n: &str)
        ensures
            n == self.raw_name,
    {
        self.raw_name
    }

    /// Whether the field's values are signed.
    fn signed(&self) -> (b: bool)
        ensures
            b == self.signed,
    {
        self.signed
    }
}

/// Whether `f` is the main frame field that row `k` of the columns
/// (name, intra and inter predictor, intra and inter encoding, signedness)
/// defines.
pub open spec fn main_field_matches(f: MainField, cols: Seq<Seq<Seq<u8>>>, k: int) -> bool {
    let (name, index) = field_name_of(cols[0][k]);
    &&& text(f.raw_name) == cols[0][k]
    &&& f.index.0 == index
    &&& f.kind == main_kind_of(name)
    &&& Some(f.predictor_intra) == predictor_of_num(cols[1][k])
    &&& Some(f.predictor_inter) == predictor_of_num(cols[2][k])
    &&& Some(f.encoding_intra) == encoding_of_num(cols[3][k])
    &&& Some(f.encoding_inter) == encoding_of_num(cols[4][k])
    &&& Some(f.signed) == signed_of(cols[5][k])
}

/// Whether `f` has the name, predictor, encoding and signedness that row `k`
/// of the columns defines.
pub open spec fn common_field_matches<K>(f: CommonField<K>, cols: Seq<Seq<Seq<u8>>>, k: int) -> bool {
    &&& text(f.raw_name) == cols[0][k]
    &&& f.index.0 == field_name_of(cols[0][k]).1
    &&& Some(f.predictor) == predictor_of_num(cols[1][k])
    &&& Some(f.encoding) == encoding_of_num(cols[2][k])
    &&& Some(f.signed) == signed_of(cols[3][k])
}

/// The layout of the main frame definition headers.
pub open spec fn main_layout() -> Seq<Column> {
    seq![
        Column::Name,
        Column::Predictor,
        Column::Predictor,
        Column::Encoding,
        Column::Encoding,
        Column::Signed,
    ]
}

/// The layout of the other frame definition headers.
pub open spec fn common_layout() -> Seq<Column> {
    seq![Column::Name, Column::Predictor, Column::Encoding, Column::Signed]
}

/// The names of the main frame definition headers.
pub open spec fn main_names() -> Seq<&'static str> {
    seq![
        "Field I name",
        "Field I predictor",
        "Field P predictor",
        "Field I encoding",
        "Field P encoding",
        "Field X signed",
    ]
}

/// The names of the slow frame definition headers.
pub open spec fn slow_names() -> Seq<&'static str> {
    seq!["Field S name", "Field S predictor", "Field S encoding", "Field S signed"]
}

/// The names of the GPS frame definition headers.
pub open spec fn gps_names() -> Seq<&'static str> {
    seq!["Field G name", "Field G predictor", "Field G encoding", "Field G signed"]
}

/// The names of the GPS home frame definition headers.
pub open spec fn gps_home_names() -> Seq<&'static str> {
    seq!["Field H name", "Field H predictor", "Field H encoding", "Field H signed"]
}

/// Collects the definition headers of main frames.
#[derive(Debug, Clone, Copy)]
pub struct MainBuilder<'data> {
    pub name: Option<&'data str>,
    pub predictor_intra: Option<&'data str>,
    pub predictor_inter: Option<&'data str>,
    pub encoding_intra: Option<&'data str>,
    pub encoding_inter: Option<&'data str>,
    pub signed: Option<&'data str>,
}

impl<'data> MainBuilder<'data> {
    /// The headers in the order they are read.
    pub open spec fn values(&self) -> Seq<Option<&'data str>> {
        seq![
            self.name,
            self.predictor_intra,
            self.predictor_inter,
            self.encoding_intra,
            self.encoding_inter,
            self.signed,
        ]
    }

    /// No header yet.
    pub fn new() -> (b: Self)
        ensures
            b.values() == seq![None::<&'data str>, None, None, None, None, None],
    {
        MainBuilder {
            name: None,
            predictor_intra: None,
            predictor_inter: None,
            encoding_intra: None,
            encoding_inter: None,
            signed: None,
        }
    }

    /// Records the header for `property` of intra (`is_intra`) or inter
    /// frames; names and signedness are shared by both.
    pub fn update(&mut self, is_intra: bool, property: FrameProperty, value: &'data str)
        ensures
            *final(self) == (match (property, is_intra) {
                (FrameProperty::Name, _) => MainBuilder { name: Some(value), ..*old(self) },
                (FrameProperty::Predictor, true) => MainBuilder {
                    predictor_intra: Some(value),
                    ..*old(self)
                },
                (FrameProperty::Predictor, false) => MainBuilder {
                    predictor_inter: Some(value),
                    ..*old(self)
                },
                (FrameProperty::Encoding, true) => MainBuilder {
                    encoding_intra: Some(value),
                    ..*old(self)
                },
                (FrameProperty::Encoding, false) => MainBuilder {
                    encoding_inter: Some(value),
                    ..*old(self)
                },
                (FrameProperty::Signed, _) => MainBuilder { signed: Some(value), ..*old(self) },
            }),
    {
        match (property, is_intra) {
            (FrameProperty::Name, _) => self.name = Some(value),
            (FrameProperty::Predictor, true) => self.predictor_intra = Some(value),
            (FrameProperty::Predictor, false) => self.predictor_inter = Some(value),
            (FrameProperty::Encoding, true) => self.encoding_intra = Some(value),
            (FrameProperty::Encoding, false) => self.encoding_inter = Some(value),
            (FrameProperty::Signed, _) => self.signed = Some(value),
        }
    }

    /// Builds the fields of main frames from the headers.
    pub fn build(&self) -> (res: Result<Vec<MainField<'data>>, BuildError>)
        ensures
            match columns_outcome(self.values(), main_layout(), main_names()) {
                Ok(m) => res matches Ok(fields) && fields@.len() == m && forall|k: int|
                    0 <= k < m ==> main_field_matches(
                        #[trigger] fields@[k],
                        header_columns(self.values()),
                        k,
                    ),
                Err(e) => res == Err::<Vec<MainField<'data>>, BuildError>(e),
            },
    {
        let values = vec![
            self.name,
            self.predictor_intra,
            self.predictor_inter,
            self.encoding_intra,
            self.encoding_inter,
            self.signed,
        ];
        let layout = vec![
            Column::Name,
            Column::Predictor,
            Column::Predictor,
            Column::Encoding,
            Column::Encoding,
            Column::Signed,
        ];
        let names = vec![
            "Field I name",
            "Field I predictor",
            "Field P predictor",
            "Field I encoding",
            "Field P encoding",
            "Field X signed",
        ];
        assert(values@ == self.values());
        assert(layout@ == main_layout());
        assert(names@ == main_names());
        let (cols, m) = match check_columns(&values, &layout, &names) {
            Ok(checked) => checked,
            Err(e) => return Err(e),
        };
        let ghost tcols = header_columns(self.values());
        proof {
            lemma_rows_valid(main_layout(), tcols, 0, m as int);
            lemma_min_len(column_lens(tcols));
        }
        let mut fields: Vec<MainField<'data>> = Vec::new();
        let mut k: usize = 0;
        while k < m
            invariant
                k <= m == min_len(column_lens(tcols)),
                cols@.len() == 6,
                column_texts(cols@) == tcols,
                forall|j: int| 0 <= j < 6 ==> min_len(column_lens(tcols)) <= column_lens(tcols)[j],
                forall|r: int, d: int|
                    0 <= r < m && 0 <= d < 6 ==> column_valid(main_layout()[d], tcols[d][r]),
                fields@.len() == k,
                forall|r: int| 0 <= r < k ==> main_field_matches(#[trigger] fields@[r], tcols, r),
            decreases m - k,
        {
            assert forall|d: int| 0 <= d < 6 implies k < (#[trigger] cols@[d])@.len() && text(
                cols@[d]@[k as int],
            ) == tcols[d][k as int] by {
                assert(column_lens(tcols)[d] == cols@[d]@.len());
                assert(texts(cols@[d]@)[k as int] == text(cols@[d]@[k as int]));
            }
            assert(column_valid(main_layout()[1], tcols[1][k as int]));
            assert(column_valid(main_layout()[2], tcols[2][k as int]));
            assert(column_valid(main_layout()[3], tcols[3][k as int]));
            assert(column_valid(main_layout()[4], tcols[4][k as int]));
            assert(column_valid(main_layout()[5], tcols[5][k as int]));
            let raw_name = cols[0][k];
            let (name, index) = parse_field_name(raw_name);
            let field = match (
                Predictor::from_num_str(cols[1][k]),
                Predictor::from_num_str(cols[2][k]),
                Encoding::from_num_str(cols[3][k]),
                Encoding::from_num_str(cols[4][k]),
                parse_signed(cols[5][k]),
            ) {
                (Some(pi), Some(pp), Some(ei), Some(ep), Some(signed)) => MainField {
                    raw_name,
                    kind: MainFieldKind::new(name, index),
                    index,
                    predictor_intra: pi,
                    predictor_inter: pp,
                    encoding_intra: ei,
                    encoding_inter: ep,
                    signed,
                },
                _ => {
                    assert(false);
                    return Err(BuildError::UnmatchedLengths);
                },
            };
            fields.push(field);
            k += 1;
        }
        Ok(fields)
    }
}

/// Collects the definition headers of slow, GPS or GPS home frames.
#[derive(Debug, Clone, Copy)]
pub struct CommonBuilder<'data> {
    pub name: Option<&'data str>,
    pub predictor: Option<&'data str>,
    pub encoding: Option<&'data str>,
    pub signed: Option<&'data str>,
}

impl<'data> CommonBuilder<'data> {
    /// The headers in the order they are read.
    pub open spec fn values(&self) -> Seq<Option<&'data str>> {
        seq![self.name, self.predictor, self.encoding, self.signed]
    }

    /// No header yet.
    pub fn new() -> (b: Self)
        ensures
            b.values() == seq![None::<&'data str>, None, None, None],
    {
        CommonBuilder { name: None, predictor: None, encoding: None, signed: None }
    }

    /// Records the header for `property`.
    pub fn update(&mut self, property: FrameProperty, value: &'data str)
        ensures
            *final(self) == (match property {
                FrameProperty::Name => CommonBuilder { name: Some(value), ..*old(self) },
                FrameProperty::Predictor => CommonBuilder { predictor: Some(value), ..*old(self) },
                FrameProperty::Encoding => CommonBuilder { encoding: Some(value), ..*old(self) },
                FrameProperty::Signed => CommonBuilder { signed: Some(value), ..*old(self) },
            }),
    {
        match property {
            FrameProperty::Name => self.name = Some(value),
            FrameProperty::Predictor => self.predictor = Some(value),
            FrameProperty::Encoding => self.encoding = Some(value),
            FrameProperty::Signed => self.signed = Some(value),
        }
    }

    /// Checks the headers, named `names`, and gives each field its name,
    /// index, predictor, encoding and signedness; the kind is left to the
    /// caller.
    fn build_fields(&self, names: Vec<&'static str>) -> (res: Result<
        Vec<CommonField<'data, ()>>,
        BuildError,
    >)
        requires
            names@.len() == 4,
        ensures
            match columns_outcome(self.values(), common_layout(), names@) {
                Ok(m) => res matches Ok(fields) && fields@.len() == m && forall|k: int|
                    0 <= k < m ==> common_field_matches(
                        #[trigger] fields@[k],
                        header_columns(self.values()),
                        k,
                    ),
                Err(e) => res == Err::<Vec<CommonField<'data, ()>>, BuildError>(e),
            },
    {
        let values = vec![self.name, self.predictor, self.encoding, self.signed];
        let layout = vec![Column::Name, Column::Predictor, Column::Encoding, Column::Signed];
        assert(values@ == self.values());
        assert(layout@ == common_layout());
        let (cols, m) = match check_columns(&values, &layout, &names) {
            Ok(checked) => checked,
            Err(e) => return Err(e),
        };
        let ghost tcols = header_columns(self.values());
        proof {
            lemma_rows_valid(common_layout(), tcols, 0, m as int);
            lemma_min_len(column_lens(tcols));
        }
        let mut fields: Vec<CommonField<'data, ()>> = Vec::new();
        let mut k: usize = 0;
        while k < m
            invariant
                k <= m == min_len(column_lens(tcols)),
                cols@.len() == 4,
                column_texts(cols@) == tcols,
                forall|j: int| 0 <= j < 4 ==> min_len(column_lens(tcols)) <= column_lens(tcols)[j],
                forall|r: int, d: int|
                    0 <= r < m && 0 <= d < 4 ==> column_valid(common_layout()[d], tcols[d][r]),
                fields@.len() == k,
                forall|r: int| 0 <= r < k ==> common_field_matches(#[trigger] fields@[r], tcols, r),
            decreases m - k,
        {
            assert forall|d: int| 0 <= d < 4 implies k < (#[trigger] cols@[d])@.len() && text(
                cols@[d]@[k as int],
            ) == tcols[d][k as int] by {
                assert(column_lens(tcols)[d] == cols@[d]@.len());
                assert(texts(cols@[d]@)[k as int] == text(cols@[d]@[k as int]));
            }
            assert(column_valid(common_layout()[1], tcols[1][k as int]));
            assert(column_valid(common_layout()[2], tcols[2][k as int]));
            assert(column_valid(common_layout()[3], tcols[3][k as int]));
            let raw_name = cols[0][k];
            let (_, index) = parse_field_name(raw_name);
            let field = match (
                Predictor::from_num_str(cols[1][k]),
                Encoding::from_num_str(cols[2][k]),
                parse_signed(cols[3][k]),
            ) {
                (Some(predictor), Some(encoding), Some(signed)) => CommonField {
                    raw_name,
                    kind: (),
                    index,
                    predictor,
                    encoding,
                    signed,
                },
                _ => {
                    assert(false);
                    return Err(BuildError::UnmatchedLengths);
                },
            };
            fields.push(field);
            k += 1;
        }
        Ok(fields)
    }
}

/// Collects the definition headers of slow frames.
#[derive(Debug, Clone, Copy)]
pub struct SlowBuilder<'data>(pub CommonBuilder<'data>);

impl<'data> SlowBuilder<'data> {
    /// No header yet.
    pub fn new() -> (b: Self)
        ensures
            b.0.values() == seq![None::<&'data str>, None, None, None],
    {
        SlowBuilder(CommonBuilder::new())
    }

    /// Records the header for `property`.
    pub fn update(&mut self, property: FrameProperty, value: &'data str)
        ensures
            final(self).0 == (match property {
                FrameProperty::Name => CommonBuilder { name: Some(value), ..old(self).0 },
                FrameProperty::Predictor => CommonBuilder { predictor: Some(value), ..old(self).0 },
                FrameProperty::Encoding => CommonBuilder { encoding: Some(value), ..old(self).0 },
                FrameProperty::Signed => CommonBuilder { signed: Some(value), ..old(self).0 },
            }),
    {
        self.0.update(property, value);
    }

    /// Builds the fields of slow frames from the headers.
    pub fn build(&self) -> (res: Result<Vec<SlowField<'data>>, BuildError>)
        ensures
            match columns_outcome(self.0.values(), common_layout(), slow_names()) {
                Ok(m) => res matches Ok(fields) && fields@.len() == m && forall|k: int|
                    0 <= k < m ==> {
                        let f = #[trigger] fields@[k];
                        let cols = header_columns(self.0.values());
                        &&& common_field_matches(f, cols, k)
                        &&& f.kind == slow_kind_of(field_name_of(cols[0][k]).0)
                    },
                Err(e) => res == Err::<Vec<SlowField<'data>>, BuildError>(e),
            },
    {
        let names = vec!["Field S name", "Field S predictor", "Field S encoding", "Field S signed"];
        assert(names@ == slow_names());
        let parts = match self.0.build_fields(names) {
            Ok(parts) => parts,
            Err(e) => return Err(e),
        };
        let ghost cols = header_columns(self.0.values());
        let mut fields: Vec<SlowField<'data>> = Vec::new();
        let mut k: usize = 0;
        while k < parts.len()
            invariant
                k <= parts@.len(),
                forall|r: int| 0 <= r < parts@.len() ==> common_field_matches(#[trigger] parts@[r], cols, r),
                fields@.len() == k,
                forall|r: int| 0 <= r < k ==> {
                    let f = #[trigger] fields@[r];
                    &&& common_field_matches(f, cols, r)
                    &&& f.kind == slow_kind_of(field_name_of(cols[0][r]).0)
                },
            decreases parts@.len() - k,
        {
            let part = parts[k];
            assert(common_field_matches(parts@[k as int], cols, k as int));
            let (name, index) = parse_field_name(part.raw_name);
            fields.push(CommonField {
                raw_name: part.raw_name,
                kind: SlowFieldKind::new(name, index),
                index: part.index,
                predictor: part.predictor,
                encoding: part.encoding,
                signed: part.signed,
            });
            k += 1;
        }
        Ok(fields)
    }
}

/// Collects the definition headers of GPS frames.
#[derive(Debug, Clone, Copy)]
pub struct GpsBuilder<'data>(pub CommonBuilder<'data>);

impl<'data> GpsBuilder<'data> {
    /// No header yet.
    pub fn new() -> (b: Self)
        ensures
            b.0.values() == seq![None::<&'data str>, None, None, None],
    {
        GpsBuilder(CommonBuilder::new())
    }

    /// Records the header for `property`.
    pub fn update(&mut self, property: FrameProperty, value: &'data str)
        ensures
            final(self).0 == (match property {
                FrameProperty::Name => CommonBuilder { name: Some(value), ..old(self).0 },
                FrameProperty::Predictor => CommonBuilder { predictor: Some(value), ..old(self).0 },
                FrameProperty::Encoding => CommonBuilder { encoding: Some(value), ..old(self).0 },
                FrameProperty::Signed => CommonBuilder { signed: Some(value), ..old(self).0 },
            }),
    {
        self.0.update(property, value);
    }

    /// Builds the fields of GPS frames from the headers.
    pub fn build(&self) -> (res: Result<Vec<GpsField<'data>>, BuildError>)
        ensures
            match columns_outcome(self.0.values(), common_layout(), gps_names()) {
                Ok(m) => res matches Ok(fields) && fields@.len() == m && forall|k: int|
                    0 <= k < m ==> {
                        let f = #[trigger] fields@[k];
                        let cols = header_columns(self.0.values());
                        &&& common_field_matches(f, cols, k)
                        &&& f.kind == GpsFieldKind::Unknown
                    },
                Err(e) => res == Err::<Vec<GpsField<'data>>, BuildError>(e),
            },
    {
        let names = vec!["Field G name", "Field G predictor", "Field G encoding", "Field G signed"];
        assert(names@ == gps_names());
        let parts = match self.0.build_fields(names) {
            Ok(parts) => parts,
            Err(e) => return Err(e),
        };
        let ghost cols = header_columns(self.0.values());
        let mut fields: Vec<GpsField<'data>> = Vec::new();
        let mut k: usize = 0;
        while k < parts.len()
            invariant
                k <= parts@.len(),
                forall|r: int| 0 <= r < parts@.len() ==> common_field_matches(#[trigger] parts@[r], cols, r),
                fields@.len() == k,
                forall|r: int| 0 <= r < k ==> {
                    let f = #[trigger] fields@[r];
                    &&& common_field_matches(f, cols, r)
                    &&& f.kind == GpsFieldKind::Unknown
                },
            decreases parts@.len() - k,
        {
            let part = parts[k];
            assert(common_field_matches(parts@[k as int], cols, k as int));
            let (name, index) = parse_field_name(part.raw_name);
            fields.push(CommonField {
                raw_name: part.raw_name,
                kind: GpsFieldKind::new(name, index),
                index: part.index,
                predictor: part.predictor,
                encoding: part.encoding,
                signed: part.signed,
            });
            k += 1;
        }
        Ok(fields)
    }
}

/// Collects the definition headers of GPS home frames.
#[derive(Debug, Clone, Copy)]
pub struct GpsHomeBuilder<'data>(pub CommonBuilder<'data>);

impl<'data> GpsHomeBuilder<'data> {
    /// No header yet.
    pub fn new() -> (b: Self)
        ensures
            b.0.values() == seq![None::<&'data str>, None, None, None],
    {
        GpsHomeBuilder(CommonBuilder::new())
    }

    /// Records the header for `property`.
    pub fn update(&mut self, property: FrameProperty, value: &'data str)
        ensures
            final(self).0 == (match property {
                FrameProperty::Name => CommonBuilder { name: Some(value), ..old(self).0 },
                FrameProperty::Predictor => CommonBuilder { predictor: Some(value), ..old(self).0 },
                FrameProperty::Encoding => CommonBuilder { encoding: Some(value), ..old(self).0 },
                FrameProperty::Signed => CommonBuilder { signed: Some(value), ..old(self).0 },
            }),
    {
        self.0.update(property, value);
    }

    /// Builds the fields of GPS home frames from the headers.
    pub fn build(&self) -> (res: Result<Vec<GpsHomeField<'data>>, BuildError>)
        ensures
            match columns_outcome(self.0.values(), common_layout(), gps_home_names()) {
                Ok(m) => res matches Ok(fields) && fields@.len() == m && forall|k: int|
                    0 <= k < m ==> {
                        let f = #[trigger] fields@[k];
                        let cols = header_columns(self.0.values());
                        &&& common_field_matches(f, cols, k)
                        &&& f.kind == gps_home_kind_of(field_name_of(cols[0][k]).0, field_name_of(cols[0][k]).1)
                    },
                Err(e) => res == Err::<Vec<GpsHomeField<'data>>, BuildError>(e),
            },
    {
        let names = vec!["Field H name", "Field H predictor", "Field H encoding", "Field H signed"];
        assert(names@ == gps_home_names());
        let parts = match self.0.build_fields(names) {
            Ok(parts) => parts,
            Err(e) => return Err(e),
        };
        let ghost cols = header_columns(self.0.values());
        let mut fields: Vec<GpsHomeField<'data>> = Vec::new();
        let mut k: usize = 0;
        while k < parts.len()
            invariant
                k <= parts@.len(),
                forall|r: int| 0 <= r < parts@.len() ==> common_field_matches(#[trigger] parts@[r], cols, r),
                fields@.len() == k,
                forall|r: int| 0 <= r < k ==> {
                    let f = #[trigger] fields@[r];
                    &&& common_field_matches(f, cols, r)
                    &&& f.kind == gps_home_kind_of(field_name_of(cols[0][r]).0, field_name_of(cols[0][r]).1)
                },
            decreases parts@.len() - k,
        {
            let part = parts[k];
            assert(common_field_matches(parts@[k as int], cols, k as int));
            let (name, index) = parse_field_name(part.raw_name);
            fields.push(CommonField {
                raw_name: part.raw_name,
                kind: GpsHomeFieldKind::new(name, index),
                index: part.index,
                predictor: part.predictor,
                encoding: part.encoding,
                signed: part.signed,
            });
            k += 1;
        }
        Ok(fields)
    }
}

/// The frame kind and property that `h` names, if it is a frame definition
/// header: `Field <kind> <property>`.
pub open spec fn def_header_parts(h: Seq<u8>) -> Option<(Seq<u8>, Seq<u8>)> {
    let prefix = text("Field ");
    if h.len() >= prefix.len() && h.take(prefix.len() as int) == prefix {
        let rest = h.skip(prefix.len() as int);
        let i = find(rest, 0x20);
        if i < rest.len() {
            Some((rest.take(i), rest.skip(i + 1)))
        } else {
            None
        }
    } else {
        None
    }
}

/// The common builder after recording `value` for `property`.
pub open spec fn common_updated<'data>(
    b: CommonBuilder<'data>,
    property: FrameProperty,
    value: &'data str,
) -> CommonBuilder<'data> {
    match property {
        FrameProperty::Name => CommonBuilder { name: Some(value), ..b },
        FrameProperty::Predictor => CommonBuilder { predictor: Some(value), ..b },
        FrameProperty::Encoding => CommonBuilder { encoding: Some(value), ..b },
        FrameProperty::Signed => CommonBuilder { signed: Some(value), ..b },
    }
}

/// The main builder after recording `value` for `property` of intra
/// (`is_intra`) or inter frames.
pub open spec fn main_updated<'data>(
    b: MainBuilder<'data>,
    is_intra: bool,
    property: FrameProperty,
    value: &'data str,
) -> MainBuilder<'data> {
    match (property, is_intra) {
        (FrameProperty::Name, _) => MainBuilder { name: Some(value), ..b },
        (FrameProperty::Predictor, true) => MainBuilder { predictor_intra: Some(value), ..b },
        (FrameProperty::Predictor, false) => MainBuilder { predictor_inter: Some(value), ..b },
        (FrameProperty::Encoding, true) => MainBuilder { encoding_intra: Some(value), ..b },
        (FrameProperty::Encoding, false) => MainBuilder { encoding_inter: Some(value), ..b },
        (FrameProperty::Signed, _) => MainBuilder { signed: Some(value), ..b },
    }
}

/// Collects the frame definition headers of all kinds of frames.
#[derive(Debug, Clone, Copy)]
pub struct FrameDefBuilders<'data> {
    pub main: MainBuilder<'data>,
    pub slow: SlowBuilder<'data>,
    pub gps: GpsBuilder<'data>,
    pub gps_home: GpsHomeBuilder<'data>,
}

/// The builders after recording `value` for `property` of frames of kind
/// `kind`.
pub open spec fn builders_updated<'data>(
    b: FrameDefBuilders<'data>,
    kind: FrameKind,
    property: FrameProperty,
    value: &'data str,
) -> FrameDefBuilders<'data> {
    match kind {
        FrameKind::Intra => FrameDefBuilders { main: main_updated(b.main, true, property, value), ..b },
        FrameKind::Inter => FrameDefBuilders { main: main_updated(b.main, false, property, value), ..b },
        FrameKind::Slow => FrameDefBuilders {
            slow: SlowBuilder(common_updated(b.slow.0, property, value)),
            ..b
        },
        FrameKind::Gps => FrameDefBuilders {
            gps: GpsBuilder(common_updated(b.gps.0, property, value)),
            ..b
        },
        FrameKind::GpsHome => FrameDefBuilders {
            gps_home: GpsHomeBuilder(common_updated(b.gps_home.0, property, value)),
            ..b
        },
    }
}

/// The fields of each kind of frame. GPS and GPS home frames may be left
/// undeclared.
#[derive(Debug, Clone)]
pub struct FrameDefs<'data> {
    pub main: Vec<MainField<'data>>,
    pub slow: Vec<SlowField<'data>>,
    pub gps: Option<Vec<GpsField<'data>>>,
    pub gps_home: Option<Vec<GpsHomeField<'data>>>,
}

/// Whether `res` is what building the frame definitions from `b` comes to:
/// the first error of main, then slow frames; then an error of GPS or GPS
/// home frames other than their not being declared; else the fields of each
/// kind, each read from its column of the definition headers, with GPS and
/// GPS home frames left out when they are not declared.
pub open spec fn defs_built<'data>(
    b: FrameDefBuilders<'data>,
    res: Result<FrameDefs<'data>, BuildError>,
) -> bool {
    match (
        columns_outcome(b.main.values(), main_layout(), main_names()),
        columns_outcome(b.slow.0.values(), common_layout(), slow_names()),
        columns_outcome(b.gps.0.values(), common_layout(), gps_names()),
        columns_outcome(b.gps_home.0.values(), common_layout(), gps_home_names()),
    ) {
        (Err(e), _, _, _) => res == Err::<FrameDefs<'data>, BuildError>(e),
        (Ok(_), Err(e), _, _) => res == Err::<FrameDefs<'data>, BuildError>(e),
        (Ok(_), Ok(_), Err(e), _) if e != BuildError::NotDeclared => res == Err::<
            FrameDefs<'data>,
            BuildError,
        >(e),
        (Ok(_), Ok(_), _, Err(e)) if e != BuildError::NotDeclared => res == Err::<
            FrameDefs<'data>,
            BuildError,
        >(e),
        (Ok(m), Ok(n), g, h) => res matches Ok(defs) && {
            &&& defs.main@.len() == m
            &&& forall|k: int|
                0 <= k < m ==> main_field_matches(
                    #[trigger] defs.main@[k],
                    header_columns(b.main.values()),
                    k,
                )
            &&& defs.slow@.len() == n
            &&& forall|k: int|
                0 <= k < n ==> {
                    let f = #[trigger] defs.slow@[k];
                    let cols = header_columns(b.slow.0.values());
                    &&& common_field_matches(f, cols, k)
                    &&& f.kind == slow_kind_of(field_name_of(cols[0][k]).0)
                }
            &&& (defs.gps is Some <==> g is Ok)
            &&& (defs.gps_home is Some <==> h is Ok)
            &&& (defs.gps matches Some(v) ==> {
                &&& v@.len() == g->Ok_0
                &&& forall|k: int|
                    0 <= k < g->Ok_0 ==> {
                        let f = #[trigger] v@[k];
                        &&& common_field_matches(f, header_columns(b.gps.0.values()), k)
                        &&& f.kind == GpsFieldKind::Unknown
                    }
            })
            &&& (defs.gps_home matches Some(v) ==> {
                let cols = header_columns(b.gps_home.0.values());
                &&& v@.len() == h->Ok_0
                &&& forall|k: int|
                    0 <= k < h->Ok_0 ==> {
                        let f = #[trigger] v@[k];
                        &&& common_field_matches(f, cols, k)
                        &&& f.kind == gps_home_kind_of(
                            field_name_of(cols[0][k]).0,
                            field_name_of(cols[0][k]).1,
                        )
                    }
            })
        },
    }
}

/// Whether two main frame fields agree: the same name, meaning, index,
/// predictors, encodings and signedness.
pub open spec fn same_main_field(f: MainField, g: MainField) -> bool {
    &&& f.raw_name@ == g.raw_name@
    &&& f.kind == g.kind
    &&& f.index == g.index
    &&& f.predictor_intra == g.predictor_intra
    &&& f.predictor_inter == g.predictor_inter
    &&& f.encoding_intra == g.encoding_intra
    &&& f.encoding_inter == g.encoding_inter
    &&& f.signed == g.signed
}

/// Whether two fields of slow, GPS or GPS home frames agree: the same name,
/// meaning, index, predictor, encoding and signedness.
pub open spec fn same_common_field<K>(f: CommonField<K>, g: CommonField<K>) -> bool {
    &&& f.raw_name@ == g.raw_name@
    &&& f.kind == g.kind
    &&& f.index == g.index
    &&& f.predictor == g.predictor
    &&& f.encoding == g.encoding
    &&& f.signed == g.signed
}

/// Whether two lists of fields of slow, GPS or GPS home frames agree field by
/// field.
pub open spec fn same_common_fields<K>(a: Seq<CommonField<K>>, b: Seq<CommonField<K>>) -> bool {
    &&& a.len() == b.len()
    &&& forall|k: int| 0 <= k < a.len() ==> same_common_field(#[trigger] a[k], b[k])
}

/// Whether two sets of frame definitions agree field by field, with GPS and
/// GPS home frames declared in both or in neither.
pub open spec fn same_defs(a: FrameDefs, b: FrameDefs) -> bool {
    &&& a.main@.len() == b.main@.len()
    &&& forall|k: int| 0 <= k < a.main@.len() ==> same_main_field(#[trigger] a.main@[k], b.main@[k])
    &&& same_common_fields(a.slow@, b.slow@)
    &&& (a.gps is Some <==> b.gps is Some)
    &&& (a.gps matches Some(x) ==> same_common_fields(x@, b.gps->0@))
    &&& (a.gps_home is Some <==> b.gps_home is Some)
    &&& (a.gps_home matches Some(x) ==> same_common_fields(x@, b.gps_home->0@))
}

/// Whether two results of building frame definitions agree: the same error,
/// or definitions that agree field by field.
pub open spec fn same_built<'data>(
    a: Result<FrameDefs<'data>, BuildError>,
    b: Result<FrameDefs<'data>, BuildError>,
) -> bool {
    match (a, b) {
        (Ok(x), Ok(y)) => same_defs(x, y),
        (Err(e), Err(f)) => e == f,
        _ => false,
    }
}

/// Building the frame definitions from the same headers has one outcome: the
/// same error, or definitions that agree field by field.
pub proof fn lemma_defs_built_unique<'data>(
    b: FrameDefBuilders<'data>,
    r1: Result<FrameDefs<'data>, BuildError>,
    r2: Result<FrameDefs<'data>, BuildError>,
)
    requires
        defs_built(b, r1),
        defs_built(b, r2),
    ensures
        same_built(r1, r2),
{
    broadcast use vstd::utf8::encode_utf8_decode_utf8;

    if let (Ok(x), Ok(y)) = (r1, r2) {
        assert forall|k: int| 0 <= k < x.main@.len() implies same_main_field(
            #[trigger] x.main@[k],
            y.main@[k],
        ) by {
            assert(decode_utf8(encode_utf8(x.main@[k].raw_name@)) == x.main@[k].raw_name@);
            assert(decode_utf8(encode_utf8(y.main@[k].raw_name@)) == y.main@[k].raw_name@);
        }
        assert forall|k: int| 0 <= k < x.slow@.len() implies same_common_field(
            #[trigger] x.slow@[k],
            y.slow@[k],
        ) by {
            assert(decode_utf8(encode_utf8(x.slow@[k].raw_name@)) == x.slow@[k].raw_name@);
            assert(decode_utf8(encode_utf8(y.slow@[k].raw_name@)) == y.slow@[k].raw_name@);
        }
        if let (Some(gx), Some(gy)) = (x.gps, y.gps) {
            assert forall|k: int| 0 <= k < gx@.len() implies same_common_field(
                #[trigger] gx@[k],
                gy@[k],
            ) by {
                assert(decode_utf8(encode_utf8(gx@[k].raw_name@)) == gx@[k].raw_name@);
                assert(decode_utf8(encode_utf8(gy@[k].raw_name@)) == gy@[k].raw_name@);
            }
        }
        if let (Some(hx), Some(hy)) = (x.gps_home, y.gps_home) {
            assert forall|k: int| 0 <= k < hx@.len() implies same_common_field(
                #[trigger] hx@[k],
                hy@[k],
            ) by {
                assert(decode_utf8(encode_utf8(hx@[k].raw_name@)) == hx@[k].raw_name@);
                assert(decode_utf8(encode_utf8(hy@[k].raw_name@)) == hy@[k].raw_name@);
            }
        }
    }
}

impl<'data> FrameDefBuilders<'data> {
    /// No header yet.
    pub fn new() -> (b: Self)
        ensures
            b.main.values() == seq![None::<&'data str>, None, None, None, None, None],
            b.slow.0.values() == seq![None::<&'data str>, None, None, None],
            b.gps.0.values() == seq![None::<&'data str>, None, None, None],
            b.gps_home.0.values() == seq![None::<&'data str>, None, None, None],
    {
        FrameDefBuilders {
            main: MainBuilder::new(),
            slow: SlowBuilder::new(),
            gps: GpsBuilder::new(),
            gps_home: GpsHomeBuilder::new(),
        }
    }

    /// Takes in a header line: frame definition headers are recorded, other
    /// headers passed over.
    pub fn update(&mut self, header: &str, value: &'data str) -> (res: Result<(), ParseError>)
        ensures
            match def_header_parts(text(header)) {
                None => res is Ok && *final(self) == *old(self),
                Some((kind, property)) => match (frame_kind_of(kind), frame_property_of(property)) {
                    (None, _) => res matches Err(ParseError::InvalidFrameType(s)) && string_text(&s)
                        == kind && *final(self) == *old(self),
                    (Some(_), None) => res matches Err(ParseError::InvalidFrameProperty(s))
                        && string_text(&s) == property && *final(self) == *old(self),
                    (Some(k), Some(p)) => res is Ok && *final(self) == builders_updated(
                        *old(self),
                        k,
                        p,
                        value,
                    ),
                },
            },
    {
        proof {
            reveal_strlit("Field ");
            crate::text::lemma_ascii_text("Field ");
        }
        let rest = match strip_prefix(header, "Field ") {
            Some(rest) => rest,
            None => return Ok(()),
        };
        proof {
            crate::text::lemma_find(text(rest), 0x20);
        }
        let (kind, property) = match split_once(rest, 0x20) {
            Some(parts) => parts,
            None => return Ok(()),
        };
        let kind = match FrameKind::from_str(kind) {
            Some(k) => k,
            None => return Err(ParseError::InvalidFrameType(to_string(kind))),
        };
        let property = match FrameProperty::from_str(property) {
            Some(p) => p,
            None => return Err(ParseError::InvalidFrameProperty(to_string(property))),
        };
        match kind {
            FrameKind::Intra => self.main.update(true, property, value),
            FrameKind::Inter => self.main.update(false, property, value),
            FrameKind::Slow => self.slow.update(property, value),
            FrameKind::Gps => self.gps.update(property, value),
            FrameKind::GpsHome => self.gps_home.update(property, value),
        }
        Ok(())
    }

    /// Builds the fields of all kinds of frames. Main and slow frames must be
    /// declared; GPS and GPS home frames may be left undeclared.
    pub fn build(self) -> (res: Result<FrameDefs<'data>, BuildError>)
        ensures
            defs_built(self, res),
    {
        let main = match self.main.build() {
            Ok(fields) => fields,
            Err(e) => return Err(e),
        };
        let slow = match self.slow.build() {
            Ok(fields) => fields,
            Err(e) => return Err(e),
        };
        let gps = match self.gps.build() {
            Ok(fields) => Some(fields),
            Err(BuildError::NotDeclared) => None,
            Err(e) => return Err(e),
        };
        let gps_home = match self.gps_home.build() {
            Ok(fields) => Some(fields),
            Err(BuildError::NotDeclared) => None,
            Err(e) => return Err(e),
        };
        Ok(FrameDefs { main, slow, gps, gps_home })
    }
}

impl<'data> Default for FrameDefBuilders<'data> {
    /// No header yet.
    fn default() -> (b: Self)
        ensures
            b.main.values() == seq![None::<&'data str>, None, None, None, None, None],
            b.slow.0.values() == seq![None::<&'data str>, None, None, None],
            b.gps.0.values() == seq![None::<&'data str>, None, None, None],
            b.gps_home.0.values() == seq![None::<&'data str>, None, None, None],
    {
        Self::new()
    }
}

/// What decoding needs of a field: its predictor, encoding, signedness,
/// meaning and index.
#[derive(Debug, Clone, Copy, PartialEq, Eq, Structural)]
pub struct FieldPlan {
    pub predictor: Predictor,
    pub encoding: Encoding,
    pub signed: bool,
    pub kind: Kind,
    pub index: Option<u8>,
}

/// The fields of one kind of frame, as decoding needs them.
#[derive(Debug, Clone)]
pub struct FrameDef {
    pub fields: Vec<FieldPlan>,
}

/// An index as an optional byte.
pub open spec fn index_of(index: FieldIndex) -> Option<u8> {
    if index.0 < 0 {
        None
    } else {
        Some(index.0 as u8)
    }
}

/// The plan for main field `f` in intra (`intra`) or inter frames.
pub open spec fn main_plan(f: MainField, intra: bool) -> FieldPlan {
    FieldPlan {
        predictor: if intra {
            f.predictor_intra
        } else {
            f.predictor_inter
        },
        encoding: if intra {
            f.encoding_intra
        } else {
            f.encoding_inter
        },
        signed: f.signed,
        kind: match f.kind {
            MainFieldKind::Motor => Kind::Motor,
            MainFieldKind::Unknown => Kind::Unknown,
        },
        index: index_of(f.index),
    }
}

/// The plan for a field of another kind of frame whose meaning is `kind`.
pub open spec fn common_plan<K>(f: CommonField<K>, kind: Kind) -> FieldPlan {
    FieldPlan {
        predictor: f.predictor,
        encoding: f.encoding,
        signed: f.signed,
        kind,
        index: index_of(f.index),
    }
}

/// The fields of main frames, as intra (`intra`) or inter frames decode
/// them.
pub open spec fn main_plans(fields: Seq<MainField>, intra: bool) -> Seq<FieldPlan> {
    fields.map_values(|f: MainField| main_plan(f, intra))
}

/// The fields of slow frames, as decoding needs them.
pub open spec fn slow_plans(fields: Seq<SlowField>) -> Seq<FieldPlan> {
    fields.map_values(
        |f: SlowField|
            common_plan(
                f,
                match f.kind {
                    SlowFieldKind::FailsafePhase => Kind::FailsafePhase,
                    SlowFieldKind::Unknown => Kind::Unknown,
                },
            ),
    )
}

/// The fields of GPS frames, as decoding needs them.
pub open spec fn gps_plans(fields: Seq<GpsField>) -> Seq<FieldPlan> {
    fields.map_values(|f: GpsField| common_plan(f, Kind::Unknown))
}

/// The fields of GPS home frames, as decoding needs them.
pub open spec fn gps_home_plans(fields: Seq<GpsHomeField>) -> Seq<FieldPlan> {
    fields.map_values(
        |f: GpsHomeField|
            common_plan(
                f,
                match f.kind {
                    GpsHomeFieldKind::Latittude => Kind::HomeLatittude,
                    GpsHomeFieldKind::Longitude => Kind::HomeLongitude,
                    GpsHomeFieldKind::Unknown => Kind::Unknown,
                },
            ),
    )
}

impl FrameDef {
    /// The number of fields.
    pub fn len(&self) -> (n: usize)
        ensures
            n == self.fields@.len(),
    {
        self.fields.len()
    }

    /// The encodings of the fields, in order.
    pub fn encodings(&self) -> (encs: Vec<Encoding>)
        ensures
            encs@ == self.fields@.map_values(|f: FieldPlan| f.encoding),
    {
        let mut encs: Vec<Encoding> = Vec::new();
        let mut i: usize = 0;
        while i < self.fields.len()
            invariant
                i <= self.fields@.len(),
                encs@ == self.fields@.take(i as int).map_values(|f: FieldPlan| f.encoding),
            decreases self.fields@.len() - i,
        {
            encs.push(self.fields[i].encoding);
            i += 1;
            assert(encs@ =~= self.fields@.take(i as int).map_values(|f: FieldPlan| f.encoding));
        }
        assert(self.fields@.take(i as int) =~= self.fields@);
        encs
    }
}

impl<'data> FrameDefs<'data> {
    /// The fields of main frames, as intra (`intra`) or inter frames decode
    /// them.
    fn main_def(&self, intra: bool) -> (def: FrameDef)
        ensures
            def.fields@.len() == self.main@.len(),
            forall|i: int| 0 <= i < self.main@.len() ==> #[trigger] def.fields@[i] == main_plan(self.main@[i], intra),
    {
        let mut fields: Vec<FieldPlan> = Vec::new();
        let mut i: usize = 0;
        while i < self.main.len()
            invariant
                i <= self.main@.len(),
                fields@.len() == i,
                forall|j: int| 0 <= j < i ==> #[trigger] fields@[j] == main_plan(self.main@[j], intra),
            decreases self.main@.len() - i,
        {
            let f = self.main[i];
            fields.push(FieldPlan {
                predictor: if intra {
                    f.predictor_intra
                } else {
                    f.predictor_inter
                },
                encoding: if intra {
                    f.encoding_intra
                } else {
                    f.encoding_inter
                },
                signed: f.signed,
                kind: f.kind.to_kind(),
                index: f.index.get(),
            });
            i += 1;
        }
        FrameDef { fields }
    }

    /// The fields of intra frames.
    pub fn intra(&self) -> (def: FrameDef)
        ensures
            def.fields@ == main_plans(self.main@, true),
    {
        let def = self.main_def(true);
        assert(def.fields@ =~= main_plans(self.main@, true));
        def
    }

    /// The fields of inter frames.
    pub fn inter(&self) -> (def: FrameDef)
        ensures
            def.fields@ == main_plans(self.main@, false),
    {
        let def = self.main_def(false);
        assert(def.fields@ =~= main_plans(self.main@, false));
        def
    }

    /// The fields of slow frames.
    pub fn slow(&self) -> (def: FrameDef)
        ensures
            def.fields@ == slow_plans(self.slow@),
    {
        let src = &self.slow;
        let mut fields: Vec<FieldPlan> = Vec::new();
        let mut i: usize = 0;
        while i < src.len()
            invariant
                i <= src@.len(),
                fields@.len() == i,
                forall|j: int| 0 <= j < i ==> #[trigger] fields@[j] == common_plan(src@[j], match src@[j].kind {
                    SlowFieldKind::FailsafePhase => Kind::FailsafePhase,
                    SlowFieldKind::Unknown => Kind::Unknown,
                }),
            decreases src@.len() - i,
        {
            let f = src[i];
            fields.push(FieldPlan {
                predictor: f.predictor,
                encoding: f.encoding,
                signed: f.signed,
                kind: f.kind.to_kind(),
                index: f.index.get(),
            });
            i += 1;
        }
        assert(fields@ =~= slow_plans(self.slow@));
        FrameDef { fields }
    }

    /// The fields of GPS frames, if they are declared.
    pub fn gps(&self) -> (def: Option<FrameDef>)
        ensures
            def is Some <==> self.gps is Some,
            def matches Some(d) ==> d.fields@ == gps_plans(self.gps->0@),
    {
        let src = match &self.gps {
            Some(src) => src,
            None => return None,
        };
        let mut fields: Vec<FieldPlan> = Vec::new();
        let mut i: usize = 0;
        while i < src.len()
            invariant
                i <= src@.len(),
                fields@.len() == i,
                forall|j: int| 0 <= j < i ==> #[trigger] fields@[j] == common_plan(src@[j], Kind::Unknown),
            decreases src@.len() - i,
        {
            let f = src[i];
            fields.push(FieldPlan {
                predictor: f.predictor,
                encoding: f.encoding,
                signed: f.signed,
                kind: f.kind.to_kind(),
                index: f.index.get(),
            });
            i += 1;
        }
        assert(fields@ =~= gps_plans(src@));
        Some(FrameDef { fields })
    }

    /// The fields of GPS home frames, if they are declared.
    pub fn gps_home(&self) -> (def: Option<FrameDef>)
        ensures
            def is Some <==> self.gps_home is Some,
            def matches Some(d) ==> d.fields@ == gps_home_plans(self.gps_home->0@),
    {
        let src = match &self.gps_home {
            Some(src) => src,
            None => return None,
        };
        let mut fields: Vec<FieldPlan> = Vec::new();
        let mut i: usize = 0;
        while i < src.len()
            invariant
                i <= src@.len(),
                fields@.len() == i,
                forall|j: int| 0 <= j < i ==> #[trigger] fields@[j] == common_plan(src@[j], match src@[j].kind {
                    GpsHomeFieldKind::Latittude => Kind::HomeLatittude,
                    GpsHomeFieldKind::Longitude => Kind::HomeLongitude,
                    GpsHomeFieldKind::Unknown => Kind::Unknown,
                }),
            decreases src@.len() - i,
        {
            let f = src[i];
            fields.push(FieldPlan {
                predictor: f.predictor,
                encoding: f.encoding,
                signed: f.signed,
                kind: f.kind.to_kind(),
                index: f.index.get(),
            });
            i += 1;
        }
        assert(fields@ =~= gps_home_plans(src@));
        Some(FrameDef { fields })
    }

}

/// The fields that decoding knows by name: main fields with base name
/// `motor` are motors, the slow field `failsafePhase` is the failsafe phase,
/// and the GPS home fields `GPS_home[0]` and `GPS_home[1]` are the home
/// latitude and longitude; every other field is unknown.
pub proof fn lemma_field_kinds(name: Seq<u8>, index: i8)
    ensures
        main_kind_of(name) == MainFieldKind::Motor <==> name == text("motor"),
        slow_kind_of(name) == SlowFieldKind::FailsafePhase <==> name == text("failsafePhase"),
        gps_home_kind_of(name, index) == GpsHomeFieldKind::Latittude <==> name == text("GPS_home")
            && index == 0,
        gps_home_kind_of(name, index) == GpsHomeFieldKind::Longitude <==> name == text("GPS_home")
            && index == 1,
{
}

} // verus!
