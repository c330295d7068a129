//! The definition of main frames, both intra frames, whose values stand
//! alone, and inter frames, whose values are predicted from earlier frames.
//! Every main frame starts with the loop iteration and the time.

use vstd::prelude::*;
use vstd::std_specs::convert::FromSpecImpl;

use super::{
    check_predictor, check_unit, def_error_matches, entries_left, fewest_entries,
    first_bad_entry, invalid_entry, left_in, lemma_fewest, missing_field, parse_sign,
    predictor_available, signed_entry, split_headers, unit_available, Available, DefError,
    FieldDef, Unit,
};
use crate::decode::{encoding_of_num, Encoding};
use crate::frame_defs::{
    column_lens, column_texts, column_valid, first_bad, first_missing, header_columns,
    lemma_rows_valid, min_len, raw_kind, raw_kind_of, Column, FrameProperty,
};
use crate::filter::AppliedFilter;
use crate::headers::{DataFrameKind, Headers, ParseError};
use crate::predictor::{predictor_of_num, Predictor};
use crate::text::{str_eq, text, texts};

verus! {

/// What the values of a main frame field stand for.
#[derive(Debug, Clone, Copy, PartialEq, Eq, Hash, Structural)]
pub enum MainUnit {
    Amperage,
    Voltage,
    Acceleration,
    Rotation,
    Unitless,
}

/// The unit that a main frame field of unit `u` has.
pub open spec fn main_unit_to_unit(u: MainUnit) -> Unit {
    match u {
        MainUnit::Amperage => Unit::Amperage,
        MainUnit::Voltage => Unit::Voltage,
        MainUnit::Acceleration => Unit::Acceleration,
        MainUnit::Rotation => Unit::Rotation,
        MainUnit::Unitless => Unit::Unitless,
    }
}

impl From<MainUnit> for Unit {
    fn from(unit: MainUnit) -> (u: Unit) {
        match unit {
            MainUnit::Amperage => Unit::Amperage,
            MainUnit::Voltage => Unit::Voltage,
            MainUnit::Acceleration => Unit::Acceleration,
            MainUnit::Rotation => Unit::Rotation,
            MainUnit::Unitless => Unit::Unitless,
        }
    }
}

impl FromSpecImpl<MainUnit> for Unit {
    open spec fn obeys_from_spec() -> bool {
        true
    }

    open spec fn from_spec(unit: MainUnit) -> Unit {
        main_unit_to_unit(unit)
    }
}

/// The unit of the main frame field named `name`, by its name up to its
/// index.
pub open spec fn main_unit_of(name: Seq<u8>) -> MainUnit {
    let base = raw_kind_of(name);
    if base == text("vbat") || base == text("vbatLatest") {
        MainUnit::Voltage
    } else if base == text("amperageLatest") {
        MainUnit::Amperage
    } else if base == text("accSmooth") {
        MainUnit::Acceleration
    } else if base == text("gyroADC") {
        MainUnit::Rotation
    } else {
        MainUnit::Unitless
    }
}

/// The unit of the main frame field named `name`.
pub fn unit_from_name(name: &str) -> (unit: MainUnit)
    ensures
        unit == main_unit_of(text(name)),
{
    let base = raw_kind(name);
    if str_eq(base, "vbat") || str_eq(base, "vbatLatest") {
        MainUnit::Voltage
    } else if str_eq(base, "amperageLatest") {
        MainUnit::Amperage
    } else if str_eq(base, "accSmooth") {
        MainUnit::Acceleration
    } else if str_eq(base, "gyroADC") {
        MainUnit::Rotation
    } else {
        MainUnit::Unitless
    }
}

/// A field of main frames.
#[derive(Debug, Clone, Copy)]
pub struct MainFieldDef<'data> {
    pub name: &'data str,
    pub predictor_intra: Predictor,
    pub predictor_inter: Predictor,
    pub encoding_intra: Encoding,
    pub encoding_inter: Encoding,
    pub signed: bool,
    pub unit: MainUnit,
}

/// The definition of main frames: the loop iteration, then the fields that
/// follow the time, and where `motor[0]` is among them.
#[derive(Debug, Clone)]
pub struct MainFrameDef<'data> {
    pub iteration: MainFieldDef<'data>,
    pub fields: Vec<MainFieldDef<'data>>,
    pub index_motor_0: Option<usize>,
}

/// The columns of the main frame definition headers, in the order they are
/// read: names, signedness, intra and inter predictors, intra and inter
/// encodings.
pub open spec fn main_def_layout() -> Seq<Column> {
    seq![
        Column::Name,
        Column::Name,
        Column::Predictor,
        Column::Predictor,
        Column::Encoding,
        Column::Encoding,
    ]
}

/// The names of the main frame definition headers, in the same order.
pub open spec fn main_header_names() -> Seq<&'static str> {
    seq![
        "Field I name",
        "Field I signed",
        "Field I predictor",
        "Field P predictor",
        "Field I encoding",
        "Field P encoding",
    ]
}

/// Whether `f` is the field that row `k` of the columns defines.
pub open spec fn main_field_matches(f: MainFieldDef, cols: Seq<Seq<Seq<u8>>>, k: int) -> bool {
    &&& text(f.name) == cols[0][k]
    &&& f.signed == signed_entry(cols[1][k])
    &&& Some(f.predictor_intra) == predictor_of_num(cols[2][k])
    &&& Some(f.predictor_inter) == predictor_of_num(cols[3][k])
    &&& Some(f.encoding_intra) == encoding_of_num(cols[4][k])
    &&& Some(f.encoding_inter) == encoding_of_num(cols[5][k])
    &&& f.unit == main_unit_of(cols[0][k])
}

/// Whether row `k` defines the loop iteration as main frames need it.
pub open spec fn iteration_row(cols: Seq<Seq<Seq<u8>>>, k: int) -> bool {
    &&& cols[0][k] == text("loopIteration")
    &&& predictor_of_num(cols[2][k]) == Some(Predictor::Zero)
    &&& predictor_of_num(cols[3][k]) == Some(Predictor::Increment)
    &&& encoding_of_num(cols[4][k]) == Some(Encoding::Variable)
    &&& encoding_of_num(cols[5][k]) == Some(Encoding::Null)
}

/// Whether row `k` defines the time as main frames need it.
pub open spec fn time_row(cols: Seq<Seq<Seq<u8>>>, k: int) -> bool {
    &&& cols[0][k] == text("time")
    &&& predictor_of_num(cols[2][k]) == Some(Predictor::Zero)
    &&& predictor_of_num(cols[3][k]) == Some(Predictor::StraightLine)
    &&& encoding_of_num(cols[4][k]) == Some(Encoding::Variable)
    &&& encoding_of_num(cols[5][k]) == Some(Encoding::VariableSigned)
}

/// Whether the intra frame headers (names, intra predictors, intra
/// encodings, signedness) have entries left unread.
pub open spec fn intra_left(lens: Seq<int>) -> bool {
    left_in(lens, 0) || left_in(lens, 2) || left_in(lens, 4) || left_in(lens, 1)
}

/// Whether the inter frame headers have entries left unread.
pub open spec fn inter_left(lens: Seq<int>) -> bool {
    left_in(lens, 3) || left_in(lens, 5)
}

/// Building the main frame definition from the headers `values`: the number
/// of rows, or why it cannot be built.
pub open spec fn main_def_outcome(values: Seq<Option<&str>>) -> Result<int, DefError> {
    match first_missing(values, 0) {
        Some(_) => Err(DefError::MissingHeader),
        None => {
            let cols = header_columns(values);
            let lens = column_lens(cols);
            let m = min_len(lens);
            if m < 1 {
                Err(DefError::MissingField(DataFrameKind::Intra, "loopIteration"))
            } else {
                match first_bad(main_def_layout(), cols, 0, 1) {
                    Some(c) => Err(DefError::InvalidValue(c as usize)),
                    None => if !iteration_row(cols, 0) {
                        Err(DefError::MissingField(DataFrameKind::Intra, "loopIteration"))
                    } else if m < 2 {
                        Err(DefError::MissingField(DataFrameKind::Intra, "time"))
                    } else {
                        match first_bad(main_def_layout(), cols, 1, 2) {
                            Some(c) => Err(DefError::InvalidValue(c as usize)),
                            None => if !time_row(cols, 1) {
                                Err(DefError::MissingField(DataFrameKind::Intra, "time"))
                            } else {
                                match first_bad(main_def_layout(), cols, 2, m) {
                                    Some(c) => Err(DefError::InvalidValue(c as usize)),
                                    None => if intra_left(lens) {
                                        Err(DefError::Malformed(DataFrameKind::Intra))
                                    } else if inter_left(lens) {
                                        Err(DefError::Malformed(DataFrameKind::Inter))
                                    } else {
                                        Ok(m)
                                    },
                                }
                            },
                        }
                    },
                }
            }
        },
    }
}

/// Whether `def` is the main frame definition with `m` rows that the
/// headers `values` give.
pub open spec fn main_def_matches(def: MainFrameDef, values: Seq<Option<&str>>, m: int) -> bool {
    let cols = header_columns(values);
    &&& main_field_matches(def.iteration, cols, 0)
    &&& def.fields@.len() == m - 2
    &&& forall|k: int|
        0 <= k < m - 2 ==> main_field_matches(#[trigger] def.fields@[k], cols, k + 2)
    &&& motor_0_at(def.fields@, def.index_motor_0)
}

/// Whether `index` is where the first field named `motor[0]` is.
pub open spec fn motor_0_at(fields: Seq<MainFieldDef>, index: Option<usize>) -> bool {
    match index {
        Some(i) => i < fields.len() && text(fields[i as int].name) == text("motor[0]") && forall|
            j: int,
        |
            0 <= j < i ==> text(#[trigger] fields[j].name) != text("motor[0]"),
        None => forall|j: int|
            0 <= j < fields.len() ==> text(#[trigger] fields[j].name) != text("motor[0]"),
    }
}

/// The position of the first field named `motor[0]`.
fn find_motor_0(fields: &Vec<MainFieldDef>) -> (index: Option<usize>)
    ensures
        motor_0_at(fields@, index),
{
    let mut i: usize = 0;
    while i < fields.len()
        invariant
            i <= fields@.len(),
            forall|j: int| 0 <= j < i ==> text(#[trigger] fields@[j].name) != text("motor[0]"),
        decreases fields@.len() - i,
    {
        if str_eq(fields[i].name, "motor[0]") {
            return Some(i);
        }
        i += 1;
    }
    None
}

/// Whether the headers that the predictors and units of the fields of
/// `def` need are among those given.
pub open spec fn main_def_valid(def: MainFrameDef, a: Available) -> bool {
    forall|k: int|
        0 <= k < def.fields@.len() ==> predictor_available(
            #[trigger] def.fields@[k].predictor_intra,
            a,
        ) && predictor_available(def.fields@[k].predictor_inter, a)
            && unit_available(main_unit_to_unit(def.fields@[k].unit), a)
}

impl<'data> MainFrameDef<'data> {
    /// A builder that has seen no header.
    pub fn builder() -> (b: MainFrameDefBuilder<'data>)
        ensures
            b.values() == seq![None::<&'data str>, None, None, None, None, None],
    {
        MainFrameDefBuilder {
            names: None,
            predictors_intra: None,
            predictors_inter: None,
            encodings_intra: None,
            encodings_inter: None,
            signs: None,
        }
    }

    /// The number of fields, the loop iteration included.
    pub fn len(&self) -> (n: usize)
        requires
            self.fields@.len() < usize::MAX,
        ensures
            n == self.fields@.len() + 1,
    {
        self.fields.len() + 1
    }

    /// The name, unit and signedness of field `index`: the loop iteration,
    /// then the fields that follow the time.
    pub fn get(&self, index: usize) -> (def: Option<FieldDef<'data, MainUnit>>)
        ensures
            ({
                let f = if index == 0 {
                    Some(self.iteration)
                } else if index - 1 < self.fields@.len() {
                    Some(self.fields@[index - 1])
                } else {
                    None
                };
                match f {
                    Some(f) => def == Some(FieldDef { name: f.name, unit: f.unit, signed: f.signed }),
                    None => def is None,
                }
            }),
    {
        let f = if index == 0 {
            &self.iteration
        } else if index - 1 < self.fields.len() {
            &self.fields[index - 1]
        } else {
            return None;
        };
        Some(FieldDef { name: f.name, unit: f.unit, signed: f.signed })
    }

    /// Whether main frames have a `motor[0]` field.
    pub fn has_motor_0(&self) -> (b: bool)
        ensures
            b == self.index_motor_0 is Some,
    {
        self.index_motor_0.is_some()
    }

    /// The value of `motor[0]` among the values `frame` of the fields that
    /// follow the time.
    pub fn get_motor_0_from(&self, frame: &[u32]) -> (v: u32)
        requires
            self.index_motor_0 matches Some(i) && i < frame@.len(),
        ensures
            v == frame@[self.index_motor_0->0 as int],
    {
        let i = match self.index_motor_0 {
            Some(i) => i,
            None => 0,
        };
        frame[i]
    }

    /// Checks that the headers that each field's predictors and unit need
    /// were given.
    pub fn validate(&self, available: &Available) -> (res: Result<(), ParseError>)
        ensures
            res is Ok <==> main_def_valid(*self, *available),
            res is Err ==> res matches Err(ParseError::MissingHeader),
    {
        let mut i: usize = 0;
        while i < self.fields.len()
            invariant
                i <= self.fields@.len(),
                forall|k: int|
                    0 <= k < i ==> predictor_available(
                        #[trigger] self.fields@[k].predictor_intra,
                        *available,
                    ) && predictor_available(self.fields@[k].predictor_inter, *available)
                        && unit_available(main_unit_to_unit(self.fields@[k].unit), *available),
            decreases self.fields@.len() - i,
        {
            let f = &self.fields[i];
            match check_predictor(f.predictor_intra, available) {
                Ok(()) => {},
                Err(e) => return Err(e),
            }
            match check_predictor(f.predictor_inter, available) {
                Ok(()) => {},
                Err(e) => return Err(e),
            }
            match check_unit(Unit::from(f.unit), available) {
                Ok(()) => {},
                Err(e) => return Err(e),
            }
            i += 1;
        }
        Ok(())
    }
}

/// The builder after recording `value` for `property` of frames of kind
/// `kind`.
pub open spec fn main_def_updated<'data>(
    b: MainFrameDefBuilder<'data>,
    kind: DataFrameKind,
    property: FrameProperty,
    value: &'data str,
) -> MainFrameDefBuilder<'data> {
    match (kind, property) {
        (_, FrameProperty::Name) => MainFrameDefBuilder { names: Some(value), ..b },
        (_, FrameProperty::Signed) => MainFrameDefBuilder { signs: Some(value), ..b },
        (DataFrameKind::Intra, FrameProperty::Predictor) => MainFrameDefBuilder {
            predictors_intra: Some(value),
            ..b
        },
        (DataFrameKind::Intra, FrameProperty::Encoding) => MainFrameDefBuilder {
            encodings_intra: Some(value),
            ..b
        },
        (_, FrameProperty::Predictor) => MainFrameDefBuilder {
            predictors_inter: Some(value),
            ..b
        },
        (_, FrameProperty::Encoding) => MainFrameDefBuilder {
            encodings_inter: Some(value),
            ..b
        },
    }
}

/// Collects the main frame definition headers.
#[derive(Debug, Clone, Copy)]
pub struct MainFrameDefBuilder<'data> {
    pub names: Option<&'data str>,
    pub predictors_intra: Option<&'data str>,
    pub predictors_inter: Option<&'data str>,
    pub encodings_intra: Option<&'data str>,
    pub encodings_inter: Option<&'data str>,
    pub signs: Option<&'data str>,
}

impl<'data> MainFrameDefBuilder<'data> {
    /// The headers, in the order their entries are read.
    pub open spec fn values(&self) -> Seq<Option<&'data str>> {
        seq![
            self.names,
            self.signs,
            self.predictors_intra,
            self.predictors_inter,
            self.encodings_intra,
            self.encodings_inter,
        ]
    }

    /// Records the header for `property` of frames of kind `kind`; names
    /// and signedness are shared by intra and inter frames.
    pub fn update(&mut self, kind: DataFrameKind, property: FrameProperty, value: &'data str)
        requires
            property is Name || property is Signed || kind is Intra || kind is Inter,
        ensures
            *final(self) == main_def_updated(*old(self), kind, property, value),
    {
        match (kind, property) {
            (_, FrameProperty::Name) => self.names = Some(value),
            (_, FrameProperty::Signed) => self.signs = Some(value),
            (DataFrameKind::Intra, FrameProperty::Predictor) => self.predictors_intra = Some(value),
            (DataFrameKind::Intra, FrameProperty::Encoding) => self.encodings_intra = Some(value),
            (_, FrameProperty::Predictor) => self.predictors_inter = Some(value),
            (_, FrameProperty::Encoding) => self.encodings_inter = Some(value),
        }
    }

    /// Builds the definition of main frames from the headers: the first
    /// field must be the loop iteration and the second the time, each with
    /// the predictors and encodings that frames are read with.
    #[verifier::rlimit(60)]
    pub fn parse(self) -> (res: Result<MainFrameDef<'data>, ParseError>)
        ensures
            match main_def_outcome(self.values()) {
                Err(e) => res matches Err(err) && def_error_matches(
                    e,
                    err,
                    main_header_names(),
                    self.values(),
                ),
                Ok(m) => res matches Ok(def) && main_def_matches(def, self.values(), m),
            },
    {
        let mut values: Vec<Option<&'data str>> = Vec::new();
        values.push(self.names);
        values.push(self.signs);
        values.push(self.predictors_intra);
        values.push(self.predictors_inter);
        values.push(self.encodings_intra);
        values.push(self.encodings_inter);
        assert(values@ =~= self.values());
        let names: [&'static str; 6] = [
            "Field I name",
            "Field I signed",
            "Field I predictor",
            "Field P predictor",
            "Field I encoding",
            "Field P encoding",
        ];
        assert(names@ =~= main_header_names());
        let cols = match split_headers(&values) {
            Some(cols) => cols,
            None => return Err(ParseError::MissingHeader),
        };
        let ghost tcols = header_columns(values@);
        let m = fewest_entries(&cols);
        proof {
            lemma_fewest(cols@);
        }
        if m < 1 {
            return Err(missing_field(DataFrameKind::Intra, "loopIteration"));
        }
        let layout: [Column; 6] = [
            Column::Name,
            Column::Name,
            Column::Predictor,
            Column::Predictor,
            Column::Encoding,
            Column::Encoding,
        ];
        assert(layout@ =~= main_def_layout());
        match first_bad_entry(layout.as_slice(), &cols, 0, 1) {
            Some(c) => return Err(invalid_entry(names.as_slice(), &values, c)),
            None => {},
        }
        let iteration = row_field(&cols, 0);
        let iteration_ok = str_eq(iteration.name, "loopIteration") && iteration.predictor_intra
            == Predictor::Zero && iteration.predictor_inter == Predictor::Increment
            && iteration.encoding_intra == Encoding::Variable && iteration.encoding_inter
            == Encoding::Null;
        if !iteration_ok {
            return Err(missing_field(DataFrameKind::Intra, "loopIteration"));
        }
        if m < 2 {
            return Err(missing_field(DataFrameKind::Intra, "time"));
        }
        match first_bad_entry(layout.as_slice(), &cols, 1, 2) {
            Some(c) => return Err(invalid_entry(names.as_slice(), &values, c)),
            None => {},
        }
        let time = row_field(&cols, 1);
        let time_ok = str_eq(time.name, "time") && time.predictor_intra == Predictor::Zero
            && time.predictor_inter == Predictor::StraightLine && time.encoding_intra
            == Encoding::Variable && time.encoding_inter == Encoding::VariableSigned;
        if !time_ok {
            return Err(missing_field(DataFrameKind::Intra, "time"));
        }
        match first_bad_entry(layout.as_slice(), &cols, 2, m) {
            Some(c) => return Err(invalid_entry(names.as_slice(), &values, c)),
            None => {},
        }
        let mut fields: Vec<MainFieldDef<'data>> = Vec::new();
        let mut k: usize = 2;
        while k < m
            invariant
                2 <= k <= m,
                cols@.len() == 6,
                tcols == column_texts(cols@),
                layout@ == main_def_layout(),
                forall|c: int| 0 <= c < cols@.len() ==> m <= cols@[c]@.len(),
                first_bad(main_def_layout(), tcols, k as int, m as int) is None,
                fields@.len() == k - 2,
                forall|j: int|
                    0 <= j < k - 2 ==> main_field_matches(#[trigger] fields@[j], tcols, j + 2),
            decreases m - k,
        {
            fields.push(row_field(&cols, k));
            k += 1;
        }
        if entries_left(&cols, 0) || entries_left(&cols, 2) || entries_left(&cols, 4)
            || entries_left(&cols, 1) {
            return Err(ParseError::MalformedFrameDef(DataFrameKind::Intra));
        }
        if entries_left(&cols, 3) || entries_left(&cols, 5) {
            return Err(ParseError::MalformedFrameDef(DataFrameKind::Inter));
        }
        let index_motor_0 = find_motor_0(&fields);
        Ok(MainFrameDef { iteration, fields, index_motor_0 })
    }
}

/// The field that row `k` defines, when its entries can be read.
fn row_field<'data>(cols: &Vec<Vec<&'data str>>, k: usize) -> (f: MainFieldDef<'data>)
    requires
        cols@.len() == 6,
        forall|c: int| 0 <= c < cols@.len() ==> k < cols@[c]@.len(),
        crate::frame_defs::first_bad_in_row(main_def_layout(), column_texts(cols@), k as int, 0) is None,
    ensures
        main_field_matches(f, column_texts(cols@), k as int),
{
    let ghost tcols = column_texts(cols@);
    proof {
        crate::frame_defs::lemma_row_valid(main_def_layout(), tcols, k as int, 0);
    }
    assert(texts(cols@[0]@)[k as int] == text(cols@[0]@[k as int]));
    assert(texts(cols@[1]@)[k as int] == text(cols@[1]@[k as int]));
    assert(texts(cols@[2]@)[k as int] == text(cols@[2]@[k as int]));
    assert(texts(cols@[3]@)[k as int] == text(cols@[3]@[k as int]));
    assert(texts(cols@[4]@)[k as int] == text(cols@[4]@[k as int]));
    assert(texts(cols@[5]@)[k as int] == text(cols@[5]@[k as int]));
    assert(column_valid(main_def_layout()[2], tcols[2][k as int]));
    assert(column_valid(main_def_layout()[3], tcols[3][k as int]));
    assert(column_valid(main_def_layout()[4], tcols[4][k as int]));
    assert(column_valid(main_def_layout()[5], tcols[5][k as int]));
    let name = cols[0][k];
    MainFieldDef {
        name,
        predictor_intra: Predictor::from_num_str(cols[2][k]).unwrap(),
        predictor_inter: Predictor::from_num_str(cols[3][k]).unwrap(),
        encoding_intra: Encoding::from_num_str(cols[4][k]).unwrap(),
        encoding_inter: Encoding::from_num_str(cols[5][k]).unwrap(),
        signed: parse_sign(cols[1][k]),
        unit: unit_from_name(name),
    }
}


/// A main frame as read from the log: whether it was an intra frame, its
/// loop iteration, its time in microseconds and the values of the fields
/// that follow the time.
#[derive(Debug, Clone)]
pub struct RawMainFrame {
    pub intra: bool,
    pub iteration: u32,
    pub time: u64,
    pub values: Vec<u32>,
}

/// The last two main frames read: slot `index_new` holds the newest, the
/// other slot the one before it.
#[derive(Debug)]
pub struct MainFrameHistory {
    history: Vec<Option<RawMainFrame>>,
    index_new: usize,
}

impl MainFrameHistory {
    /// There are two slots, and the newest is one of them.
    pub closed spec fn wf(&self) -> bool {
        &&& self.history@.len() == 2
        &&& self.index_new < 2
    }

    /// The newest frame, if a frame was pushed.
    pub closed spec fn spec_last(&self) -> Option<RawMainFrame> {
        self.history@[self.index_new as int]
    }

    /// The frame pushed before the newest, if two frames were pushed.
    pub closed spec fn spec_last_last(&self) -> Option<RawMainFrame> {
        self.history@[((self.index_new + 1) % 2) as int]
    }

    /// A history of no frame.
    pub fn new() -> (h: Self)
        ensures
            h.wf(),
            h.spec_last() is None,
            h.spec_last_last() is None,
    {
        let mut history: Vec<Option<RawMainFrame>> = Vec::new();
        history.push(None);
        history.push(None);
        MainFrameHistory { history, index_new: 0 }
    }

    /// Adds `frame` as the newest frame: the frame that was newest comes
    /// before it, and the one before that is dropped. Gives the frame added.
    pub fn push(&mut self, frame: RawMainFrame) -> (r: &RawMainFrame)
        requires
            old(self).wf(),
        ensures
            final(self).wf(),
            final(self).spec_last() == Some(frame),
            final(self).spec_last_last() == old(self).spec_last(),
            *r == frame,
    {
        let index_old = (self.index_new + 1) % 2;
        self.history.set(index_old, Some(frame));
        self.index_new = index_old;
        self.history[self.index_new].as_ref().unwrap()
    }

    /// The newest frame, if a frame was pushed.
    pub fn last(&self) -> (r: Option<&RawMainFrame>)
        requires
            self.wf(),
        ensures
            r == (match self.spec_last() {
                Some(f) => Some(&f),
                None => None,
            }),
    {
        self.history[self.index_new].as_ref()
    }

    /// The frame pushed before the newest, if two frames were pushed.
    pub fn last_last(&self) -> (r: Option<&RawMainFrame>)
        requires
            self.wf(),
        ensures
            r == (match self.spec_last_last() {
                Some(f) => Some(&f),
                None => None,
            }),
    {
        self.history[(self.index_new + 1) % 2].as_ref()
    }
}

impl Default for MainFrameHistory {
    /// A history of no frame.
    fn default() -> (h: Self)
        ensures
            h.wf(),
            h.spec_last() is None,
            h.spec_last_last() is None,
    {
        Self::new()
    }
}

/// The value of a main frame field, tagged by its unit. Values with a unit
/// hold the reading as it was logged (signed for current, acceleration and
/// rotation); turning a reading into a physical quantity takes the scales
/// of the headers and floating point, and is left to the caller.
#[derive(Debug, Clone, Copy, PartialEq, Eq, Structural)]
pub enum MainValue {
    Amperage(i32),
    Voltage(u32),
    Acceleration(i32),
    Rotation(i32),
    Unsigned(u32),
    Signed(i32),
}

/// The value of a main frame field of unit `unit` whose raw value is `raw`.
pub open spec fn main_value_of(unit: MainUnit, signed: bool, raw: u32) -> MainValue {
    match unit {
        MainUnit::Amperage => MainValue::Amperage(raw as i32),
        MainUnit::Voltage => MainValue::Voltage(raw),
        MainUnit::Acceleration => MainValue::Acceleration(raw as i32),
        MainUnit::Rotation => MainValue::Rotation(raw as i32),
        MainUnit::Unitless => if signed {
            MainValue::Signed(raw as i32)
        } else {
            MainValue::Unsigned(raw)
        },
    }
}

impl MainValue {
    /// A value without a unit: the bits of a two's complement integer when
    /// the field is signed.
    pub fn new_unitless(value: u32, signed: bool) -> (v: Self)
        ensures
            v == main_value_of(MainUnit::Unitless, signed, value),
    {
        if signed {
            MainValue::Signed(value as i32)
        } else {
            MainValue::Unsigned(value)
        }
    }

    /// The value of a field of unit `unit` and signedness `signed` whose
    /// raw value is `raw`.
    pub fn from_raw(unit: MainUnit, signed: bool, raw: u32) -> (v: Self)
        ensures
            v == main_value_of(unit, signed, raw),
    {
        match unit {
            MainUnit::Amperage => MainValue::Amperage(raw as i32),
            MainUnit::Voltage => MainValue::Voltage(raw),
            MainUnit::Acceleration => MainValue::Acceleration(raw as i32),
            MainUnit::Rotation => MainValue::Rotation(raw as i32),
            MainUnit::Unitless => MainValue::new_unitless(raw, signed),
        }
    }
}

/// A main frame seen through a filter: the `i`-th field it shows is field
/// `filter[i]` of the frame, where field 0 is the loop iteration.
pub struct MainFrame<'h, 'data> {
    pub headers: &'h Headers<'data>,
    pub raw: &'h RawMainFrame,
    pub filter: &'h AppliedFilter,
}

impl<'h, 'data> MainFrame<'h, 'data> {
    /// There is a value for each field after the time, and the filter keeps
    /// fields that exist.
    pub open spec fn wf(&self) -> bool {
        &&& self.raw.values@.len() == self.headers.main_frame_def.fields@.len()
        &&& forall|i: int|
            0 <= i < self.filter.0@.len() ==> self.filter.0@[i] <= self.raw.values@.len()
    }

    /// The raw value of field `i` of the frame, where field 0 is the loop
    /// iteration.
    pub open spec fn raw_at(&self, i: int) -> u32 {
        if i == 0 {
            self.raw.iteration
        } else {
            self.raw.values@[i - 1]
        }
    }

    /// A frame of the values `raw`, of which `filter` keeps some.
    pub fn new(headers: &'h Headers<'data>, raw: &'h RawMainFrame, filter: &'h AppliedFilter) -> (f:
        Self)
        ensures
            f.headers == headers,
            f.raw == raw,
            f.filter == filter,
    {
        MainFrame { headers, raw, filter }
    }

    /// The number of values the filter keeps.
    pub fn len(&self) -> (n: usize)
        ensures
            n == self.filter.0@.len(),
    {
        self.filter.len()
    }

    /// The raw value of the `index`-th field kept.
    pub fn get_raw(&self, index: usize) -> (v: Option<u32>)
        requires
            self.wf(),
        ensures
            index < self.filter.0@.len() ==> v == Some(
                self.raw_at(self.filter.0@[index as int] as int),
            ),
            index >= self.filter.0@.len() ==> v is None,
    {
        match self.filter.get(index) {
            Some(i) => if i == 0 {
                Some(self.raw.iteration)
            } else {
                Some(self.raw.values[i - 1])
            },
            None => None,
        }
    }

    /// The value of the `index`-th field kept, read by the field's unit; the
    /// loop iteration is unsigned.
    pub fn get(&self, index: usize) -> (v: Option<MainValue>)
        requires
            self.wf(),
        ensures
            index >= self.filter.0@.len() ==> v is None,
            index < self.filter.0@.len() ==> ({
                let i = self.filter.0@[index as int] as int;
                if i == 0 {
                    v == Some(MainValue::Unsigned(self.raw.iteration))
                } else {
                    let def = self.headers.main_frame_def.fields@[i - 1];
                    v == Some(main_value_of(def.unit, def.signed, self.raw.values@[i - 1]))
                }
            }),
    {
        match self.filter.get(index) {
            Some(i) => {
                if i == 0 {
                    Some(MainValue::Unsigned(self.raw.iteration))
                } else {
                    let def = &self.headers.main_frame_def.fields[i - 1];
                    Some(MainValue::from_raw(def.unit, def.signed, self.raw.values[i - 1]))
                }
            },
            None => None,
        }
    }

    /// The raw microsecond counter since power on.
    pub fn time_raw(&self) -> (t: u64)
        ensures
            t == self.raw.time,
    {
        self.raw.time
    }
}

/// Each main field has the unit of its base name: `vbat` and `vbatLatest`
/// hold voltages, `amperageLatest` currents, `accSmooth` accelerations and
/// `gyroADC` rotations; every other field is unitless.
pub proof fn lemma_main_units(name: Seq<u8>)
    ensures
        main_unit_of(name) == MainUnit::Voltage <==> (raw_kind_of(name) == text("vbat")
            || raw_kind_of(name) == text("vbatLatest")),
        main_unit_of(name) == MainUnit::Amperage <==> raw_kind_of(name) == text("amperageLatest"),
        main_unit_of(name) == MainUnit::Acceleration <==> raw_kind_of(name) == text("accSmooth"),
        main_unit_of(name) == MainUnit::Rotation <==> raw_kind_of(name) == text("gyroADC"),
        main_unit_of(name) == MainUnit::Unitless <==> !(raw_kind_of(name) == text("vbat")
            || raw_kind_of(name) == text("vbatLatest") || raw_kind_of(name) == text(
            "amperageLatest",
        ) || raw_kind_of(name) == text("accSmooth") || raw_kind_of(name) == text("gyroADC")),
{
    reveal_strlit("vbat");
    crate::text::lemma_ascii_text("vbat");
    reveal_strlit("vbatLatest");
    crate::text::lemma_ascii_text("vbatLatest");
    reveal_strlit("amperageLatest");
    crate::text::lemma_ascii_text("amperageLatest");
    reveal_strlit("accSmooth");
    crate::text::lemma_ascii_text("accSmooth");
    reveal_strlit("gyroADC");
    crate::text::lemma_ascii_text("gyroADC");
}

} // verus!
