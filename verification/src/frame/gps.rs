//! The definition of GPS frames. Logs without a GPS receiver declare none.

use vstd::prelude::*;
use vstd::std_specs::convert::FromSpecImpl;

use super::{
    any_left, check_predictor, check_unit, def_error_matches, entries_left, fewest_entries,
    first_bad_entry, invalid_entry, lemma_fewest, missing_field, parse_sign, predictor_available,
    signed_entry, split_headers, unit_available, Available, DefError, FieldDef, Unit,
};
use crate::decode::{encoding_of_num, Encoding};
use crate::frame_defs::{
    column_lens, column_texts, column_valid, first_bad, first_missing, header_columns,
    lemma_rows_valid, min_len, raw_kind, raw_kind_of, Column, FrameProperty,
};
use crate::filter::AppliedFilter;
use crate::headers::{DataFrameKind, Headers, ParseError};
use crate::predictor::{predictor_of_num, Predictor};
use crate::text::{str_eq, text, texts};

verus! {

/// What the values of a GPS frame field stand for.
#[derive(Debug, Clone, Copy, PartialEq, Eq, Hash, Structural)]
pub enum GpsUnit {
    Coordinate,
    Altitude,
    Velocity,
    Heading,
    Unitless,
}

/// The unit that a GPS frame field of unit `u` has.
pub open spec fn gps_unit_to_unit(u: GpsUnit) -> Unit {
    match u {
        GpsUnit::Coordinate => Unit::GpsCoordinate,
        GpsUnit::Altitude => Unit::Altitude,
        GpsUnit::Velocity => Unit::Velocity,
        GpsUnit::Heading => Unit::GpsHeading,
        GpsUnit::Unitless => Unit::Unitless,
    }
}

impl From<GpsUnit> for Unit {
    fn from(unit: GpsUnit) -> (u: Unit) {
        match unit {
            GpsUnit::Coordinate => Unit::GpsCoordinate,
            GpsUnit::Altitude => Unit::Altitude,
            GpsUnit::Velocity => Unit::Velocity,
            GpsUnit::Heading => Unit::GpsHeading,
            GpsUnit::Unitless => Unit::Unitless,
        }
    }
}

impl FromSpecImpl<GpsUnit> for Unit {
    open spec fn obeys_from_spec() -> bool {
        true
    }

    open spec fn from_spec(unit: GpsUnit) -> Unit {
        gps_unit_to_unit(unit)
    }
}

/// The unit of the GPS frame field named `name`, by its name up to its
/// index.
pub open spec fn gps_unit_of(name: Seq<u8>) -> GpsUnit {
    let base = raw_kind_of(name);
    if base == text("GPS_coord") {
        GpsUnit::Coordinate
    } else if base == text("GPS_altitude") {
        GpsUnit::Altitude
    } else if base == text("GPS_speed") {
        GpsUnit::Velocity
    } else if base == text("GPS_ground_course") {
        GpsUnit::Heading
    } else {
        GpsUnit::Unitless
    }
}

/// The unit of the GPS frame field named `name`.
pub fn unit_from_name(name: &str) -> (unit: GpsUnit)
    ensures
        unit == gps_unit_of(text(name)),
{
    let base = raw_kind(name);
    if str_eq(base, "GPS_coord") {
        GpsUnit::Coordinate
    } else if str_eq(base, "GPS_altitude") {
        GpsUnit::Altitude
    } else if str_eq(base, "GPS_speed") {
        GpsUnit::Velocity
    } else if str_eq(base, "GPS_ground_course") {
        GpsUnit::Heading
    } else {
        GpsUnit::Unitless
    }
}

/// A field of GPS frames.
#[derive(Debug, Clone, Copy)]
pub struct GpsFieldDef<'data> {
    pub name: &'data str,
    pub predictor: Predictor,
    pub encoding: Encoding,
    pub unit: GpsUnit,
    pub signed: bool,
}

/// The definition of GPS frames, less their leading `time` field.
#[derive(Debug, Clone)]
pub struct GpsFrameDef<'data> {
    pub fields: Vec<GpsFieldDef<'data>>,
}

/// The columns of the GPS frame definition headers, in the order they are
/// read: names, signedness, predictors, encodings.
pub open spec fn gps_def_layout() -> Seq<Column> {
    seq![Column::Name, Column::Name, Column::Predictor, Column::Encoding]
}

/// The names of the GPS frame definition headers, in the same order.
pub open spec fn gps_header_names() -> Seq<&'static str> {
    seq!["Field G name", "Field G signed", "Field G predictor", "Field G encoding"]
}

/// Whether row `k` of the columns defines the `time` field that GPS frames
/// start with.
pub open spec fn gps_time_row(cols: Seq<Seq<Seq<u8>>>, k: int) -> bool {
    &&& cols[0][k] == text("time")
    &&& predictor_of_num(cols[2][k]) == Some(Predictor::LastMainFrameTime)
    &&& encoding_of_num(cols[3][k]) == Some(Encoding::Variable)
}

/// The predictors after, for each field from the second to field `n - 1` in
/// turn, a home latitude predictor that follows another becomes the home
/// longitude predictor: the coordinates of the home position come as a
/// latitude and longitude pair.
#[verifier::opaque]
pub open spec fn home_fixed(ps: Seq<Predictor>, n: int) -> Seq<Predictor>
    decreases n,
{
    if n <= 1 {
        ps
    } else {
        let prev = home_fixed(ps, n - 1);
        if prev[n - 2] == Predictor::HomeLat && prev[n - 1] == Predictor::HomeLat {
            prev.update(n - 1, Predictor::HomeLon)
        } else {
            prev
        }
    }
}

/// One step of the fix: the pair ending at field `n - 1`.
pub proof fn lemma_home_fixed_step(ps: Seq<Predictor>, n: int)
    ensures
        n <= 1 ==> home_fixed(ps, n) == ps,
        n > 1 ==> home_fixed(ps, n) == (if home_fixed(ps, n - 1)[n - 2] == Predictor::HomeLat
            && home_fixed(ps, n - 1)[n - 1] == Predictor::HomeLat {
            home_fixed(ps, n - 1).update(n - 1, Predictor::HomeLon)
        } else {
            home_fixed(ps, n - 1)
        }),
{
    reveal(home_fixed);
}

/// Fixing the predictors keeps their number.
pub proof fn lemma_home_fixed_len(ps: Seq<Predictor>, n: int)
    requires
        n <= ps.len(),
    ensures
        home_fixed(ps, n).len() == ps.len(),
    decreases n,
{
    lemma_home_fixed_step(ps, n);
    if n > 1 {
        lemma_home_fixed_len(ps, n - 1);
    }
}

/// Whether `p` then `q` are both the home latitude predictor.
pub open spec fn lat_pair(p: Predictor, q: Predictor) -> bool {
    p == Predictor::HomeLat && q == Predictor::HomeLat
}

/// Whether `q` is `p`, or the home longitude predictor in place of the home
/// latitude one.
pub open spec fn kept_or_lon(p: Predictor, q: Predictor) -> bool {
    q == p || (p == Predictor::HomeLat && q == Predictor::HomeLon)
}

/// After the fix, no home latitude predictor directly follows another among
/// the first `n`.
#[verifier::spinoff_prover]
pub proof fn lemma_home_pairs(ps: Seq<Predictor>, n: int)
    requires
        0 <= n <= ps.len(),
    ensures
        home_fixed(ps, n).len() == ps.len(),
        forall|i: int|
            0 <= i < n - 1 ==> !lat_pair(#[trigger] home_fixed(ps, n)[i], home_fixed(ps, n)[i + 1]),
    decreases n,
{
    lemma_home_fixed_len(ps, n);
    lemma_home_fixed_step(ps, n);
    if n > 1 {
        lemma_home_pairs(ps, n - 1);
        lemma_home_fixed_len(ps, n - 1);
        let prev = home_fixed(ps, n - 1);
        let cur = home_fixed(ps, n);
        assert forall|i: int| 0 <= i < n - 1 implies !lat_pair(#[trigger] cur[i], cur[i + 1]) by {
            assert(cur[i] == prev[i]);
            if i < n - 2 {
                assert(cur[i + 1] == prev[i + 1]);
                assert(!lat_pair(prev[i], prev[i + 1]));
            }
        }
    }
}

/// The fix changes a predictor only from the home latitude to the home
/// longitude predictor.
#[verifier::spinoff_prover]
pub proof fn lemma_home_changes(ps: Seq<Predictor>, n: int)
    requires
        0 <= n <= ps.len(),
    ensures
        home_fixed(ps, n).len() == ps.len(),
        forall|i: int| 0 <= i < ps.len() ==> kept_or_lon(ps[i], #[trigger] home_fixed(ps, n)[i]),
    decreases n,
{
    lemma_home_fixed_len(ps, n);
    lemma_home_fixed_step(ps, n);
    if n > 1 {
        lemma_home_changes(ps, n - 1);
        lemma_home_fixed_len(ps, n - 1);
        let prev = home_fixed(ps, n - 1);
        let cur = home_fixed(ps, n);
        assert forall|i: int| 0 <= i < ps.len() implies kept_or_lon(ps[i], #[trigger] cur[i]) by {
            assert(kept_or_lon(ps[i], prev[i]));
        }
    }
}

/// In a GPS frame definition, no field predicted from the home latitude
/// directly follows another: the home coordinates come as latitude and
/// longitude pairs.
#[verifier::spinoff_prover]
pub proof fn lemma_gps_home_pairs(def: GpsFrameDef, values: Seq<Option<&str>>, m: int)
    requires
        m >= 1,
        gps_def_matches(def, values, m),
    ensures
        forall|k: int|
            0 <= k < def.fields@.len() - 1 ==> !lat_pair(
                #[trigger] def.fields@[k].predictor,
                def.fields@[k + 1].predictor,
            ),
{
    let cols = header_columns(values);
    let ps = listed_predictors(cols, m);
    lemma_home_pairs(ps, m - 1);
    assert forall|k: int| 0 <= k < def.fields@.len() - 1 implies !lat_pair(
        #[trigger] def.fields@[k].predictor,
        def.fields@[k + 1].predictor,
    ) by {
        assert(gps_field_matches(def.fields@[k], home_fixed(ps, m - 1)[k], cols, k + 1));
        assert(gps_field_matches(def.fields@[k + 1], home_fixed(ps, m - 1)[k + 1], cols, k + 2));
    }
}

/// The predictors that the rows from row 1 up to row `m` of the columns
/// name.
pub open spec fn listed_predictors(cols: Seq<Seq<Seq<u8>>>, m: int) -> Seq<Predictor> {
    Seq::new((m - 1) as nat, |k: int| predictor_of_num(cols[2][k + 1])->0)
}

/// Whether `f`, with predictor `p`, is the field that row `k` of the
/// columns defines.
pub open spec fn gps_field_matches(f: GpsFieldDef, p: Predictor, cols: Seq<Seq<Seq<u8>>>, k: int) -> bool {
    &&& text(f.name) == cols[0][k]
    &&& f.signed == signed_entry(cols[1][k])
    &&& f.predictor == p
    &&& Some(f.encoding) == encoding_of_num(cols[3][k])
    &&& f.unit == gps_unit_of(cols[0][k])
}

/// Whether `def` is the GPS frame definition with `m` rows that the headers
/// `values` give: the fields after the time, with the home position
/// predictors fixed.
pub open spec fn gps_def_matches(def: GpsFrameDef, values: Seq<Option<&str>>, m: int) -> bool {
    let cols = header_columns(values);
    let ps = home_fixed(listed_predictors(cols, m), m - 1);
    &&& def.fields@.len() == m - 1
    &&& forall|k: int|
        0 <= k < m - 1 ==> gps_field_matches(#[trigger] def.fields@[k], ps[k], cols, k + 1)
}

/// Building the GPS frame definition from the headers `values`: `None` when
/// none is given, else the number of rows, or why it cannot be built.
pub open spec fn gps_def_outcome(values: Seq<Option<&str>>) -> Result<Option<int>, DefError> {
    if forall|i: int| 0 <= i < values.len() ==> values[i] is None {
        Ok(None)
    } else {
        match first_missing(values, 0) {
            Some(_) => Err(DefError::MissingHeader),
            None => {
                let cols = header_columns(values);
                let m = min_len(column_lens(cols));
                if m < 1 {
                    Err(DefError::MissingField(DataFrameKind::Gps, "time"))
                } else {
                    match first_bad(gps_def_layout(), cols, 0, 1) {
                        Some(c) => Err(DefError::InvalidValue(c as usize)),
                        None => if !gps_time_row(cols, 0) {
                            Err(DefError::MissingField(DataFrameKind::Gps, "time"))
                        } else {
                            match first_bad(gps_def_layout(), cols, 1, m) {
                                Some(c) => Err(DefError::InvalidValue(c as usize)),
                                None => if any_left(column_lens(cols)) {
                                    Err(DefError::Malformed(DataFrameKind::Gps))
                                } else {
                                    Ok(Some(m))
                                },
                            }
                        },
                    }
                }
            },
        }
    }
}

/// Whether the headers that the predictors and units of the fields of
/// `def` need are among those given.
pub open spec fn gps_def_valid(def: GpsFrameDef, a: Available) -> bool {
    forall|k: int|
        0 <= k < def.fields@.len() ==> predictor_available(
            #[trigger] def.fields@[k].predictor,
            a,
        ) && unit_available(gps_unit_to_unit(def.fields@[k].unit), a)
}

impl<'data> GpsFrameDef<'data> {
    /// A builder that has seen no header.
    pub fn builder() -> (b: GpsFrameDefBuilder<'data>)
        ensures
            b.values() == seq![None::<&'data str>, None, None, None],
    {
        GpsFrameDefBuilder { names: None, predictors: None, encodings: None, signs: None }
    }

    /// The number of fields.
    pub fn len(&self) -> (n: usize)
        ensures
            n == self.fields@.len(),
    {
        self.fields.len()
    }

    /// The name, unit and signedness of field `index`.
    pub fn get(&self, index: usize) -> (def: Option<FieldDef<'data, GpsUnit>>)
        ensures
            index < self.fields@.len() ==> def == Some(
                FieldDef {
                    name: self.fields@[index as int].name,
                    unit: self.fields@[index as int].unit,
                    signed: self.fields@[index as int].signed,
                },
            ),
            index >= self.fields@.len() ==> def is None,
    {
        if index < self.fields.len() {
            let f = &self.fields[index];
            Some(FieldDef { name: f.name, unit: f.unit, signed: f.signed })
        } else {
            None
        }
    }

    /// Checks that the headers that each field's predictor and unit need
    /// were given.
    pub fn validate(&self, available: &Available) -> (res: Result<(), ParseError>)
        ensures
            res is Ok <==> gps_def_valid(*self, *available),
            res is Err ==> res matches Err(ParseError::MissingHeader),
    {
        let mut i: usize = 0;
        while i < self.fields.len()
            invariant
                i <= self.fields@.len(),
                forall|k: int|
                    0 <= k < i ==> predictor_available(
                        #[trigger] self.fields@[k].predictor,
                        *available,
                    ) && unit_available(gps_unit_to_unit(self.fields@[k].unit), *available),
            decreases self.fields@.len() - i,
        {
            let f = &self.fields[i];
            match check_predictor(f.predictor, available) {
                Ok(()) => {},
                Err(e) => return Err(e),
            }
            match check_unit(Unit::from(f.unit), available) {
                Ok(()) => {},
                Err(e) => return Err(e),
            }
            i += 1;
        }
        Ok(())
    }
}

/// The builder after recording `value` for `property`.
pub open spec fn gps_def_updated<'data>(b: GpsFrameDefBuilder<'data>, property: FrameProperty, value: &'data str) -> GpsFrameDefBuilder<'data> {
    match property {
        FrameProperty::Name => GpsFrameDefBuilder { names: Some(value), ..b },
        FrameProperty::Predictor => GpsFrameDefBuilder {
            predictors: Some(value),
            ..b
        },
        FrameProperty::Encoding => GpsFrameDefBuilder {
            encodings: Some(value),
            ..b
        },
        FrameProperty::Signed => GpsFrameDefBuilder { signs: Some(value), ..b },
    }
}

/// Collects the GPS frame definition headers.
#[derive(Debug, Clone, Copy)]
pub struct GpsFrameDefBuilder<'data> {
    pub names: Option<&'data str>,
    pub predictors: Option<&'data str>,
    pub encodings: Option<&'data str>,
    pub signs: Option<&'data str>,
}

impl<'data> GpsFrameDefBuilder<'data> {
    /// The headers, in the order their entries are read.
    pub open spec fn values(&self) -> Seq<Option<&'data str>> {
        seq![self.names, self.signs, self.predictors, self.encodings]
    }

    /// Records the header for `property`.
    pub fn update(&mut self, property: FrameProperty, value: &'data str)
        ensures
            *final(self) == gps_def_updated(*old(self), property, value),
    {
        match property {
            FrameProperty::Name => self.names = Some(value),
            FrameProperty::Predictor => self.predictors = Some(value),
            FrameProperty::Encoding => self.encodings = Some(value),
            FrameProperty::Signed => self.signs = Some(value),
        }
    }

    /// Builds the definition of GPS frames from the headers; `None` when
    /// the log declares no GPS frames.
    #[verifier::rlimit(40)]
    pub fn parse(self) -> (res: Result<Option<GpsFrameDef<'data>>, ParseError>)
        ensures
            match gps_def_outcome(self.values()) {
                Err(e) => res matches Err(err) && def_error_matches(
                    e,
                    err,
                    gps_header_names(),
                    self.values(),
                ),
                Ok(None) => res matches Ok(None),
                Ok(Some(m)) => res matches Ok(Some(def)) && gps_def_matches(def, self.values(), m),
            },
    {
        if self.names.is_none() && self.predictors.is_none() && self.encodings.is_none()
            && self.signs.is_none() {
            assert(forall|i: int| 0 <= i < self.values().len() ==> self.values()[i] is None);
            return Ok(None);
        }
        let mut values: Vec<Option<&'data str>> = Vec::new();
        values.push(self.names);
        values.push(self.signs);
        values.push(self.predictors);
        values.push(self.encodings);
        assert(values@ =~= self.values());
        let names: [&'static str; 4] = [
            "Field G name",
            "Field G signed",
            "Field G predictor",
            "Field G encoding",
        ];
        assert(names@ =~= gps_header_names());
        let cols = match split_headers(&values) {
            Some(cols) => cols,
            None => return Err(ParseError::MissingHeader),
        };
        let ghost tcols = header_columns(values@);
        let m = fewest_entries(&cols);
        proof {
            lemma_fewest(cols@);
        }
        if m < 1 {
            return Err(missing_field(DataFrameKind::Gps, "time"));
        }
        let layout: [Column; 4] = [Column::Name, Column::Name, Column::Predictor, Column::Encoding];
        assert(layout@ =~= gps_def_layout());
        match first_bad_entry(layout.as_slice(), &cols, 0, 1) {
            Some(c) => return Err(invalid_entry(names.as_slice(), &values, c)),
            None => {},
        }
        proof {
            lemma_rows_valid(layout@, tcols, 0, 1);
        }
        assert(texts(cols@[0]@)[0] == text(cols@[0]@[0]));
        assert(texts(cols@[2]@)[0] == text(cols@[2]@[0]));
        assert(texts(cols@[3]@)[0] == text(cols@[3]@[0]));
        assert(column_valid(layout@[2], tcols[2][0]));
        assert(column_valid(layout@[3], tcols[3][0]));
        let time_ok = str_eq(cols[0][0], "time") && Predictor::from_num_str(cols[2][0]).unwrap()
            == Predictor::LastMainFrameTime && Encoding::from_num_str(cols[3][0]).unwrap()
            == Encoding::Variable;
        if !time_ok {
            return Err(missing_field(DataFrameKind::Gps, "time"));
        }
        match first_bad_entry(layout.as_slice(), &cols, 1, m) {
            Some(c) => return Err(invalid_entry(names.as_slice(), &values, c)),
            None => {},
        }
        let fields = self.collect_fields(&cols, m);
        if entries_left(&cols, 0) || entries_left(&cols, 1) || entries_left(&cols, 2)
            || entries_left(&cols, 3) {
            return Err(ParseError::MalformedFrameDef(DataFrameKind::Gps));
        }
        Ok(Some(GpsFrameDef { fields }))
    }

    /// The fields of rows 1 up to `m`, with the home position predictors
    /// fixed.
    fn collect_fields(&self, cols: &Vec<Vec<&'data str>>, m: usize) -> (fields: Vec<GpsFieldDef<'data>>)
        requires
            1 <= m,
            cols@.len() == 4,
            forall|c: int| 0 <= c < cols@.len() ==> m <= cols@[c]@.len(),
            first_bad(gps_def_layout(), column_texts(cols@), 1, m as int) is None,
        ensures
            fields@.len() == m - 1,
            ({
                let tcols = column_texts(cols@);
                let ps = home_fixed(listed_predictors(tcols, m as int), m - 1);
                forall|k: int|
                    0 <= k < m - 1 ==> gps_field_matches(#[trigger] fields@[k], ps[k], tcols, k + 1)
            }),
    {
        let ghost tcols = column_texts(cols@);
        let ghost listed = listed_predictors(tcols, m as int);
        proof {
            lemma_rows_valid(gps_def_layout(), tcols, 1, m as int);
        }
        let mut fields: Vec<GpsFieldDef<'data>> = Vec::new();
        let mut k: usize = 1;
        while k < m
            invariant
                1 <= k <= m,
                cols@.len() == 4,
                tcols == column_texts(cols@),
                listed == listed_predictors(tcols, m as int),
                forall|c: int| 0 <= c < cols@.len() ==> m <= cols@[c]@.len(),
                forall|r: int, d: int|
                    1 <= r < m && 0 <= d < 4 ==> column_valid(gps_def_layout()[d], tcols[d][r]),
                fields@.len() == k - 1,
                forall|j: int|
                    0 <= j < k - 1 ==> gps_field_matches(
                        #[trigger] fields@[j],
                        listed[j],
                        tcols,
                        j + 1,
                    ),
            decreases m - k,
        {
            assert(texts(cols@[0]@)[k as int] == text(cols@[0]@[k as int]));
            assert(texts(cols@[1]@)[k as int] == text(cols@[1]@[k as int]));
            assert(texts(cols@[2]@)[k as int] == text(cols@[2]@[k as int]));
            assert(texts(cols@[3]@)[k as int] == text(cols@[3]@[k as int]));
            assert(column_valid(gps_def_layout()[2], tcols[2][k as int]));
            assert(column_valid(gps_def_layout()[3], tcols[3][k as int]));
            let name = cols[0][k];
            let field = GpsFieldDef {
                name,
                predictor: Predictor::from_num_str(cols[2][k]).unwrap(),
                encoding: Encoding::from_num_str(cols[3][k]).unwrap(),
                unit: unit_from_name(name),
                signed: parse_sign(cols[1][k]),
            };
            assert(listed[k - 1] == predictor_of_num(tcols[2][k as int])->0);
            fields.push(field);
            k += 1;
        }
        // a home latitude predictor that follows another is the longitude
        let ghost n = fields@.len() as int;
        proof {
            lemma_home_fixed_step(listed, 1);
        }
        let mut i: usize = 1;
        while i < fields.len()
            invariant
                1 <= i,
                n == fields@.len() == m - 1,
                i <= fields@.len() || fields@.len() == 0,
                listed.len() == n,
                home_fixed(listed, i as int).len() == n,
                forall|j: int|
                    0 <= j < n ==> fields@[j].predictor == #[trigger] home_fixed(listed, i as int)[j],
                forall|j: int|
                    0 <= j < n ==> gps_field_matches(
                        #[trigger] fields@[j],
                        fields@[j].predictor,
                        tcols,
                        j + 1,
                    ),
            decreases fields@.len() - i,
        {
            proof {
                lemma_home_fixed_len(listed, i as int + 1);
                lemma_home_fixed_len(listed, i as int);
                lemma_home_fixed_step(listed, i as int + 1);
            }
            if fields[i - 1].predictor == Predictor::HomeLat && fields[i].predictor
                == Predictor::HomeLat {
                let mut f = fields[i];
                f.predictor = Predictor::HomeLon;
                fields.set(i, f);
            }
            i += 1;
        }
        proof {
            if n >= 1 {
                assert(i == n);
            } else {
                lemma_home_fixed_step(listed, n);
            }
        }
        fields
    }
}


/// A GPS frame as read from the log: its time in microseconds and the
/// values of the fields that follow it.
#[derive(Debug, Clone)]
pub struct RawGpsFrame {
    pub time: u64,
    pub values: Vec<u32>,
}

/// The value of a GPS frame field, tagged by its unit, as it was logged:
/// coordinates in units of 1e-7 degrees, altitude in metres, velocity in
/// cm/s and heading in tenths of a degree. Turning these into floating
/// point quantities is left to the caller.
#[derive(Debug, Clone, Copy, PartialEq, Eq, Structural)]
pub enum GpsValue {
    Coordinate(i32),
    Altitude(i64),
    Velocity(u32),
    Heading(u32),
    Unsigned(u32),
    Signed(i32),
}

/// The value of a GPS frame field of unit `unit` whose raw value is `raw`.
pub open spec fn gps_value_of(unit: GpsUnit, signed: bool, raw: u32) -> GpsValue {
    match unit {
        GpsUnit::Coordinate => GpsValue::Coordinate(raw as i32),
        GpsUnit::Altitude => GpsValue::Altitude(
            if signed {
                (raw as i32) as i64
            } else {
                raw as i64
            },
        ),
        GpsUnit::Velocity => GpsValue::Velocity(raw),
        GpsUnit::Heading => GpsValue::Heading(raw),
        GpsUnit::Unitless => if signed {
            GpsValue::Signed(raw as i32)
        } else {
            GpsValue::Unsigned(raw)
        },
    }
}

/// Coordinates are signed; velocities and headings are not.
pub open spec fn gps_sign_fits(unit: GpsUnit, signed: bool) -> bool {
    match unit {
        GpsUnit::Coordinate => signed,
        GpsUnit::Velocity | GpsUnit::Heading => !signed,
        _ => true,
    }
}

impl GpsValue {
    /// A value without a unit: the bits of a two's complement integer when
    /// the field is signed.
    pub fn new_unitless(value: u32, signed: bool) -> (v: Self)
        ensures
            v == gps_value_of(GpsUnit::Unitless, signed, value),
    {
        if signed {
            GpsValue::Signed(value as i32)
        } else {
            GpsValue::Unsigned(value)
        }
    }

    /// The value of a field of unit `unit` and signedness `signed` whose
    /// raw value is `raw`.
    pub fn from_raw(unit: GpsUnit, signed: bool, raw: u32) -> (v: Self)
        requires
            gps_sign_fits(unit, signed),
        ensures
            v == gps_value_of(unit, signed, raw),
    {
        match unit {
            GpsUnit::Coordinate => GpsValue::Coordinate(raw as i32),
            GpsUnit::Altitude => {
                let altitude: i64 = if signed {
                    (raw as i32) as i64
                } else {
                    raw as i64
                };
                GpsValue::Altitude(altitude)
            },
            GpsUnit::Velocity => GpsValue::Velocity(raw),
            GpsUnit::Heading => GpsValue::Heading(raw),
            GpsUnit::Unitless => GpsValue::new_unitless(raw, signed),
        }
    }
}

/// A GPS frame seen through a filter: the `i`-th field it shows is field
/// `filter[i]` of the frame.
pub struct GpsFrame<'h, 'data> {
    pub headers: &'h Headers<'data>,
    pub raw: RawGpsFrame,
    pub filter: &'h AppliedFilter,
}

impl<'h, 'data> GpsFrame<'h, 'data> {
    /// The headers declare GPS frames, there is a value for each of their
    /// fields, each field's sign suits its unit, and the filter keeps fields
    /// that exist.
    pub open spec fn wf(&self) -> bool {
        &&& self.headers.gps_frame_def is Some
        &&& self.raw.values@.len() == self.headers.gps_frame_def->0.fields@.len()
        &&& forall|i: int|
            0 <= i < self.raw.values@.len() ==> #[trigger] gps_sign_fits(
                self.headers.gps_frame_def->0.fields@[i].unit,
                self.headers.gps_frame_def->0.fields@[i].signed,
            )
        &&& forall|i: int| 0 <= i < self.filter.0@.len() ==> self.filter.0@[i] < self.raw.values@.len()
    }

    /// A frame of the values `raw`, of which `filter` keeps some.
    pub fn new(headers: &'h Headers<'data>, raw: RawGpsFrame, filter: &'h AppliedFilter) -> (f:
        Self)
        ensures
            f.headers == headers,
            f.raw == raw,
            f.filter == filter,
    {
        GpsFrame { headers, raw, filter }
    }

    /// The number of values the filter keeps.
    pub fn len(&self) -> (n: usize)
        ensures
            n == self.filter.0@.len(),
    {
        self.filter.len()
    }

    /// The raw value of the `index`-th field kept.
    pub fn get_raw(&self, index: usize) -> (v: Option<u32>)
        requires
            forall|i: int|
                0 <= i < self.filter.0@.len() ==> self.filter.0@[i] < self.raw.values@.len(),
        ensures
            index < self.filter.0@.len() ==> v == Some(
                self.raw.values@[self.filter.0@[index as int] as int],
            ),
            index >= self.filter.0@.len() ==> v is None,
    {
        match self.filter.get(index) {
            Some(i) => Some(self.raw.values[i]),
            None => None,
        }
    }

    /// The value of the `index`-th field kept, read by the field's unit.
    pub fn get(&self, index: usize) -> (v: Option<GpsValue>)
        requires
            self.wf(),
        ensures
            index >= self.filter.0@.len() ==> v is None,
            index < self.filter.0@.len() ==> ({
                let i = self.filter.0@[index as int] as int;
                let def = self.headers.gps_frame_def->0.fields@[i];
                v == Some(gps_value_of(def.unit, def.signed, self.raw.values@[i]))
            }),
    {
        match self.filter.get(index) {
            Some(i) => {
                let frame_def = match &self.headers.gps_frame_def {
                    Some(d) => d,
                    None => {
                        return None;
                    },
                };
                let def = &frame_def.fields[i];
                proof {
                    assert(gps_sign_fits(def.unit, def.signed));
                }
                Some(GpsValue::from_raw(def.unit, def.signed, self.raw.values[i]))
            },
            None => None,
        }
    }

    /// The raw microsecond counter since power on.
    pub fn time_raw(&self) -> (t: u64)
        ensures
            t == self.raw.time,
    {
        self.raw.time
    }
}

/// Each GPS field has the unit of its base name: `GPS_coord` holds
/// coordinates, `GPS_altitude` altitudes, `GPS_speed` velocities and
/// `GPS_ground_course` headings; every other field is unitless.
pub proof fn lemma_gps_units(name: Seq<u8>)
    ensures
        gps_unit_of(name) == GpsUnit::Coordinate <==> raw_kind_of(name) == text("GPS_coord"),
        gps_unit_of(name) == GpsUnit::Altitude <==> raw_kind_of(name) == text("GPS_altitude"),
        gps_unit_of(name) == GpsUnit::Velocity <==> raw_kind_of(name) == text("GPS_speed"),
        gps_unit_of(name) == GpsUnit::Heading <==> raw_kind_of(name) == text("GPS_ground_course"),
        gps_unit_of(name) == GpsUnit::Unitless <==> !(raw_kind_of(name) == text("GPS_coord")
            || raw_kind_of(name) == text("GPS_altitude") || raw_kind_of(name) == text("GPS_speed")
            || raw_kind_of(name) == text("GPS_ground_course")),
{
    reveal_strlit("GPS_coord");
    crate::text::lemma_ascii_text("GPS_coord");
    reveal_strlit("GPS_altitude");
    crate::text::lemma_ascii_text("GPS_altitude");
    reveal_strlit("GPS_speed");
    crate::text::lemma_ascii_text("GPS_speed");
    reveal_strlit("GPS_ground_course");
    crate::text::lemma_ascii_text("GPS_ground_course");
    assert(text("GPS_coord")[4] != text("GPS_speed")[4]);
}

} // verus!
