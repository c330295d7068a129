//! The definition of slow frames, which hold the fields that change seldom:
//! flight modes, state flags, the failsafe phase and the receiver status.

use vstd::prelude::*;
use vstd::std_specs::convert::FromSpecImpl;

use super::{
    any_left, check_predictor, check_unit, def_error_matches, entries_left, fewest_entries,
    first_bad_entry, invalid_entry, lemma_fewest, parse_sign, predictor_available,
    signed_entry, split_headers, unit_available, Available, DefError, FieldDef, Unit,
};
use crate::decode::{encoding_of_num, Encoding};
use crate::frame_defs::{
    column_lens, column_texts, first_bad, first_missing, header_columns, lemma_rows_valid,
    min_len, Column, FrameProperty,
};
use crate::filter::AppliedFilter;
use crate::headers::{DataFrameKind, Headers, InternalFirmware, ParseError};
use crate::units::failsafe_phase::failsafe_phase_of;
use crate::units::{FailsafePhase, FlightModeSet, StateSet};
use crate::predictor::{predictor_of_num, Predictor};
use crate::text::{str_eq, text, texts};

verus! {

/// What the values of a slow frame field stand for.
#[derive(Debug, Clone, Copy, PartialEq, Eq, Hash, Structural)]
pub enum SlowUnit {
    FlightMode,
    State,
    FailsafePhase,
    Boolean,
    Unitless,
}

/// The unit that a slow frame field of unit `u` has.
pub open spec fn slow_unit_to_unit(u: SlowUnit) -> Unit {
    match u {
        SlowUnit::FlightMode => Unit::FlightMode,
        SlowUnit::State => Unit::State,
        SlowUnit::FailsafePhase => Unit::FailsafePhase,
        SlowUnit::Boolean => Unit::Boolean,
        SlowUnit::Unitless => Unit::Unitless,
    }
}

impl From<SlowUnit> for Unit {
    fn from(unit: SlowUnit) -> (u: Unit) {
        match unit {
            SlowUnit::FlightMode => Unit::FlightMode,
            SlowUnit::State => Unit::State,
            SlowUnit::FailsafePhase => Unit::FailsafePhase,
            SlowUnit::Boolean => Unit::Boolean,
            SlowUnit::Unitless => Unit::Unitless,
        }
    }
}

impl FromSpecImpl<SlowUnit> for Unit {
    open spec fn obeys_from_spec() -> bool {
        true
    }

    open spec fn from_spec(unit: SlowUnit) -> Unit {
        slow_unit_to_unit(unit)
    }
}

/// The unit of the slow frame field named `name`.
pub open spec fn slow_unit_of(name: Seq<u8>) -> SlowUnit {
    if name == text("flightModeFlags") {
        SlowUnit::FlightMode
    } else if name == text("stateFlags") {
        SlowUnit::State
    } else if name == text("failsafePhase") {
        SlowUnit::FailsafePhase
    } else if name == text("rxSignalReceived") || name == text("rxFlightChannelsValid") {
        SlowUnit::Boolean
    } else {
        SlowUnit::Unitless
    }
}

/// The unit of the slow frame field named `name`.
pub fn unit_from_name(name: &str) -> (unit: SlowUnit)
    ensures
        unit == slow_unit_of(text(name)),
{
    if str_eq(name, "flightModeFlags") {
        SlowUnit::FlightMode
    } else if str_eq(name, "stateFlags") {
        SlowUnit::State
    } else if str_eq(name, "failsafePhase") {
        SlowUnit::FailsafePhase
    } else if str_eq(name, "rxSignalReceived") || str_eq(name, "rxFlightChannelsValid") {
        SlowUnit::Boolean
    } else {
        SlowUnit::Unitless
    }
}

/// A value of a slow frame field, read by its unit.
#[derive(Debug, Clone, Copy, PartialEq, Eq, Hash)]
pub enum SlowValue {
    FlightMode(FlightModeSet),
    State(StateSet),
    FailsafePhase(FailsafePhase),
    Boolean(bool),
    Unsigned(u32),
    Signed(i32),
}

impl SlowValue {
    /// A value without a unit: the bits of a two's complement integer when
    /// the field is signed.
    pub fn new_unitless(value: u32, signed: bool) -> (v: Self)
        ensures
            v == (if signed {
                SlowValue::Signed(value as i32)
            } else {
                SlowValue::Unsigned(value)
            }),
    {
        if signed {
            SlowValue::Signed(value as i32)
        } else {
            SlowValue::Unsigned(value)
        }
    }

    /// The value of a field of unit `unit` and signedness `signed` whose
    /// raw value is `raw`, as written by firmware `fw`.
    pub fn from_raw(unit: SlowUnit, signed: bool, raw: u32, fw: InternalFirmware) -> (v: Self)
        ensures
            match unit {
                SlowUnit::FlightMode => v matches SlowValue::FlightMode(set) && set.spec_raw() == raw
                    && set.spec_firmware() == fw,
                SlowUnit::State => v matches SlowValue::State(set) && set.spec_raw() == raw
                    && set.spec_firmware() == fw,
                SlowUnit::FailsafePhase => v == SlowValue::FailsafePhase(failsafe_phase_of(raw, fw)),
                SlowUnit::Boolean => v == SlowValue::Boolean(raw != 0),
                SlowUnit::Unitless => v == (if signed {
                    SlowValue::Signed(raw as i32)
                } else {
                    SlowValue::Unsigned(raw)
                }),
            },
    {
        match unit {
            SlowUnit::FlightMode => SlowValue::FlightMode(FlightModeSet::new(raw, fw)),
            SlowUnit::State => SlowValue::State(StateSet::new(raw, fw)),
            SlowUnit::FailsafePhase => SlowValue::FailsafePhase(FailsafePhase::new(raw, fw)),
            SlowUnit::Boolean => SlowValue::Boolean(raw != 0),
            SlowUnit::Unitless => SlowValue::new_unitless(raw, signed),
        }
    }
}

/// A field of slow frames.
#[derive(Debug, Clone, Copy)]
pub struct SlowFieldDef<'data> {
    pub name: &'data str,
    pub predictor: Predictor,
    pub encoding: Encoding,
    pub unit: SlowUnit,
    pub signed: bool,
}

/// The definition of slow frames.
#[derive(Debug, Clone)]
pub struct SlowFrameDef<'data> {
    pub fields: Vec<SlowFieldDef<'data>>,
}

/// The columns of the slow frame definition headers, in the order they are
/// read: names, signedness, predictors, encodings.
pub open spec fn slow_def_layout() -> Seq<Column> {
    seq![Column::Name, Column::Name, Column::Predictor, Column::Encoding]
}

/// The names of the slow frame definition headers, in the same order.
pub open spec fn slow_header_names() -> Seq<&'static str> {
    seq!["Field S name", "Field S signed", "Field S predictor", "Field S encoding"]
}

/// Whether `f` is the field that row `k` of the columns defines.
pub open spec fn slow_field_matches(f: SlowFieldDef, cols: Seq<Seq<Seq<u8>>>, k: int) -> bool {
    &&& text(f.name) == cols[0][k]
    &&& f.signed == signed_entry(cols[1][k])
    &&& Some(f.predictor) == predictor_of_num(cols[2][k])
    &&& Some(f.encoding) == encoding_of_num(cols[3][k])
    &&& f.unit == slow_unit_of(cols[0][k])
}

/// Whether `def` is the slow frame definition with `m` fields that the
/// headers `values` give.
pub open spec fn slow_def_matches(def: SlowFrameDef, values: Seq<Option<&str>>, m: int) -> bool {
    &&& def.fields@.len() == m
    &&& forall|k: int|
        0 <= k < m ==> slow_field_matches(#[trigger] def.fields@[k], header_columns(values), k)
}

/// Building the slow frame definition from the headers `values`: the number
/// of fields, or why it cannot be built.
pub open spec fn slow_def_outcome(values: Seq<Option<&str>>) -> Result<int, DefError> {
    match first_missing(values, 0) {
        Some(_) => Err(DefError::MissingHeader),
        None => {
            let cols = header_columns(values);
            let m = min_len(column_lens(cols));
            match first_bad(slow_def_layout(), cols, 0, m) {
                Some(c) => Err(DefError::InvalidValue(c as usize)),
                None => if any_left(column_lens(cols)) {
                    Err(DefError::Malformed(DataFrameKind::Slow))
                } else {
                    Ok(m)
                },
            }
        },
    }
}

/// Whether the headers that the predictors and units of the fields of
/// `def` need are among those given.
pub open spec fn slow_def_valid(def: SlowFrameDef, a: Available) -> bool {
    forall|k: int|
        0 <= k < def.fields@.len() ==> predictor_available(
            #[trigger] def.fields@[k].predictor,
            a,
        ) && unit_available(slow_unit_to_unit(def.fields@[k].unit), a)
}

impl<'data> SlowFrameDef<'data> {
    /// A builder that has seen no header.
    pub fn builder() -> (b: SlowFrameDefBuilder<'data>)
        ensures
            b.values() == seq![None::<&'data str>, None, None, None],
    {
        SlowFrameDefBuilder { names: None, predictors: None, encodings: None, signs: None }
    }

    /// The number of fields.
    pub fn len(&self) -> (n: usize)
        ensures
            n == self.fields@.len(),
    {
        self.fields.len()
    }

    /// The name, unit and signedness of field `index`.
    pub fn get(&self, index: usize) -> (def: Option<FieldDef<'data, SlowUnit>>)
        ensures
            index < self.fields@.len() ==> def == Some(
                FieldDef {
                    name: self.fields@[index as int].name,
                    unit: self.fields@[index as int].unit,
                    signed: self.fields@[index as int].signed,
                },
            ),
            index >= self.fields@.len() ==> def is None,
    {
        if index < self.fields.len() {
            let f = &self.fields[index];
            Some(FieldDef { name: f.name, unit: f.unit, signed: f.signed })
        } else {
            None
        }
    }

    /// Checks that the headers that each field's predictor and unit need
    /// were given.
    pub fn validate(&self, available: &Available) -> (res: Result<(), ParseError>)
        ensures
            res is Ok <==> slow_def_valid(*self, *available),
            res is Err ==> res matches Err(ParseError::MissingHeader),
    {
        let mut i: usize = 0;
        while i < self.fields.len()
            invariant
                i <= self.fields@.len(),
                forall|k: int|
                    0 <= k < i ==> predictor_available(
                        #[trigger] self.fields@[k].predictor,
                        *available,
                    ) && unit_available(slow_unit_to_unit(self.fields@[k].unit), *available),
            decreases self.fields@.len() - i,
        {
            let f = &self.fields[i];
            match check_predictor(f.predictor, available) {
                Ok(()) => {},
                Err(e) => return Err(e),
            }
            match check_unit(Unit::from(f.unit), available) {
                Ok(()) => {},
                Err(e) => return Err(e),
            }
            i += 1;
        }
        Ok(())
    }
}

/// The builder after recording `value` for `property`.
pub open spec fn slow_def_updated<'data>(b: SlowFrameDefBuilder<'data>, property: FrameProperty, value: &'data str) -> SlowFrameDefBuilder<'data> {
    match property {
        FrameProperty::Name => SlowFrameDefBuilder { names: Some(value), ..b },
        FrameProperty::Predictor => SlowFrameDefBuilder {
            predictors: Some(value),
            ..b
        },
        FrameProperty::Encoding => SlowFrameDefBuilder {
            encodings: Some(value),
            ..b
        },
        FrameProperty::Signed => SlowFrameDefBuilder { signs: Some(value), ..b },
    }
}

/// Collects the slow frame definition headers.
#[derive(Debug, Clone, Copy)]
pub struct SlowFrameDefBuilder<'data> {
    pub names: Option<&'data str>,
    pub predictors: Option<&'data str>,
    pub encodings: Option<&'data str>,
    pub signs: Option<&'data str>,
}

impl<'data> SlowFrameDefBuilder<'data> {
    /// The headers, in the order their entries are read.
    pub open spec fn values(&self) -> Seq<Option<&'data str>> {
        seq![self.names, self.signs, self.predictors, self.encodings]
    }

    /// Records the header for `property`.
    pub fn update(&mut self, property: FrameProperty, value: &'data str)
        ensures
            *final(self) == slow_def_updated(*old(self), property, value),
    {
        match property {
            FrameProperty::Name => self.names = Some(value),
            FrameProperty::Predictor => self.predictors = Some(value),
            FrameProperty::Encoding => self.encodings = Some(value),
            FrameProperty::Signed => self.signs = Some(value),
        }
    }

    /// Builds the definition of slow frames from the headers.
    #[verifier::rlimit(30)]
    pub fn parse(self) -> (res: Result<SlowFrameDef<'data>, ParseError>)
        ensures
            match slow_def_outcome(self.values()) {
                Err(e) => res matches Err(err) && def_error_matches(
                    e,
                    err,
                    slow_header_names(),
                    self.values(),
                ),
                Ok(m) => res matches Ok(def) && slow_def_matches(def, self.values(), m),
            },
    {
        let mut values: Vec<Option<&'data str>> = Vec::new();
        values.push(self.names);
        values.push(self.signs);
        values.push(self.predictors);
        values.push(self.encodings);
        assert(values@ =~= self.values());
        let names: [&'static str; 4] = [
            "Field S name",
            "Field S signed",
            "Field S predictor",
            "Field S encoding",
        ];
        assert(names@ =~= slow_header_names());
        let cols = match split_headers(&values) {
            Some(cols) => cols,
            None => return Err(ParseError::MissingHeader),
        };
        let ghost tcols = header_columns(values@);
        let m = fewest_entries(&cols);
        proof {
            lemma_fewest(cols@);
        }
        let layout: [Column; 4] = [Column::Name, Column::Name, Column::Predictor, Column::Encoding];
        assert(layout@ =~= slow_def_layout());
        match first_bad_entry(layout.as_slice(), &cols, 0, m) {
            Some(c) => return Err(invalid_entry(names.as_slice(), &values, c)),
            None => {},
        }
        if entries_left(&cols, 0) || entries_left(&cols, 1) || entries_left(&cols, 2)
            || entries_left(&cols, 3) {
            return Err(ParseError::MalformedFrameDef(DataFrameKind::Slow));
        }
        proof {
            lemma_rows_valid(layout@, tcols, 0, m as int);
        }
        let mut fields: Vec<SlowFieldDef<'data>> = Vec::new();
        let mut k: usize = 0;
        while k < m
            invariant
                k <= m == min_len(column_lens(tcols)),
                cols@.len() == 4,
                column_texts(cols@) == tcols,
                tcols == header_columns(values@),
                values@ == self.values(),
                layout@ == slow_def_layout(),
                forall|c: int| 0 <= c < cols@.len() ==> m <= cols@[c]@.len(),
                forall|r: int, d: int|
                    0 <= r < m && 0 <= d < layout@.len() ==> crate::frame_defs::column_valid(
                        layout@[d],
                        tcols[d][r],
                    ),
                fields@.len() == k,
                forall|j: int| 0 <= j < k ==> slow_field_matches(#[trigger] fields@[j], tcols, j),
            decreases m - k,
        {
            assert(texts(cols@[0]@)[k as int] == text(cols@[0]@[k as int]));
            assert(texts(cols@[1]@)[k as int] == text(cols@[1]@[k as int]));
            assert(texts(cols@[2]@)[k as int] == text(cols@[2]@[k as int]));
            assert(texts(cols@[3]@)[k as int] == text(cols@[3]@[k as int]));
            assert(crate::frame_defs::column_valid(layout@[2], tcols[2][k as int]));
            assert(crate::frame_defs::column_valid(layout@[3], tcols[3][k as int]));
            let name = cols[0][k];
            let field = SlowFieldDef {
                name,
                predictor: Predictor::from_num_str(cols[2][k]).unwrap(),
                encoding: Encoding::from_num_str(cols[3][k]).unwrap(),
                unit: unit_from_name(name),
                signed: parse_sign(cols[1][k]),
            };
            fields.push(field);
            k += 1;
        }
        Ok(SlowFrameDef { fields })
    }
}

/// The values of a slow frame, seen through a filter.
pub struct SlowFrame<'h, 'data> {
    pub headers: &'h Headers<'data>,
    pub raw: Vec<u32>,
    pub filter: &'h AppliedFilter,
}

impl<'h, 'data> SlowFrame<'h, 'data> {
    /// There is a value for each field, and the filter keeps fields that
    /// exist.
    pub open spec fn wf(&self) -> bool {
        &&& self.raw@.len() == self.headers.slow_frame_def.fields@.len()
        &&& forall|i: int| 0 <= i < self.filter.0@.len() ==> self.filter.0@[i] < self.raw@.len()
    }

    /// A frame of the values `raw`, of which `filter` keeps some.
    pub fn new(headers: &'h Headers<'data>, raw: Vec<u32>, filter: &'h AppliedFilter) -> (f: Self)
        ensures
            f.headers == headers,
            f.raw == raw,
            f.filter == filter,
    {
        SlowFrame { headers, raw, filter }
    }

    /// The number of values the filter keeps.
    pub fn len(&self) -> (n: usize)
        ensures
            n == self.filter.0@.len(),
    {
        self.filter.len()
    }

    /// The raw value of the `index`-th field kept.
    pub fn get_raw(&self, index: usize) -> (v: Option<u32>)
        requires
            self.wf(),
        ensures
            index < self.filter.0@.len() ==> v == Some(self.raw@[self.filter.0@[index as int] as int]),
            index >= self.filter.0@.len() ==> v is None,
    {
        match self.filter.get(index) {
            Some(i) => Some(self.raw[i]),
            None => None,
        }
    }

    /// The value of the `index`-th field kept, read by the field's unit.
    pub fn get(&self, index: usize) -> (v: Option<SlowValue>)
        requires
            self.wf(),
        ensures
            index >= self.filter.0@.len() ==> v is None,
            index < self.filter.0@.len() ==> ({
                let i = self.filter.0@[index as int] as int;
                let def = self.headers.slow_frame_def.fields@[i];
                let raw = self.raw@[i];
                let fw = self.headers.firmware;
                match def.unit {
                    SlowUnit::FlightMode => v matches Some(SlowValue::FlightMode(set))
                        && set.spec_raw() == raw && set.spec_firmware() == fw,
                    SlowUnit::State => v matches Some(SlowValue::State(set)) && set.spec_raw() == raw
                        && set.spec_firmware() == fw,
                    SlowUnit::FailsafePhase => v == Some(
                        SlowValue::FailsafePhase(failsafe_phase_of(raw, fw)),
                    ),
                    SlowUnit::Boolean => v == Some(SlowValue::Boolean(raw != 0)),
                    SlowUnit::Unitless => v == Some(
                        if def.signed {
                            SlowValue::Signed(raw as i32)
                        } else {
                            SlowValue::Unsigned(raw)
                        },
                    ),
                }
            }),
    {
        match self.filter.get(index) {
            Some(i) => {
                let def = &self.headers.slow_frame_def.fields[i];
                Some(SlowValue::from_raw(def.unit, def.signed, self.raw[i], self.headers.firmware))
            },
            None => None,
        }
    }
}

/// Each named slow field has its own unit: `flightModeFlags` holds flight
/// modes, `stateFlags` state flags, `failsafePhase` the failsafe phase, and
/// `rxSignalReceived` and `rxFlightChannelsValid` booleans; every other field
/// is unitless.
pub proof fn lemma_slow_units(name: Seq<u8>)
    ensures
        slow_unit_of(name) == SlowUnit::FlightMode <==> name == text("flightModeFlags"),
        slow_unit_of(name) == SlowUnit::State <==> name == text("stateFlags"),
        slow_unit_of(name) == SlowUnit::FailsafePhase <==> name == text("failsafePhase"),
        slow_unit_of(name) == SlowUnit::Boolean <==> (name == text("rxSignalReceived") || name
            == text("rxFlightChannelsValid")),
        slow_unit_of(name) == SlowUnit::Unitless <==> !(name == text("flightModeFlags") || name
            == text("stateFlags") || name == text("failsafePhase") || name == text(
            "rxSignalReceived",
        ) || name == text("rxFlightChannelsValid")),
{
    reveal_strlit("flightModeFlags");
    crate::text::lemma_ascii_text("flightModeFlags");
    reveal_strlit("stateFlags");
    crate::text::lemma_ascii_text("stateFlags");
    reveal_strlit("failsafePhase");
    crate::text::lemma_ascii_text("failsafePhase");
    reveal_strlit("rxSignalReceived");
    crate::text::lemma_ascii_text("rxSignalReceived");
    reveal_strlit("rxFlightChannelsValid");
    crate::text::lemma_ascii_text("rxFlightChannelsValid");
}

} // verus!
