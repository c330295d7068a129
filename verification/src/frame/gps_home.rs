//! The definition of GPS home frames, which hold the coordinates of the
//! home position. Logs without a GPS receiver declare none.

use vstd::prelude::*;

use super::{
    any_left, check_predictor, def_error_matches, entries_left, fewest_entries, first_bad_entry,
    invalid_entry, lemma_fewest, parse_sign, predictor_available, signed_entry, split_headers,
    Available, DefError,
};
use crate::decode::{encoding_of_num, Encoding};
use crate::frame_defs::{
    column_lens, column_texts, first_bad, first_missing, header_columns, lemma_rows_valid,
    min_len, Column, FrameProperty,
};
use crate::headers::{DataFrameKind, ParseError};
use crate::predictor::{predictor_of_num, Predictor};
use crate::text::{text, texts};

verus! {

/// A field of GPS home frames.
#[derive(Debug, Clone, Copy)]
pub struct GpsHomeFieldDef<'data> {
    pub name: &'data str,
    pub predictor: Predictor,
    pub encoding: Encoding,
    pub signed: bool,
}

/// The definition of GPS home frames.
#[derive(Debug, Clone)]
pub struct GpsHomeFrameDef<'data> {
    pub fields: Vec<GpsHomeFieldDef<'data>>,
}

/// The columns of the GPS home frame definition headers, in the order they are
/// read: names, signedness, predictors, encodings.
pub open spec fn gps_home_def_layout() -> Seq<Column> {
    seq![Column::Name, Column::Name, Column::Predictor, Column::Encoding]
}

/// The names of the GPS home frame definition headers, in the same order.
pub open spec fn gps_home_header_names() -> Seq<&'static str> {
    seq!["Field H name", "Field H signed", "Field H predictor", "Field H encoding"]
}

/// Whether `f` is the field that row `k` of the columns defines.
pub open spec fn gps_home_field_matches(f: GpsHomeFieldDef, cols: Seq<Seq<Seq<u8>>>, k: int) -> bool {
    &&& text(f.name) == cols[0][k]
    &&& f.signed == signed_entry(cols[1][k])
    &&& Some(f.predictor) == predictor_of_num(cols[2][k])
    &&& Some(f.encoding) == encoding_of_num(cols[3][k])
}

/// Whether `def` is the GPS home frame definition with `m` fields that the
/// headers `values` give.
pub open spec fn gps_home_def_matches(def: GpsHomeFrameDef, values: Seq<Option<&str>>, m: int) -> bool {
    &&& def.fields@.len() == m
    &&& forall|k: int|
        0 <= k < m ==> gps_home_field_matches(#[trigger] def.fields@[k], header_columns(values), k)
}

/// Building the GPS home frame definition from the headers `values`: `None`
/// when none is given, else the number of fields, or why it cannot be built.
pub open spec fn gps_home_def_outcome(values: Seq<Option<&str>>) -> Result<Option<int>, DefError> {
    if forall|i: int| 0 <= i < values.len() ==> values[i] is None {
        Ok(None)
    } else {
    match first_missing(values, 0) {
        Some(_) => Err(DefError::MissingHeader),
        None => {
            let cols = header_columns(values);
            let m = min_len(column_lens(cols));
            match first_bad(gps_home_def_layout(), cols, 0, m) {
                Some(c) => Err(DefError::InvalidValue(c as usize)),
                None => if any_left(column_lens(cols)) {
                    Err(DefError::Malformed(DataFrameKind::GpsHome))
                } else {
                    Ok(Some(m))
                },
            }
        },
    }
    }
}

/// Whether the headers that the predictors and units of the fields of
/// `def` need are among those given.
pub open spec fn gps_home_def_valid(def: GpsHomeFrameDef, a: Available) -> bool {
    forall|k: int|
        0 <= k < def.fields@.len() ==> predictor_available(
            #[trigger] def.fields@[k].predictor,
            a,
        )
}

impl<'data> GpsHomeFrameDef<'data> {
    /// A builder that has seen no header.
    pub fn builder() -> (b: GpsHomeFrameDefBuilder<'data>)
        ensures
            b.values() == seq![None::<&'data str>, None, None, None],
    {
        GpsHomeFrameDefBuilder { names: None, predictors: None, encodings: None, signs: None }
    }

    /// The number of fields.
    pub fn len(&self) -> (n: usize)
        ensures
            n == self.fields@.len(),
    {
        self.fields.len()
    }

    /// Checks that the headers that each field's predictor needs were given.
    pub fn validate(&self, available: &Available) -> (res: Result<(), ParseError>)
        ensures
            res is Ok <==> gps_home_def_valid(*self, *available),
            res is Err ==> res matches Err(ParseError::MissingHeader),
    {
        let mut i: usize = 0;
        while i < self.fields.len()
            invariant
                i <= self.fields@.len(),
                forall|k: int|
                    0 <= k < i ==> predictor_available(
                        #[trigger] self.fields@[k].predictor,
                        *available,
                    ),
            decreases self.fields@.len() - i,
        {
            let f = &self.fields[i];
            match check_predictor(f.predictor, available) {
                Ok(()) => {},
                Err(e) => return Err(e),
            }
            i += 1;
        }
        Ok(())
    }
}

/// The builder after recording `value` for `property`.
pub open spec fn gps_home_def_updated<'data>(b: GpsHomeFrameDefBuilder<'data>, property: FrameProperty, value: &'data str) -> GpsHomeFrameDefBuilder<'data> {
    match property {
        FrameProperty::Name => GpsHomeFrameDefBuilder { names: Some(value), ..b },
        FrameProperty::Predictor => GpsHomeFrameDefBuilder {
            predictors: Some(value),
            ..b
        },
        FrameProperty::Encoding => GpsHomeFrameDefBuilder {
            encodings: Some(value),
            ..b
        },
        FrameProperty::Signed => GpsHomeFrameDefBuilder { signs: Some(value), ..b },
    }
}

/// Collects the GPS home frame definition headers.
#[derive(Debug, Clone, Copy)]
pub struct GpsHomeFrameDefBuilder<'data> {
    pub names: Option<&'data str>,
    pub predictors: Option<&'data str>,
    pub encodings: Option<&'data str>,
    pub signs: Option<&'data str>,
}

impl<'data> GpsHomeFrameDefBuilder<'data> {
    /// The headers, in the order their entries are read.
    pub open spec fn values(&self) -> Seq<Option<&'data str>> {
        seq![self.names, self.signs, self.predictors, self.encodings]
    }

    /// Records the header for `property`.
    pub fn update(&mut self, property: FrameProperty, value: &'data str)
        ensures
            *final(self) == gps_home_def_updated(*old(self), property, value),
    {
        match property {
            FrameProperty::Name => self.names = Some(value),
            FrameProperty::Predictor => self.predictors = Some(value),
            FrameProperty::Encoding => self.encodings = Some(value),
            FrameProperty::Signed => self.signs = Some(value),
        }
    }

    /// Builds the definition of GPS home frames from the headers; `None`
    /// when the log declares no GPS home frames.
    #[verifier::rlimit(30)]
    pub fn parse(self) -> (res: Result<Option<GpsHomeFrameDef<'data>>, ParseError>)
        ensures
            match gps_home_def_outcome(self.values()) {
                Err(e) => res matches Err(err) && def_error_matches(
                    e,
                    err,
                    gps_home_header_names(),
                    self.values(),
                ),
                Ok(None) => res matches Ok(None),
                Ok(Some(m)) => res matches Ok(Some(def)) && gps_home_def_matches(def, self.values(), m),
            },
    {
        if self.names.is_none() && self.predictors.is_none() && self.encodings.is_none()
            && self.signs.is_none() {
            assert(forall|i: int| 0 <= i < self.values().len() ==> self.values()[i] is None);
            return Ok(None);
        }
        let mut values: Vec<Option<&'data str>> = Vec::new();
        values.push(self.names);
        values.push(self.signs);
        values.push(self.predictors);
        values.push(self.encodings);
        assert(values@ =~= self.values());
        let names: [&'static str; 4] = [
            "Field H name",
            "Field H signed",
            "Field H predictor",
            "Field H encoding",
        ];
        assert(names@ =~= gps_home_header_names());
        let cols = match split_headers(&values) {
            Some(cols) => cols,
            None => return Err(ParseError::MissingHeader),
        };
        let ghost tcols = header_columns(values@);
        let m = fewest_entries(&cols);
        proof {
            lemma_fewest(cols@);
        }
        let layout: [Column; 4] = [Column::Name, Column::Name, Column::Predictor, Column::Encoding];
        assert(layout@ =~= gps_home_def_layout());
        match first_bad_entry(layout.as_slice(), &cols, 0, m) {
            Some(c) => return Err(invalid_entry(names.as_slice(), &values, c)),
            None => {},
        }
        if entries_left(&cols, 0) || entries_left(&cols, 1) || entries_left(&cols, 2)
            || entries_left(&cols, 3) {
            return Err(ParseError::MalformedFrameDef(DataFrameKind::GpsHome));
        }
        proof {
            lemma_rows_valid(layout@, tcols, 0, m as int);
        }
        let mut fields: Vec<GpsHomeFieldDef<'data>> = Vec::new();
        let mut k: usize = 0;
        while k < m
            invariant
                k <= m == min_len(column_lens(tcols)),
                cols@.len() == 4,
                column_texts(cols@) == tcols,
                tcols == header_columns(values@),
                values@ == self.values(),
                layout@ == gps_home_def_layout(),
                forall|c: int| 0 <= c < cols@.len() ==> m <= cols@[c]@.len(),
                forall|r: int, d: int|
                    0 <= r < m && 0 <= d < layout@.len() ==> crate::frame_defs::column_valid(
                        layout@[d],
                        tcols[d][r],
                    ),
                fields@.len() == k,
                forall|j: int| 0 <= j < k ==> gps_home_field_matches(#[trigger] fields@[j], tcols, j),
            decreases m - k,
        {
            assert(texts(cols@[0]@)[k as int] == text(cols@[0]@[k as int]));
            assert(texts(cols@[1]@)[k as int] == text(cols@[1]@[k as int]));
            assert(texts(cols@[2]@)[k as int] == text(cols@[2]@[k as int]));
            assert(texts(cols@[3]@)[k as int] == text(cols@[3]@[k as int]));
            assert(crate::frame_defs::column_valid(layout@[2], tcols[2][k as int]));
            assert(crate::frame_defs::column_valid(layout@[3], tcols[3][k as int]));
            let name = cols[0][k];
            let field = GpsHomeFieldDef {
                name,
                predictor: Predictor::from_num_str(cols[2][k]).unwrap(),
                encoding: Encoding::from_num_str(cols[3][k]).unwrap(),
                signed: parse_sign(cols[1][k]),
            };
            fields.push(field);
            k += 1;
        }
        Ok(Some(GpsHomeFrameDef { fields }))
    }
}

} // verus!
