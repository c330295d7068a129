//! Decoding the frames of the data section.

use vstd::prelude::*;

mod context;
mod history;

pub use self::context::{BuildError, Builder, Context, Error as ContextError};
pub use self::history::{advanced, history_of, lemma_finish_history, same_history, FrameHistory, History};

use crate::decode::{decode_spec, internal_error_of, max_chunk, Encoding, InternalError};
use crate::event::{event_at, lemma_event_end, Event};
use crate::filter::{all_indices, filter_names, kept, AppliedFilter, Filter, FilterSet};
use crate::frame_defs::{
    gps_home_plans, gps_plans, main_plans, slow_plans, CommonField, FieldPlan, FrameDef, FrameDefs, Kind,
    MainField, common_field_matches, field_name_of, gps_home_kind_of, main_field_matches, GpsHomeFieldKind,
};
use crate::predictor::{prediction, wrap32, Predictor, PredictorContextV2};
use crate::text::{text, texts};
use crate::reader::{byte_index, lemma_skip_end, skip_end, Reader, RestorePoint};

verus! {

/// Why a frame could not be decoded.
#[derive(Debug, Clone, Copy, PartialEq, Eq, Structural)]
pub enum Error {
    /// A field value could not be decoded.
    Decode(InternalError),
}

/// The two kinds of main frames.
#[derive(Debug, Clone, Copy, PartialEq, Eq, Hash, Structural)]
pub enum MainFrameKind {
    /// A frame whose values stand alone.
    Intra,
    /// A frame whose values are predicted from earlier frames.
    Inter,
}

/// The values of a decoded frame.
#[derive(Debug, Clone)]
pub struct Frame {
    raw: Vec<u32>,
}

impl Frame {
    /// The values of the frame.
    pub closed spec fn values(&self) -> Seq<u32> {
        self.raw@
    }

    /// The value of field `index`, if there is such a field.
    pub fn get(&self, index: usize) -> (v: Option<u32>)
        ensures
            v == (if index < self.values().len() {
                Some(self.values()[index as int])
            } else {
                None
            }),
    {
        self.get_raw(index)
    }

    /// The value of field `index`, if there is such a field.
    pub fn get_raw(&self, index: usize) -> (v: Option<u32>)
        ensures
            v == (if index < self.values().len() {
                Some(self.values()[index as int])
            } else {
                None
            }),
    {
        if index < self.raw.len() {
            Some(self.raw[index])
        } else {
            None
        }
    }

    /// The values of all fields, in order.
    pub fn iter(&self) -> (values: Vec<u32>)
        ensures
            values@ == self.values(),
    {
        self.iter_raw()
    }

    /// The values of all fields, in order.
    pub fn iter_raw(&self) -> (values: Vec<u32>)
        ensures
            values@ == self.values(),
    {
        self.raw.clone()
    }
}

/// The number of fields from field `i` on that are decoded together: those
/// that share its encoding, up to as many as one value of it holds.
pub open spec fn run_len(encs: Seq<Encoding>, i: int, len: int) -> int
    decreases 8 - len,
{
    if 1 <= len < max_chunk(encs[i]) && i + len < encs.len() && encs[i + len] == encs[i] {
        run_len(encs, i, len + 1)
    } else {
        len
    }
}

/// A run is at least as long as its start and at most what one value holds.
pub proof fn lemma_run_len(encs: Seq<Encoding>, i: int, len: int)
    requires
        0 <= i < encs.len(),
        1 <= len <= max_chunk(encs[i]),
        i + len <= encs.len(),
    ensures
        len <= run_len(encs, i, len) <= max_chunk(encs[i]),
        i + run_len(encs, i, len) <= encs.len(),
    decreases 8 - len,
{
    if len < max_chunk(encs[i]) && i + len < encs.len() && encs[i + len] == encs[i] {
        lemma_run_len(encs, i, len + 1);
    }
}

/// The values after `prefix`, when `rest` is a success.
pub open spec fn prepend(prefix: Seq<u32>, rest: Result<(Seq<u32>, int), InternalError>) -> Result<
    (Seq<u32>, int),
    InternalError,
> {
    match rest {
        Ok((values, end)) => Ok((prefix + values, end)),
        Err(e) => Err(e),
    }
}

/// Decoding `n` fields of encoding `enc` at byte `k` of `d`.
#[verifier::opaque]
pub open spec fn chunk_result(enc: Encoding, d: Seq<u8>, k: int, n: nat) -> Result<
    (Seq<u32>, int),
    InternalError,
> {
    decode_spec(enc, d, k, n)
}

/// Decoding the raw values of the fields with encodings `encs` from field
/// `i` on, from bit `pos` of `d`: the values and the bit position after
/// them.
pub open spec fn decode_fields(encs: Seq<Encoding>, d: Seq<u8>, pos: int, i: int) -> Result<
    (Seq<u32>, int),
    InternalError,
>
    decreases encs.len() - i,
{
    if i < 0 || i >= encs.len() {
        Ok((seq![], pos))
    } else {
        let n = run_len(encs, i, 1);
        if n < 1 || i + n > encs.len() {
            Err(InternalError::Retry)
        } else {
            match chunk_result(encs[i], d, byte_index(pos), n as nat) {
                Err(e) => Err(e),
                Ok((values, end)) => prepend(
                    values,
                    decode_fields(
                        encs,
                        d,
                        if encs[i] is Null {
                            pos
                        } else {
                            8 * end
                        },
                        i + n,
                    ),
                ),
            }
        }
    }
}

/// The predictor context after field `f` took the value `v`: the first
/// motor and the home position are kept for later fields.
pub open spec fn context_after(f: FieldPlan, v: u32, ctx: PredictorContextV2) -> PredictorContextV2 {
    match (f.kind, f.index) {
        (Kind::Motor, Some(0)) => PredictorContextV2 { motor_0: v, ..ctx },
        (Kind::HomeLatittude, _) => PredictorContextV2 {
            gps_home: crate::predictor::GpsPosition { latitude: v as i32, ..ctx.gps_home },
            ..ctx
        },
        (Kind::HomeLongitude, _) => PredictorContextV2 {
            gps_home: crate::predictor::GpsPosition { longitude: v as i32, ..ctx.gps_home },
            ..ctx
        },
        _ => ctx,
    }
}

/// Applying the predictors of the fields `plan` from field `i` on to the
/// raw values `raw`, with the histories `hist`: the values, and the context
/// after the last field.
pub open spec fn predict_fields(
    plan: Seq<FieldPlan>,
    raw: Seq<u32>,
    hist: Seq<History<u32>>,
    ctx: PredictorContextV2,
    i: int,
) -> (Seq<u32>, PredictorContextV2)
    decreases plan.len() - i,
{
    if i < 0 || i >= plan.len() {
        (seq![], ctx)
    } else {
        let v = wrap32(raw[i] + prediction(plan[i].predictor, plan[i].signed, 0, ctx, hist[i]));
        let (rest, last) = predict_fields(plan, raw, hist, context_after(plan[i], v, ctx), i + 1);
        (seq![v] + rest, last)
    }
}

/// Whether `f` is the first motor, `motor[0]`.
pub open spec fn is_motor_0(f: FieldPlan) -> bool {
    f.kind == Kind::Motor && f.index == Some(0u8)
}

/// The values found from field `s` on are one for each field.
proof fn lemma_predict_len(
    plan: Seq<FieldPlan>,
    raw: Seq<u32>,
    hist: Seq<History<u32>>,
    ctx: PredictorContextV2,
    s: int,
)
    requires
        0 <= s <= plan.len(),
    ensures
        predict_fields(plan, raw, hist, ctx, s).0.len() == plan.len() - s,
    decreases plan.len() - s,
{
    if s < plan.len() {
        let v = wrap32(raw[s] + prediction(plan[s].predictor, plan[s].signed, 0, ctx, hist[s]));
        lemma_predict_len(plan, raw, hist, context_after(plan[s], v, ctx), s + 1);
    }
}

/// From field `s` on, the fields after field `i` are found as from field `i`
/// on, with the context that the fields before it left.
proof fn lemma_predict_split(
    plan: Seq<FieldPlan>,
    raw: Seq<u32>,
    hist: Seq<History<u32>>,
    ctx: PredictorContextV2,
    s: int,
    i: int,
) -> (ci: PredictorContextV2)
    requires
        0 <= s <= i <= plan.len(),
    ensures
        forall|k: int|
            i <= k < plan.len() ==> #[trigger] predict_fields(plan, raw, hist, ctx, s).0[k - s]
                == predict_fields(plan, raw, hist, ci, i).0[k - i],
        predict_fields(plan, raw, hist, ctx, s).1 == predict_fields(plan, raw, hist, ci, i).1,
        (forall|k: int| s <= k < i ==> !is_motor_0(#[trigger] plan[k])) ==> ci.motor_0 == ctx.motor_0,
    decreases i - s,
{
    if s == i {
        ctx
    } else {
        let v = wrap32(raw[s] + prediction(plan[s].predictor, plan[s].signed, 0, ctx, hist[s]));
        let c2 = context_after(plan[s], v, ctx);
        let ci = lemma_predict_split(plan, raw, hist, c2, s + 1, i);
        lemma_predict_len(plan, raw, hist, c2, s + 1);
        let rest = predict_fields(plan, raw, hist, c2, s + 1);
        assert(predict_fields(plan, raw, hist, ctx, s).0 == seq![v] + rest.0);
        assert forall|k: int| i <= k < plan.len() implies #[trigger] predict_fields(
            plan,
            raw,
            hist,
            ctx,
            s,
        ).0[k - s] == predict_fields(plan, raw, hist, ci, i).0[k - i] by {
            assert(predict_fields(plan, raw, hist, ctx, s).0[k - s] == predict_fields(
                plan,
                raw,
                hist,
                c2,
                s + 1,
            ).0[k - (s + 1)]);
        }
        ci
    }
}

/// Without a first motor among the fields from `s` on, they leave the
/// first motor of the context as it was.
proof fn lemma_predict_keeps_motor_0(
    plan: Seq<FieldPlan>,
    raw: Seq<u32>,
    hist: Seq<History<u32>>,
    ctx: PredictorContextV2,
    s: int,
)
    requires
        0 <= s <= plan.len(),
        forall|k: int| s <= k < plan.len() ==> !is_motor_0(#[trigger] plan[k]),
    ensures
        predict_fields(plan, raw, hist, ctx, s).1.motor_0 == ctx.motor_0,
    decreases plan.len() - s,
{
    if s < plan.len() {
        let v = wrap32(raw[s] + prediction(plan[s].predictor, plan[s].signed, 0, ctx, hist[s]));
        assert(!is_motor_0(plan[s]));
        lemma_predict_keeps_motor_0(plan, raw, hist, context_after(plan[s], v, ctx), s + 1);
    }
}

/// Without a first motor among the fields from `s` up to field `j`, a field
/// `j` predicted from the first motor gets the first motor of the context
/// added.
proof fn lemma_predict_motor_0_field(
    plan: Seq<FieldPlan>,
    raw: Seq<u32>,
    hist: Seq<History<u32>>,
    ctx: PredictorContextV2,
    s: int,
    j: int,
)
    requires
        0 <= s <= j < plan.len(),
        forall|k: int| s <= k < j ==> !is_motor_0(#[trigger] plan[k]),
        plan[j].predictor == Predictor::Motor0,
    ensures
        predict_fields(plan, raw, hist, ctx, s).0[j - s] == wrap32(raw[j] + ctx.motor_0),
    decreases j - s,
{
    if s < j {
        let v = wrap32(raw[s] + prediction(plan[s].predictor, plan[s].signed, 0, ctx, hist[s]));
        assert(!is_motor_0(plan[s]));
        let c2 = context_after(plan[s], v, ctx);
        lemma_predict_motor_0_field(plan, raw, hist, c2, s + 1, j);
        lemma_predict_len(plan, raw, hist, c2, s + 1);
        let rest = predict_fields(plan, raw, hist, c2, s + 1);
        assert(predict_fields(plan, raw, hist, ctx, s).0 == seq![v] + rest.0);
        assert((seq![v] + rest.0)[j - s] == rest.0[j - (s + 1)]);
    }
}

/// The first motor: once the fields of a frame are found, the context holds
/// as its first motor the value that the last `motor[0]` field took, or the
/// first motor it held before when the frame has no such field; and a field
/// predicted from the first motor that follows a `motor[0]` field, with no
/// other in between, gets the value of that field of the same frame added.
#[verifier::rlimit(60)]
pub proof fn lemma_motor_0(
    plan: Seq<FieldPlan>,
    raw: Seq<u32>,
    hist: Seq<History<u32>>,
    ctx: PredictorContextV2,
)
    ensures
        forall|i: int|
            0 <= i < plan.len() && is_motor_0(#[trigger] plan[i]) && (forall|k: int|
                i < k < plan.len() ==> !is_motor_0(#[trigger] plan[k])) ==> predict_fields(
                plan,
                raw,
                hist,
                ctx,
                0,
            ).1.motor_0 == predict_fields(plan, raw, hist, ctx, 0).0[i],
        (forall|k: int| 0 <= k < plan.len() ==> !is_motor_0(#[trigger] plan[k])) ==> predict_fields(
            plan,
            raw,
            hist,
            ctx,
            0,
        ).1.motor_0 == ctx.motor_0,
        forall|i: int, j: int|
            0 <= i < j < plan.len() && is_motor_0(#[trigger] plan[i]) && (forall|k: int|
                i < k < j ==> !is_motor_0(#[trigger] plan[k])) && #[trigger] plan[j].predictor
                == Predictor::Motor0 ==> predict_fields(plan, raw, hist, ctx, 0).0[j] == wrap32(
                raw[j] + predict_fields(plan, raw, hist, ctx, 0).0[i],
            ),
{
    let all = predict_fields(plan, raw, hist, ctx, 0);
    assert forall|i: int|
        0 <= i < plan.len() && is_motor_0(#[trigger] plan[i]) && (forall|k: int|
            i < k < plan.len() ==> !is_motor_0(#[trigger] plan[k])) implies all.1.motor_0
        == all.0[i] by {
        let ci = lemma_predict_split(plan, raw, hist, ctx, 0, i);
        let v = wrap32(raw[i] + prediction(plan[i].predictor, plan[i].signed, 0, ci, hist[i]));
        let c2 = context_after(plan[i], v, ci);
        assert(all.0[i - 0] == predict_fields(plan, raw, hist, ci, i).0[i - i]);
        lemma_predict_keeps_motor_0(plan, raw, hist, c2, i + 1);
    }
    if forall|k: int| 0 <= k < plan.len() ==> !is_motor_0(#[trigger] plan[k]) {
        lemma_predict_keeps_motor_0(plan, raw, hist, ctx, 0);
    }
    assert forall|i: int, j: int|
        0 <= i < j < plan.len() && is_motor_0(#[trigger] plan[i]) && (forall|k: int|
            i < k < j ==> !is_motor_0(#[trigger] plan[k])) && #[trigger] plan[j].predictor
            == Predictor::Motor0 implies all.0[j] == wrap32(raw[j] + all.0[i]) by {
        let ci = lemma_predict_split(plan, raw, hist, ctx, 0, i);
        let v = wrap32(raw[i] + prediction(plan[i].predictor, plan[i].signed, 0, ci, hist[i]));
        let c2 = context_after(plan[i], v, ci);
        assert(all.0[i - 0] == predict_fields(plan, raw, hist, ci, i).0[i - i]);
        assert(all.0[j - 0] == predict_fields(plan, raw, hist, ci, i).0[j - i]);
        lemma_predict_len(plan, raw, hist, c2, i + 1);
        assert(predict_fields(plan, raw, hist, ci, i).0 == seq![v] + predict_fields(
            plan,
            raw,
            hist,
            c2,
            i + 1,
        ).0);
        assert(predict_fields(plan, raw, hist, ci, i).0[j - i] == predict_fields(
            plan,
            raw,
            hist,
            c2,
            i + 1,
        ).0[j - (i + 1)]);
        lemma_predict_motor_0_field(plan, raw, hist, c2, i + 1, j);
    }
}

/// Whether `f` sets the home coordinate `w` of the context: the latitude
/// when `w` is 0, else the longitude.
pub open spec fn sets_home(f: FieldPlan, w: int) -> bool {
    if w == 0 {
        f.kind == Kind::HomeLatittude
    } else {
        f.kind == Kind::HomeLongitude
    }
}

/// The home coordinate `w` of `ctx`: the latitude when `w` is 0, else the
/// longitude.
pub open spec fn home_of(ctx: PredictorContextV2, w: int) -> i32 {
    if w == 0 {
        ctx.gps_home.latitude
    } else {
        ctx.gps_home.longitude
    }
}

/// Without a field that sets home coordinate `w` among the fields from `s`
/// on, they leave that coordinate of the context as it was.
proof fn lemma_predict_keeps_home(
    plan: Seq<FieldPlan>,
    raw: Seq<u32>,
    hist: Seq<History<u32>>,
    ctx: PredictorContextV2,
    s: int,
    w: int,
)
    requires
        0 <= s <= plan.len(),
        forall|k: int| s <= k < plan.len() ==> !sets_home(#[trigger] plan[k], w),
    ensures
        home_of(predict_fields(plan, raw, hist, ctx, s).1, w) == home_of(ctx, w),
    decreases plan.len() - s,
{
    if s < plan.len() {
        let v = wrap32(raw[s] + prediction(plan[s].predictor, plan[s].signed, 0, ctx, hist[s]));
        assert(!sets_home(plan[s], w));
        lemma_predict_keeps_home(plan, raw, hist, context_after(plan[s], v, ctx), s + 1, w);
    }
}

/// The last field that sets home coordinate `w` gives the context that
/// coordinate, read as a signed number.
proof fn lemma_home_at(
    plan: Seq<FieldPlan>,
    raw: Seq<u32>,
    hist: Seq<History<u32>>,
    ctx: PredictorContextV2,
    i: int,
    w: int,
)
    requires
        0 <= i < plan.len(),
        sets_home(plan[i], w),
        forall|k: int| i < k < plan.len() ==> !sets_home(#[trigger] plan[k], w),
    ensures
        home_of(predict_fields(plan, raw, hist, ctx, 0).1, w) == predict_fields(
            plan,
            raw,
            hist,
            ctx,
            0,
        ).0[i] as i32,
{
    let all = predict_fields(plan, raw, hist, ctx, 0);
    let ci = lemma_predict_split(plan, raw, hist, ctx, 0, i);
    let v = wrap32(raw[i] + prediction(plan[i].predictor, plan[i].signed, 0, ci, hist[i]));
    let c2 = context_after(plan[i], v, ci);
    assert(all.0[i - 0] == predict_fields(plan, raw, hist, ci, i).0[i - i]);
    lemma_predict_keeps_home(plan, raw, hist, c2, i + 1, w);
}

/// The home latitude: once the fields of a frame are found, the context
/// holds as its home latitude the value that the last home latitude field
/// took, read as a signed number.
pub proof fn lemma_home_latitude(
    plan: Seq<FieldPlan>,
    raw: Seq<u32>,
    hist: Seq<History<u32>>,
    ctx: PredictorContextV2,
    i: int,
)
    requires
        0 <= i < plan.len(),
        plan[i].kind == Kind::HomeLatittude,
        forall|k: int| i < k < plan.len() ==> (#[trigger] plan[k]).kind != Kind::HomeLatittude,
    ensures
        predict_fields(plan, raw, hist, ctx, 0).1.gps_home.latitude == predict_fields(
            plan,
            raw,
            hist,
            ctx,
            0,
        ).0[i] as i32,
{
    lemma_home_at(plan, raw, hist, ctx, i, 0);
}

/// The home longitude: once the fields of a frame are found, the context
/// holds as its home longitude the value that the last home longitude field
/// took, read as a signed number.
pub proof fn lemma_home_longitude(
    plan: Seq<FieldPlan>,
    raw: Seq<u32>,
    hist: Seq<History<u32>>,
    ctx: PredictorContextV2,
    i: int,
)
    requires
        0 <= i < plan.len(),
        plan[i].kind == Kind::HomeLongitude,
        forall|k: int| i < k < plan.len() ==> (#[trigger] plan[k]).kind != Kind::HomeLongitude,
    ensures
        predict_fields(plan, raw, hist, ctx, 0).1.gps_home.longitude == predict_fields(
            plan,
            raw,
            hist,
            ctx,
            0,
        ).0[i] as i32,
{
    lemma_home_at(plan, raw, hist, ctx, i, 1);
}

/// A home coordinate that no field of a frame sets stays as it was.
pub proof fn lemma_home_kept(
    plan: Seq<FieldPlan>,
    raw: Seq<u32>,
    hist: Seq<History<u32>>,
    ctx: PredictorContextV2,
)
    ensures
        (forall|k: int| 0 <= k < plan.len() ==> (#[trigger] plan[k]).kind != Kind::HomeLatittude)
            ==> predict_fields(plan, raw, hist, ctx, 0).1.gps_home.latitude
            == ctx.gps_home.latitude,
        (forall|k: int| 0 <= k < plan.len() ==> (#[trigger] plan[k]).kind != Kind::HomeLongitude)
            ==> predict_fields(plan, raw, hist, ctx, 0).1.gps_home.longitude
            == ctx.gps_home.longitude,
{
    if forall|k: int| 0 <= k < plan.len() ==> (#[trigger] plan[k]).kind != Kind::HomeLatittude {
        lemma_predict_keeps_home(plan, raw, hist, ctx, 0, 0);
    }
    if forall|k: int| 0 <= k < plan.len() ==> (#[trigger] plan[k]).kind != Kind::HomeLongitude {
        lemma_predict_keeps_home(plan, raw, hist, ctx, 0, 1);
    }
}

/// The plans of the fields read from the definition headers: a main field
/// reads its intra or inter predictor and encoding as the frame kind asks,
/// and is taken as the first motor exactly when its name is `motor[0]`; a
/// GPS home field is the home latitude exactly when its name is
/// `GPS_home[0]`, and the home longitude exactly when it is `GPS_home[1]`.
pub proof fn lemma_field_plans(
    f: MainField,
    g: CommonField<GpsHomeFieldKind>,
    cols: Seq<Seq<Seq<u8>>>,
    home_cols: Seq<Seq<Seq<u8>>>,
    k: int,
    j: int,
    intra: bool,
)
    requires
        main_field_matches(f, cols, k),
        common_field_matches(g, home_cols, j),
        g.kind == gps_home_kind_of(field_name_of(home_cols[0][j]).0, field_name_of(home_cols[0][j]).1),
    ensures
        main_plans(seq![f], intra)[0].predictor == (if intra {
            f.predictor_intra
        } else {
            f.predictor_inter
        }),
        main_plans(seq![f], intra)[0].encoding == (if intra {
            f.encoding_intra
        } else {
            f.encoding_inter
        }),
        is_motor_0(main_plans(seq![f], intra)[0]) <==> field_name_of(cols[0][k]).0 == text("motor")
            && field_name_of(cols[0][k]).1 == 0,
        gps_home_plans(seq![g])[0].kind == Kind::HomeLatittude <==> field_name_of(home_cols[0][j]).0
            == text("GPS_home") && field_name_of(home_cols[0][j]).1 == 0,
        gps_home_plans(seq![g])[0].kind == Kind::HomeLongitude <==> field_name_of(home_cols[0][j]).0
            == text("GPS_home") && field_name_of(home_cols[0][j]).1 == 1,
{
}

/// The histories of all fields of the current frame.
pub open spec fn histories(h: FrameHistory) -> Seq<History<u32>> {
    Seq::new(h.spec_len(), |i: int| h.spec_history(i))
}

/// The encodings of the fields of a plan.
pub open spec fn plan_encodings(plan: Seq<FieldPlan>) -> Seq<Encoding> {
    plan.map_values(|f: FieldPlan| f.encoding)
}

/// Putting two prefixes in front of a result puts their concatenation.
proof fn lemma_prepend_prepend(p: Seq<u32>, q: Seq<u32>, r: Result<(Seq<u32>, int), InternalError>)
    ensures
        prepend(p, prepend(q, r)) == prepend(p + q, r),
{
    if let Ok((values, end)) = r {
        assert(p + (q + values) =~= (p + q) + values);
    }
}

/// Decodes `len` fields of encoding `enc` into the current row of `history`
/// from field `start` on.
fn decode_chunk(
    data: &mut Reader,
    enc: Encoding,
    len: usize,
    history: &mut FrameHistory,
    start: usize,
) -> (res: Result<(), Error>)
    requires
        old(data).wf(),
        old(history).wf(),
        1 <= len <= max_chunk(enc),
        start + len <= old(history).spec_len(),
    ensures
        final(data).wf(),
        final(data).data() == old(data).data(),
        final(history).wf(),
        final(history).spec_len() == old(history).spec_len(),
        final(history).spec_current() == old(history).spec_current(),
        final(history).spec_past() == old(history).spec_past(),
        forall|r: int|
            0 <= r < 3 && r != old(history).spec_current() ==> final(history).row(r) == old(
                history,
            ).row(r),
        match chunk_result(enc, old(data).data(), byte_index(old(data).pos()), len as nat) {
            Err(e) => res == Err::<(), Error>(Error::Decode(e)),
            Ok((values, end)) => {
                let c = old(history).spec_current() as int;
                &&& res is Ok
                &&& values.len() == len
                &&& final(history).row(c).take(start as int) == old(history).row(c).take(
                    start as int,
                )
                &&& final(history).row(c).subrange(start as int, start + len) == values
                &&& final(data).pos() == (if enc is Null {
                    old(data).pos()
                } else {
                    8 * end
                })
            },
        },
{
    let ghost c = old(history).spec_current() as int;
    let ghost h0 = *old(history);
    proof {
        h0.lemma_current();
        h0.lemma_row_len(c);
        reveal(chunk_result);
    }
    let total = history.len();
    let mut chunk: Vec<u32> = vec![0; len];
    match enc.decode_into(data, chunk.as_mut_slice()) {
        Ok(()) => {},
        Err(e) => {
            return Err(Error::Decode(e));
        },
    }
    let mut j: usize = 0;
    while j < len
        invariant
            start + len <= h0.spec_len() == total,
            chunk@.len() == len,
            j <= len,
            history.wf(),
            history.spec_len() == h0.spec_len(),
            history.spec_current() == c,
            history.spec_past() == h0.spec_past(),
            forall|r: int| 0 <= r < 3 && r != c ==> history.row(r) == h0.row(r),
            history.row(c).len() == h0.spec_len(),
            history.row(c).take(start as int) == h0.row(c).take(start as int),
            history.row(c).subrange(start as int, start + j) == chunk@.take(j as int),
        decreases len - j,
    {
        let ghost row_before = history.row(c);
        history.set(start + j, chunk[j]);
        assert(history.row(c).take(start as int) =~= row_before.take(start as int));
        assert(history.row(c).subrange(start as int, start + j + 1) =~= chunk@.take(j as int + 1))
            by {
            assert(row_before.subrange(start as int, start + j) =~= history.row(c).subrange(
                start as int,
                start + j,
            ));
        }
        j += 1;
    }
    assert(chunk@.take(len as int) =~= chunk@);
    Ok(())
}

/// Decodes the raw values of the fields of `def` into the current row of
/// `history`, from the position of `data`.
fn decode_raw(data: &mut Reader, def: &FrameDef, history: &mut FrameHistory) -> (res: Result<
    (),
    Error,
>)
    requires
        old(data).wf(),
        old(history).wf(),
        old(history).spec_len() == def.fields@.len(),
    ensures
        final(data).wf(),
        final(data).data() == old(data).data(),
        final(history).wf(),
        final(history).spec_len() == old(history).spec_len(),
        final(history).spec_current() == old(history).spec_current(),
        final(history).spec_past() == old(history).spec_past(),
        forall|r: int|
            0 <= r < 3 && r != old(history).spec_current() ==> final(history).row(r) == old(
                history,
            ).row(r),
        match decode_fields(plan_encodings(def.fields@), old(data).data(), old(data).pos(), 0) {
            Err(e) => res == Err::<(), Error>(Error::Decode(e)),
            Ok((raw, end)) => res is Ok && raw == final(history).row(
                final(history).spec_current() as int,
            ) && final(data).pos() == end,
        },
{
    let encs = def.encodings();
    let n = encs.len();
    let ghost d = old(data).data();
    let ghost pos0 = old(data).pos();
    let ghost c = old(history).spec_current() as int;
    let ghost h0 = *old(history);
    assert(encs@ == plan_encodings(def.fields@));
    proof {
        h0.lemma_current();
        h0.lemma_row_len(c);
    }
    let mut i: usize = 0;
    assert(history.row(c).take(0) =~= seq![]);
    while i < n
        invariant
            i <= n == encs@.len() == history.spec_len(),
            d == old(data).data(),
            pos0 == old(data).pos(),
            h0 == *old(history),
            c == h0.spec_current(),
            c < 3,
            encs@ == plan_encodings(def.fields@),
            data.wf(),
            data.data() == d,
            history.wf(),
            history.spec_len() == h0.spec_len(),
            history.spec_current() == c,
            history.spec_past() == h0.spec_past(),
            forall|r: int| 0 <= r < 3 && r != c ==> history.row(r) == h0.row(r),
            history.row(c).len() == n,
            decode_fields(encs@, d, pos0, 0) == prepend(
                history.row(c).take(i as int),
                decode_fields(encs@, d, data.pos(), i as int),
            ),
        decreases n - i,
    {
        let enc = encs[i];
        let max = enc.max_chunk_size();
        let mut len: usize = 1;
        while len < max && i + len < n && encs[i + len] == enc
            invariant
                i < n == encs@.len(),
                enc == encs@[i as int],
                max == max_chunk(enc),
                1 <= len <= max,
                i + len <= n,
                run_len(encs@, i as int, 1) == run_len(encs@, i as int, len as int),
            decreases max - len,
        {
            len += 1;
        }
        proof {
            lemma_run_len(encs@, i as int, 1);
        }
        let ghost pos = data.pos();
        let ghost row = history.row(c);
        match decode_chunk(data, enc, len, history, i) {
            Ok(()) => {},
            Err(e) => {
                return Err(e);
            },
        }
        proof {
            history.lemma_row_len(c);
            let values = history.row(c).subrange(i as int, i + len);
            assert(history.row(c).take(i + len) =~= row.take(i as int) + values);
            lemma_prepend_prepend(
                row.take(i as int),
                values,
                decode_fields(encs@, d, data.pos(), i + len),
            );
        }
        i += len;
    }
    assert(history.row(c).take(n as int) =~= history.row(c));
    Ok(())
}

/// Applies the predictors of the fields of `def` to the raw values in the
/// current row of `history`, field by field.
fn apply_predictors(def: &FrameDef, ctx: &mut PredictorContextV2, history: &mut FrameHistory)
    requires
        old(history).wf(),
        old(history).spec_len() == def.fields@.len(),
    ensures
        final(history).wf(),
        final(history).spec_len() == old(history).spec_len(),
        final(history).spec_current() == old(history).spec_current(),
        final(history).spec_past() == old(history).spec_past(),
        forall|r: int|
            0 <= r < 3 && r != old(history).spec_current() ==> final(history).row(r) == old(
                history,
            ).row(r),
        (final(history).row(old(history).spec_current() as int), *final(ctx)) == predict_fields(
            def.fields@,
            old(history).row(old(history).spec_current() as int),
            histories(*old(history)),
            *old(ctx),
            0,
        ),
{
    let ghost h0 = *old(history);
    let ghost c = h0.spec_current() as int;
    let ghost raw = h0.row(c);
    let ghost hist = histories(h0);
    let ghost ctx0 = *old(ctx);
    proof {
        h0.lemma_current();
        h0.lemma_row_len(c);
    }
    let n = def.fields.len();
    let mut i: usize = 0;
    assert(history.row(c).take(0) + predict_fields(def.fields@, raw, hist, *ctx, 0).0 =~= predict_fields(
        def.fields@,
        raw,
        hist,
        *ctx,
        0,
    ).0);
    while i < n
        invariant
            i <= n == def.fields@.len() == h0.spec_len(),
            c == h0.spec_current(),
            c < 3,
            raw == h0.row(c),
            raw.len() == n,
            hist == histories(h0),
            ctx0 == *old(ctx),
            history.wf(),
            history.spec_len() == h0.spec_len(),
            history.spec_current() == c,
            history.spec_past() == h0.spec_past(),
            forall|r: int| 0 <= r < 3 && r != c ==> history.row(r) == h0.row(r),
            history.row(c).len() == n,
            forall|j: int| i <= j < n ==> history.row(c)[j] == raw[j],
            predict_fields(def.fields@, raw, hist, ctx0, 0) == (
                history.row(c).take(i as int) + predict_fields(def.fields@, raw, hist, *ctx, i as int).0,
                predict_fields(def.fields@, raw, hist, *ctx, i as int).1,
            ),
        decreases n - i,
    {
        let field = def.fields[i];
        let value = history.get(i);
        let h = history.history(i);
        assert(h == hist[i as int]);
        let v = field.predictor.apply_v2(value, field.signed, 0, ctx, h);
        let ghost row_before = history.row(c);
        let ghost ctx_before = *ctx;
        history.set(i, v);
        match (field.kind, field.index) {
            (Kind::Motor, Some(0)) => ctx.set_motor_0(v),
            (Kind::HomeLatittude, _) => ctx.set_gps_home_lat(v),
            (Kind::HomeLongitude, _) => ctx.set_gps_home_lon(v),
            _ => {},
        }
        proof {
            assert(*ctx == context_after(field, v, ctx_before));
            let rest = predict_fields(def.fields@, raw, hist, *ctx, i + 1);
            assert(predict_fields(def.fields@, raw, hist, ctx_before, i as int) == (
                seq![v] + rest.0,
                rest.1,
            ));
            assert(history.row(c).take(i + 1) =~= row_before.take(i as int) + seq![v]);
            assert(row_before.take(i as int) + (seq![v] + rest.0) =~= history.row(c).take(i + 1)
                + rest.0);
        }
        i += 1;
    }
    assert(history.row(c).take(n as int) =~= history.row(c));
    assert(predict_fields(def.fields@, raw, hist, *ctx, n as int).0 =~= seq![]);
    assert(history.row(c).take(n as int) + seq![] =~= history.row(c));
}

/// Decodes a frame of the fields `def` from the position of `data`: reads
/// the raw values, adds the predictions, keeps the values in `history` and
/// what later fields need in `ctx`.
pub fn decode_frame(
    data: &mut Reader,
    def: &FrameDef,
    ctx: &mut PredictorContextV2,
    history: &mut FrameHistory,
) -> (res: Result<Frame, Error>)
    requires
        old(data).wf(),
        old(history).wf(),
        old(history).spec_len() == def.fields@.len(),
    ensures
        final(data).wf(),
        final(data).data() == old(data).data(),
        final(history).wf(),
        final(history).spec_len() == old(history).spec_len(),
        match decode_fields(plan_encodings(def.fields@), old(data).data(), old(data).pos(), 0) {
            Err(e) => res == Err::<Frame, Error>(Error::Decode(e)) && *final(ctx) == *old(ctx),
            Ok((raw, end)) => {
                let (values, last) = predict_fields(
                    def.fields@,
                    raw,
                    histories(*old(history)),
                    *old(ctx),
                    0,
                );
                &&& res matches Ok(frame) && frame.values() == values
                &&& *final(ctx) == last
                &&& final(data).pos() == end
                &&& final(history).spec_current() == (old(history).spec_current() + 1) % 3
                &&& final(history).spec_past() == (if old(history).spec_past() == 255 {
                    255
                } else {
                    old(history).spec_past() + 1
                })
                &&& final(history).row(old(history).spec_current() as int) == values
                &&& forall|r: int|
                    0 <= r < 3 && r != old(history).spec_current() ==> final(history).row(r)
                        == old(history).row(r)
            },
        },
{
    let ghost h0 = *old(history);
    match decode_raw(data, def, history) {
        Ok(()) => {},
        Err(e) => return Err(e),
    }
    let ghost h1 = *history;
    proof {
        h0.lemma_current();
        assert(histories(h1) =~= histories(h0)) by {
            assert forall|i: int| 0 <= i < h0.spec_len() implies h1.spec_history(i)
                == h0.spec_history(i) by {
                assert(h1.row(((h0.spec_current() + 1) % 3) as int) == h0.row(
                    ((h0.spec_current() + 1) % 3) as int,
                ));
                assert(h1.row(((h0.spec_current() + 2) % 3) as int) == h0.row(
                    ((h0.spec_current() + 2) % 3) as int,
                ));
            }
        }
    }
    apply_predictors(def, ctx, history);
    let raw = history.finish();
    Ok(Frame { raw })
}

/// A frame found in the data section.
#[derive(Debug, Clone)]
pub enum ParsedFrame {
    /// A main frame of either kind.
    Main(MainFrameKind, Frame),
    /// A slow frame.
    Slow(Frame),
    /// A GPS frame.
    Gps(Frame),
    /// An event.
    Event(Event),
}

/// What the user of a [`DataParser`] does with each frame. Each method says
/// what it gives by a spec function of its own.
pub trait Visitor {
    type Output;

    /// Whether `out` is what `main` gives for a main frame of kind `kind`
    /// with the values `values`.
    spec fn main_gives(&self, kind: MainFrameKind, values: Seq<u32>, out: Self::Output) -> bool;

    /// Whether `out` is what `slow` gives for a slow frame with the values
    /// `values`.
    spec fn slow_gives(&self, values: Seq<u32>, out: Self::Output) -> bool;

    /// Whether `out` is what `gps` gives for a GPS frame with the values
    /// `values`.
    spec fn gps_gives(&self, values: Seq<u32>, out: Self::Output) -> bool;

    /// Whether `out` is what `event` gives for the event `event`.
    spec fn event_gives(&self, event: Event, out: Self::Output) -> bool;

    fn main(&mut self, kind: MainFrameKind, frame: Frame) -> (out: Self::Output)
        ensures
            old(self).main_gives(kind, frame.values(), out),
    ;

    fn slow(&mut self, frame: Frame) -> (out: Self::Output)
        ensures
            old(self).slow_gives(frame.values(), out),
    ;

    fn gps(&mut self, frame: Frame) -> (out: Self::Output)
        ensures
            old(self).gps_gives(frame.values(), out),
    ;

    fn event(&mut self, event: Event) -> (out: Self::Output)
        ensures
            old(self).event_gives(event, out),
    ;
}

/// Whether `out` is what `visitor` gives for the frame `frame`.
pub open spec fn visited<V: Visitor>(visitor: V, frame: ParsedFrame, out: V::Output) -> bool {
    match frame {
        ParsedFrame::Main(kind, f) => visitor.main_gives(kind, f.values(), out),
        ParsedFrame::Slow(f) => visitor.slow_gives(f.values(), out),
        ParsedFrame::Gps(f) => visitor.gps_gives(f.values(), out),
        ParsedFrame::Event(e) => visitor.event_gives(e, out),
    }
}

/// The bytes that start frames: `I`, `P`, `S`, `G`, `H` and `E`.
pub open spec fn frame_starts() -> Seq<u8> {
    seq![0x49u8, 0x50, 0x53, 0x47, 0x48, 0x45]
}

/// Whether `b` starts a frame.
pub open spec fn is_frame_start(b: u8) -> bool {
    b == 0x49 || b == 0x50 || b == 0x53 || b == 0x47 || b == 0x48 || b == 0x45
}

/// The bytes that parsing resumes at after something that is no frame:
/// `E`, `I`, `S`, `G` and `H`.
pub open spec fn resume_starts() -> Seq<u8> {
    seq![0x45u8, 0x49, 0x53, 0x47, 0x48]
}

/// Whether a frame that ends before byte `i` of `d` is followed by the end
/// of the data or by a byte that starts a frame.
pub open spec fn ends_frame(d: Seq<u8>, i: int) -> bool {
    i >= d.len() || is_frame_start(d[i])
}

/// The fields of the frames that the byte `b` starts.
pub open spec fn plans_for(frames: FrameDefs, b: u8) -> Seq<FieldPlan> {
    if b == 0x49 {
        main_plans(frames.main@, true)
    } else if b == 0x50 {
        main_plans(frames.main@, false)
    } else if b == 0x53 {
        slow_plans(frames.slow@)
    } else if b == 0x47 {
        gps_plans(frames.gps->0@)
    } else {
        gps_home_plans(frames.gps_home->0@)
    }
}

/// Whether the frames that the byte `b` starts are declared: GPS and GPS
/// home frames may not be.
pub open spec fn declared(frames: FrameDefs, b: u8) -> bool {
    &&& (b == 0x47 ==> frames.gps is Some)
    &&& (b == 0x48 ==> frames.gps_home is Some)
}

/// Decoding a frame of the fields `plan` at bit `pos` of `d`: the values, the
/// bit position after them and the predictor context after them.
pub open spec fn frame_outcome(
    plan: Seq<FieldPlan>,
    d: Seq<u8>,
    pos: int,
    history: FrameHistory,
    ctx: PredictorContextV2,
) -> Result<(Seq<u32>, int, PredictorContextV2), InternalError> {
    match decode_fields(plan_encodings(plan), d, pos, 0) {
        Err(e) => Err(e),
        Ok((raw, end)) => {
            let (values, last) = predict_fields(plan, raw, histories(history), ctx, 0);
            Ok((values, end, last))
        },
    }
}

/// The number of frames of each kind found so far.
#[derive(Debug, Clone, Copy, Default, PartialEq, Eq, Structural)]
pub struct FrameCounts {
    pub event: usize,
    pub main: usize,
    pub slow: usize,
    pub gps: usize,
    pub gps_home: usize,
}

/// The counts after finding a frame that the byte `b` starts.
pub open spec fn counted(c: FrameCounts, b: u8) -> FrameCounts {
    if b == 0x45 {
        FrameCounts { event: next_count(c.event), ..c }
    } else if b == 0x49 || b == 0x50 {
        FrameCounts { main: next_count(c.main), ..c }
    } else if b == 0x53 {
        FrameCounts { slow: next_count(c.slow), ..c }
    } else if b == 0x47 {
        FrameCounts { gps: next_count(c.gps), ..c }
    } else if b == 0x48 {
        FrameCounts { gps_home: next_count(c.gps_home), ..c }
    } else {
        c
    }
}

/// The count after `n`, wrapping around to zero after the largest `usize`.
pub open spec fn next_count(n: usize) -> usize {
    if n == usize::MAX {
        0
    } else {
        (n + 1) as usize
    }
}

impl FrameCounts {
    /// Counts a frame that the byte `kind` starts.
    pub fn record(&mut self, kind: u8)
        ensures
            *final(self) == counted(*old(self), kind),
    {
        if kind == 0x45 {
            self.event = self.event.wrapping_add(1);
        } else if kind == 0x49 || kind == 0x50 {
            self.main = self.main.wrapping_add(1);
        } else if kind == 0x53 {
            self.slow = self.slow.wrapping_add(1);
        } else if kind == 0x47 {
            self.gps = self.gps.wrapping_add(1);
        } else if kind == 0x48 {
            self.gps_home = self.gps_home.wrapping_add(1);
        }
    }
}

/// What one try at reading a frame comes to.
pub enum Attempt {
    /// The data ended.
    Eof,
    /// There was no good frame; parsing resumes at this bit position.
    Skip(int),
    /// The event, and the byte after it.
    Event(Event, int),
    /// A frame started by this byte, its values, the bit position after it
    /// and the predictor context after it.
    Frame(u8, Seq<u32>, int, PredictorContextV2),
}

/// What a call of [`DataParser::next_frame`] does at the end of one try.
#[derive(Debug)]
pub enum Step {
    /// It gives nothing: the data ended.
    Stop,
    /// It tries again.
    Skip,
    /// It gives this frame.
    Give(ParsedFrame),
}

/// A parser of the data section of a log.
#[derive(Debug)]
pub struct DataParser<'data> {
    data: Reader,
    context: Context<'data>,
    main: FrameHistory,
    slow: FrameHistory,
    gps: FrameHistory,
    gps_home: FrameHistory,
    counts: FrameCounts,
    done: bool,
}

/// What one try at reading a frame at the position of `p` comes to. The
/// byte there must start a frame, else parsing resumes at the next byte
/// that starts one other than `P`. An event's kind must be a sync beep, a
/// disarm or the end of the log. GPS and GPS home frames must be declared.
/// A frame must not end before its own start, and must be followed by the
/// end of the data or by a byte that starts a frame. A corrupted frame is
/// passed over the same way; the end of the data ends the try.
pub open spec fn attempt_of<'data>(p: DataParser<'data>) -> Attempt {
    let d = p.reader().data();
    let k = byte_index(p.reader().pos());
    let frames = p.spec_context().frames;
    let skip = Attempt::Skip(8 * skip_end(d, k + 1, resume_starts()));
    if k >= d.len() {
        Attempt::Eof
    } else if !is_frame_start(d[k]) {
        skip
    } else if d[k] == 0x45 {
        if k + 1 < d.len() && !(d[k + 1] == 0 || d[k + 1] == 15 || d[k + 1] == 255) {
            skip
        } else {
            match event_at(d, k + 1) {
                Err(e) => if internal_error_of(e) is Eof {
                    Attempt::Eof
                } else {
                    skip
                },
                Ok((event, end)) => if ends_frame(d, end) {
                    Attempt::Event(event, end)
                } else {
                    skip
                },
            }
        }
    } else if !declared(frames, d[k]) {
        skip
    } else {
        match frame_outcome(
            plans_for(frames, d[k]),
            d,
            8 * (k + 1),
            p.history_for(d[k]),
            p.spec_context().predictor,
        ) {
            Err(InternalError::Eof) => Attempt::Eof,
            Err(InternalError::Retry) => skip,
            Ok((values, end, ctx)) => if end >= 8 * (k + 1) && ends_frame(d, byte_index(end)) {
                Attempt::Frame(d[k], values, end, ctx)
            } else {
                skip
            },
        }
    }
}

/// Whether `a` holds what `b` holds, but maybe for the reader's position.
pub open spec fn kept_but_position<'data>(b: DataParser<'data>, a: DataParser<'data>) -> bool {
    &&& a.reader().data() == b.reader().data()
    &&& a.spec_context() == b.spec_context()
    &&& same_history(a.main_history(), b.main_history())
    &&& same_history(a.slow_history(), b.slow_history())
    &&& same_history(a.gps_history(), b.gps_history())
    &&& same_history(a.gps_home_history(), b.gps_home_history())
    &&& a.spec_counts() == b.spec_counts()
    &&& a.spec_done() == b.spec_done()
}

/// Whether the history of each kind of frame in `a` is that of `b`, after a
/// frame of the values `values` that the byte `k` starts.
pub open spec fn histories_after<'data>(
    b: DataParser<'data>,
    a: DataParser<'data>,
    k: u8,
    values: Seq<u32>,
) -> bool {
    &&& if k == 0x49 || k == 0x50 {
        advanced(b.main_history(), a.main_history(), values)
    } else {
        same_history(a.main_history(), b.main_history())
    }
    &&& if k == 0x53 {
        advanced(b.slow_history(), a.slow_history(), values)
    } else {
        same_history(a.slow_history(), b.slow_history())
    }
    &&& if k == 0x47 {
        advanced(b.gps_history(), a.gps_history(), values)
    } else {
        same_history(a.gps_history(), b.gps_history())
    }
    &&& if k == 0x48 {
        advanced(b.gps_home_history(), a.gps_home_history(), values)
    } else {
        same_history(a.gps_home_history(), b.gps_home_history())
    }
}

/// Whether `r` is what the frame of the values `values` that the byte `k`
/// starts is given as: GPS home frames are kept for the predictors, and the
/// parser tries again.
pub open spec fn gives(r: Step, k: u8, values: Seq<u32>) -> bool {
    if k == 0x49 {
        r matches Step::Give(ParsedFrame::Main(MainFrameKind::Intra, f)) && f.values() == values
    } else if k == 0x50 {
        r matches Step::Give(ParsedFrame::Main(MainFrameKind::Inter, f)) && f.values() == values
    } else if k == 0x53 {
        r matches Step::Give(ParsedFrame::Slow(f)) && f.values() == values
    } else if k == 0x47 {
        r matches Step::Give(ParsedFrame::Gps(f)) && f.values() == values
    } else {
        r is Skip
    }
}

/// Whether one try takes the parser from `b` to `a` and ends in `r`.
pub open spec fn attempt_rel<'data>(b: DataParser<'data>, a: DataParser<'data>, r: Step) -> bool {
    match attempt_of(b) {
        Attempt::Eof => r is Stop && kept_but_position(b, a),
        Attempt::Skip(pos) => r is Skip && kept_but_position(b, a) && a.reader().pos() == pos,
        Attempt::Event(event, end) => {
            &&& r matches Step::Give(ParsedFrame::Event(e)) && e == event
            &&& a.reader().data() == b.reader().data()
            &&& a.reader().pos() == 8 * end
            &&& a.spec_context() == b.spec_context()
            &&& histories_after(b, a, 0x45, seq![])
            &&& a.spec_counts() == counted(b.spec_counts(), 0x45)
            &&& a.spec_done() == (event == Event::End)
        },
        Attempt::Frame(k, values, end, ctx) => {
            &&& gives(r, k, values)
            &&& a.reader().data() == b.reader().data()
            &&& a.reader().pos() == end
            &&& a.spec_context().frames == b.spec_context().frames
            &&& a.spec_context().predictor == ctx
            &&& histories_after(b, a, k, values)
            &&& a.spec_counts() == counted(b.spec_counts(), k)
            &&& a.spec_done() == b.spec_done()
        },
    }
}

/// Whether a call that takes the parser from `b` to `a` through the states
/// `trace` ends in `r`: it tries again until a try gives a frame or the data
/// ends.
pub open spec fn run_rel<'data>(
    b: DataParser<'data>,
    trace: Seq<DataParser<'data>>,
    a: DataParser<'data>,
    r: Step,
) -> bool {
    &&& trace.len() >= 1
    &&& trace[0] == b
    &&& forall|i: int|
        0 <= i < trace.len() - 1 ==> #[trigger] attempt_rel(trace[i], trace[i + 1], Step::Skip)
    &&& attempt_rel(trace.last(), a, r)
    &&& !(r is Skip)
}

/// What a call gives when its last try ended in `r`.
pub open spec fn step_result(r: Step) -> Option<ParsedFrame> {
    match r {
        Step::Give(f) => Some(f),
        _ => None,
    }
}

/// Whether a call of [`DataParser::next_frame`] takes the parser from `b`
/// to `a` and gives `res`: nothing, and no change, once the end of the log
/// was found; else the tries of `run_rel`.
pub open spec fn call_rel<'data>(b: DataParser<'data>, a: DataParser<'data>, res: Option<ParsedFrame>) -> bool {
    &&& (b.spec_done() ==> res is None && a == b)
    &&& (!b.spec_done() ==> exists|trace: Seq<DataParser<'data>>, r: Step|
        #[trigger] run_rel(b, trace, a, r) && res == step_result(r))
}

/// Whether `h` holds rows of `len` fields, all zero, with no frame
/// finished.
pub open spec fn fresh_history(h: FrameHistory, len: nat) -> bool {
    &&& h.wf()
    &&& h.spec_len() == len
    &&& h.spec_current() == 0
    &&& h.spec_past() == 0
    &&& forall|r: int, i: int| 0 <= r < 3 && 0 <= i < len ==> #[trigger] h.row(r)[i] == 0
}

/// Whether `p` is a parser that starts at the start of `data` with
/// `context`: empty histories, no frame counted, the end not found.
pub open spec fn fresh_parser<'data>(p: DataParser<'data>, data: Seq<u8>, context: Context<'data>) -> bool {
    &&& p.wf()
    &&& p.reader().data() == data
    &&& p.reader().pos() == 0
    &&& p.spec_context() == context
    &&& fresh_history(p.main_history(), context.frames.main@.len())
    &&& fresh_history(p.slow_history(), context.frames.slow@.len())
    &&& fresh_history(
        p.gps_history(),
        match context.frames.gps {
            Some(g) => g@.len(),
            None => 0,
        },
    )
    &&& fresh_history(
        p.gps_home_history(),
        match context.frames.gps_home {
            Some(h) => h@.len(),
            None => 0,
        },
    )
    &&& p.spec_counts() == (FrameCounts { event: 0, main: 0, slow: 0, gps: 0, gps_home: 0 })
    &&& !p.spec_done()
}

impl<'data> DataParser<'data> {
    /// The reader over the data section.
    pub closed spec fn reader(&self) -> Reader {
        self.data
    }

    /// The frame definitions and predictor context.
    pub closed spec fn spec_context(&self) -> Context<'data> {
        self.context
    }

    /// The number of frames of each kind found so far.
    pub closed spec fn spec_counts(&self) -> FrameCounts {
        self.counts
    }

    /// Whether the end of the log was found.
    pub closed spec fn spec_done(&self) -> bool {
        self.done
    }

    /// The number of frames of each kind found so far.
    pub fn stats(&self) -> (c: FrameCounts)
        ensures
            c == self.spec_counts(),
    {
        self.counts
    }

    /// Whether the end of the log was found.
    pub fn is_done(&self) -> (b: bool)
        ensures
            b == self.spec_done(),
    {
        self.done
    }

    /// The last main frames.
    pub closed spec fn main_history(&self) -> FrameHistory {
        self.main
    }

    /// The last slow frames.
    pub closed spec fn slow_history(&self) -> FrameHistory {
        self.slow
    }

    /// The last GPS frames.
    pub closed spec fn gps_history(&self) -> FrameHistory {
        self.gps
    }

    /// The last GPS home frames.
    pub closed spec fn gps_home_history(&self) -> FrameHistory {
        self.gps_home
    }

    /// The history of the frames that the byte `b` starts.
    pub open spec fn history_for(&self, b: u8) -> FrameHistory {
        if b == 0x49 || b == 0x50 {
            self.main_history()
        } else if b == 0x53 {
            self.slow_history()
        } else if b == 0x47 {
            self.gps_history()
        } else {
            self.gps_home_history()
        }
    }

    /// The reader and the histories are consistent with the frame
    /// definitions.
    pub open spec fn wf(&self) -> bool {
        let frames = self.spec_context().frames;
        &&& self.reader().wf()
        &&& self.main_history().wf()
        &&& self.slow_history().wf()
        &&& self.gps_history().wf()
        &&& self.gps_home_history().wf()
        &&& self.main_history().spec_len() == frames.main@.len()
        &&& self.slow_history().spec_len() == frames.slow@.len()
        &&& (frames.gps matches Some(g) ==> self.gps_history().spec_len() == g@.len())
        &&& (frames.gps_home matches Some(h) ==> self.gps_home_history().spec_len() == h@.len())
    }

    /// The byte of the next frame, if any is left.
    pub open spec fn next_start(&self) -> int {
        skip_end(self.reader().data(), byte_index(self.reader().pos()), frame_starts())
    }

    /// Starts parsing the data section `data` of a log with `context`.
    pub fn new(data: &[u8], context: Context<'data>) -> (p: Self)
        requires
            context.frames.main@.len() * 3 <= usize::MAX,
            context.frames.slow@.len() * 3 <= usize::MAX,
            context.frames.gps matches Some(g) ==> g@.len() * 3 <= usize::MAX,
            context.frames.gps_home matches Some(h) ==> h@.len() * 3 <= usize::MAX,
        ensures
            p.wf(),
            p.reader().data() == data@,
            p.reader().pos() == 0,
            p.spec_context() == context,
            p.main_history().spec_past() == 0,
            p.slow_history().spec_past() == 0,
            p.gps_history().spec_past() == 0,
            p.gps_home_history().spec_past() == 0,
            p.spec_counts() == (FrameCounts { event: 0, main: 0, slow: 0, gps: 0, gps_home: 0 }),
            !p.spec_done(),
            fresh_parser(p, data@, context),
    {
        let main = FrameHistory::new(context.frames.main.len());
        let slow = FrameHistory::new(context.frames.slow.len());
        let gps = FrameHistory::new(
            match &context.frames.gps {
                Some(g) => g.len(),
                None => 0,
            },
        );
        let gps_home = FrameHistory::new(
            match &context.frames.gps_home {
                Some(h) => h.len(),
                None => 0,
            },
        );
        DataParser {
            data: Reader::new(data),
            context,
            main,
            slow,
            gps,
            gps_home,
            counts: FrameCounts { event: 0, main: 0, slow: 0, gps: 0, gps_home: 0 },
            done: false,
        }
    }

    /// The byte that starts the next frame, if any is left.
    pub fn next_frame_byte(&self) -> (b: Option<u8>)
        requires
            self.wf(),
        ensures
            self.next_start() < self.reader().data().len() ==> b == Some(
                self.reader().data()[self.next_start()],
            ),
            self.next_start() >= self.reader().data().len() ==> b is None,
    {
        let targets: [u8; 6] = [0x49, 0x50, 0x53, 0x47, 0x48, 0x45];
        assert(targets@ == frame_starts());
        self.data.peek_any(targets.as_slice())
    }

    /// Reads frames until one is good and gives it; passes over what is not
    /// a frame, corrupted frames and GPS home frames, whose values are kept
    /// for the predictors. `None` once the data ends or from the end of the
    /// log on.
    pub fn next_frame(&mut self) -> (res: Option<ParsedFrame>)
        requires
            old(self).wf(),
        ensures
            final(self).wf(),
            final(self).spec_context().frames == old(self).spec_context().frames,
            final(self).reader().data() == old(self).reader().data(),
            call_rel(*old(self), *final(self), res),
            res is Some ==> byte_index(final(self).reader().pos()) > byte_index(
                old(self).reader().pos(),
            ),
    {
        if self.done {
            return None;
        }
        let ghost start = *self;
        let ghost mut trace: Seq<DataParser<'data>> = seq![*self];
        loop
            invariant
                self.wf(),
                !self.spec_done(),
                !start.spec_done(),
                self.spec_context().frames == start.spec_context().frames,
                self.reader().data() == start.reader().data(),
                start == *old(self),
                byte_index(self.reader().pos()) >= byte_index(start.reader().pos()),
                trace.len() >= 1,
                trace[0] == start,
                trace.last() == *self,
                forall|i: int|
                    0 <= i < trace.len() - 1 ==> #[trigger] attempt_rel(
                        trace[i],
                        trace[i + 1],
                        Step::Skip,
                    ),
            decreases self.reader().data().len() - byte_index(self.reader().pos()),
        {
            proof {
                self.data.lemma_wf();
            }
            let ghost before = *self;
            let r = self.attempt();
            match r {
                Step::Skip => {
                    proof {
                        let t2 = trace.push(*self);
                        assert forall|i: int| 0 <= i < t2.len() - 1 implies #[trigger] attempt_rel(
                            t2[i],
                            t2[i + 1],
                            Step::Skip,
                        ) by {
                            if i < trace.len() - 1 {
                                assert(t2[i] == trace[i] && t2[i + 1] == trace[i + 1]);
                            } else {
                                assert(t2[i] == before && t2[i + 1] == *self);
                            }
                        }
                        trace = t2;
                        self.data.lemma_wf();
                    }
                },
                Step::Stop => {
                    proof {
                        assert(run_rel(start, trace, *self, Step::Stop));
                    }
                    return None;
                },
                Step::Give(f) => {
                    proof {
                        assert(run_rel(start, trace, *self, Step::Give(f)));
                    }
                    return Some(f);
                },
            }
        }
    }

    /// Resumes parsing at the next byte from the reader's position on that
    /// starts a frame other than `P`.
    fn skip_to_frame(&mut self)
        requires
            old(self).wf(),
        ensures
            final(self).wf(),
            kept_but_position(*old(self), *final(self)),
            final(self).reader().pos() == 8 * skip_end(
                old(self).reader().data(),
                byte_index(old(self).reader().pos()),
                resume_starts(),
            ),
    {
        let targets: [u8; 5] = [0x45, 0x49, 0x53, 0x47, 0x48];
        assert(targets@ == resume_starts());
        self.data.skip_until_any(targets.as_slice());
    }

    /// One try at reading a frame.
    fn attempt(&mut self) -> (r: Step)
        requires
            old(self).wf(),
            !old(self).spec_done(),
        ensures
            final(self).wf(),
            final(self).spec_context().frames == old(self).spec_context().frames,
            final(self).reader().data() == old(self).reader().data(),
            attempt_rel(*old(self), *final(self), r),
            !(r is Stop) ==> byte_index(final(self).reader().pos()) > byte_index(
                old(self).reader().pos(),
            ),
            r is Skip ==> !final(self).spec_done(),
    {
        proof {
            old(self).reader().lemma_wf();
        }
        let ghost d = old(self).reader().data();
        let ghost k = byte_index(old(self).reader().pos());
        let kind = match self.data.read_u8() {
            Some(b) => b,
            None => {
                return Step::Stop;
            },
        };
        let restore = self.data.get_restore_point();
        proof {
            lemma_skip_end(d, k + 1, resume_starts());
        }
        if !(kind == 0x49 || kind == 0x50 || kind == 0x53 || kind == 0x47 || kind == 0x48
            || kind == 0x45) {
            self.skip_to_frame();
            return Step::Skip;
        }
        let ghost b0 = *old(self);
        let r = if kind == 0x45 {
            self.attempt_event(restore, Ghost(k), Ghost(b0))
        } else {
            self.attempt_data(kind, restore, Ghost(k), Ghost(b0))
        };
        proof {
            lemma_event_end(d, k + 1);
            let end_pos = self.reader().pos();
            assert(!(r is Stop) ==> end_pos >= 8 * (k + 1));
        }
        r
    }

    /// Parses over a frame that failed at byte `k`: resumes at the next byte
    /// after it that starts a frame other than `P`.
    fn pass_over(&mut self, restore: RestorePoint, Ghost(k): Ghost<int>)
        requires
            old(self).wf(),
            restore.wf(),
            restore.pos() == 8 * (k + 1),
            0 <= k < old(self).reader().data().len(),
        ensures
            final(self).wf(),
            kept_but_position(*old(self), *final(self)),
            final(self).reader().pos() == 8 * skip_end(
                old(self).reader().data(),
                k + 1,
                resume_starts(),
            ),
    {
        self.data.restore(restore);
        self.skip_to_frame();
    }

    /// One try at reading an event, whose `E` was byte `k`, from the state
    /// `b0` before that byte was read.
    fn attempt_event(
        &mut self,
        restore: RestorePoint,
        Ghost(k): Ghost<int>,
        Ghost(b0): Ghost<DataParser<'data>>,
    ) -> (r: Step)
        requires
            old(self).wf(),
            b0.wf(),
            !b0.spec_done(),
            kept_but_position(b0, *old(self)),
            byte_index(b0.reader().pos()) == k,
            restore.wf(),
            0 <= k < old(self).reader().data().len(),
            old(self).reader().data()[k] == 0x45,
            old(self).reader().pos() == 8 * (k + 1),
            restore.pos() == 8 * (k + 1),
        ensures
            final(self).wf(),
            final(self).spec_context().frames == old(self).spec_context().frames,
            final(self).reader().data() == old(self).reader().data(),
            attempt_rel(b0, *final(self), r),
    {
        let ghost d = old(self).reader().data();
        proof {
            old(self).reader().lemma_wf();
        }
        match self.data.peek() {
            Some(b) => {
                if !(b == 0 || b == 15 || b == 255) {
                    self.pass_over(restore, Ghost(k));
                    return Step::Skip;
                }
            },
            None => {},
        }
        let event = match Event::parse(&mut self.data) {
            Ok(event) => event,
            Err(e) => {
                let e = InternalError::from_parse_error(e);
                match e {
                    InternalError::Eof => {
                        return Step::Stop;
                    },
                    InternalError::Retry => {
                        self.pass_over(restore, Ghost(k));
                        return Step::Skip;
                    },
                }
            },
        };
        proof {
            self.data.lemma_wf();
        }
        match self.data.peek() {
            Some(b) => {
                if !(b == 0x49 || b == 0x50 || b == 0x53 || b == 0x47 || b == 0x48 || b
                    == 0x45) {
                    self.pass_over(restore, Ghost(k));
                    return Step::Skip;
                }
            },
            None => {},
        }
        self.counts.record(0x45);
        if event == Event::End {
            self.done = true;
        }
        Step::Give(ParsedFrame::Event(event))
    }

    /// One try at reading a data frame started by `kind`, which was byte
    /// `k`, from the state `b0` before that byte was read.
    fn attempt_data(
        &mut self,
        kind: u8,
        restore: RestorePoint,
        Ghost(k): Ghost<int>,
        Ghost(b0): Ghost<DataParser<'data>>,
    ) -> (r: Step)
        requires
            old(self).wf(),
            b0.wf(),
            !b0.spec_done(),
            kept_but_position(b0, *old(self)),
            byte_index(b0.reader().pos()) == k,
            restore.wf(),
            0 <= k < old(self).reader().data().len(),
            old(self).reader().data()[k] == kind,
            kind == 0x49 || kind == 0x50 || kind == 0x53 || kind == 0x47 || kind == 0x48,
            old(self).reader().pos() == 8 * (k + 1),
            restore.pos() == 8 * (k + 1),
        ensures
            final(self).wf(),
            final(self).spec_context().frames == old(self).spec_context().frames,
            final(self).reader().data() == old(self).reader().data(),
            attempt_rel(b0, *final(self), r),
    {
        proof {
            lemma_skip_end(old(self).reader().data(), k + 1, resume_starts());
        }
        let def = if kind == 0x49 {
            self.context.frames.intra()
        } else if kind == 0x50 {
            self.context.frames.inter()
        } else if kind == 0x53 {
            self.context.frames.slow()
        } else if kind == 0x47 {
            match self.context.frames.gps() {
                Some(def) => def,
                None => {
                    self.pass_over(restore, Ghost(k));
                    return Step::Skip;
                },
            }
        } else {
            match self.context.frames.gps_home() {
                Some(def) => def,
                None => {
                    self.pass_over(restore, Ghost(k));
                    return Step::Skip;
                },
            }
        };
        proof {
            lemma_same_histories(old(self).history_for(kind), b0.history_for(kind));
            assert(def.fields@ == plans_for(old(self).spec_context().frames, kind));
        }
        let res = if kind == 0x49 || kind == 0x50 {
            decode_checked(
                &mut self.data,
                &def,
                &mut self.context.predictor,
                &mut self.main,
                restore,
                Ghost(k),
            )
        } else if kind == 0x53 {
            decode_checked(
                &mut self.data,
                &def,
                &mut self.context.predictor,
                &mut self.slow,
                restore,
                Ghost(k),
            )
        } else if kind == 0x47 {
            decode_checked(
                &mut self.data,
                &def,
                &mut self.context.predictor,
                &mut self.gps,
                restore,
                Ghost(k),
            )
        } else {
            decode_checked(
                &mut self.data,
                &def,
                &mut self.context.predictor,
                &mut self.gps_home,
                restore,
                Ghost(k),
            )
        };
        match res {
            Err(InternalError::Eof) => Step::Stop,
            Err(InternalError::Retry) => Step::Skip,
            Ok(frame) => {
                self.counts.record(kind);
                if kind == 0x49 {
                    Step::Give(ParsedFrame::Main(MainFrameKind::Intra, frame))
                } else if kind == 0x50 {
                    Step::Give(ParsedFrame::Main(MainFrameKind::Inter, frame))
                } else if kind == 0x53 {
                    Step::Give(ParsedFrame::Slow(frame))
                } else if kind == 0x47 {
                    Step::Give(ParsedFrame::Gps(frame))
                } else {
                    Step::Skip
                }
            },
        }
    }

    /// Reads frames until one is good, as [`DataParser::next_frame`] does,
    /// and hands it to the method of `visitor` for its kind.
    pub fn next<V: Visitor>(&mut self, visitor: V) -> (res: Option<Result<V::Output, Error>>)
        requires
            old(self).wf(),
        ensures
            final(self).wf(),
            final(self).spec_context().frames == old(self).spec_context().frames,
            final(self).reader().data() == old(self).reader().data(),
            old(self).spec_done() ==> res is None && *final(self) == *old(self),
            !old(self).spec_done() ==> exists|trace: Seq<DataParser<'data>>, r: Step|
                #[trigger] run_rel(*old(self), trace, *final(self), r) && match r {
                    Step::Give(f) => res matches Some(Ok(out)) && visited(visitor, f, out),
                    _ => res is None,
                },
    {
        let mut visitor = visitor;
        let frame = self.next_frame();
        let ghost found = frame;
        let res = match frame {
            None => None,
            Some(ParsedFrame::Main(kind, f)) => Some(Ok(visitor.main(kind, f))),
            Some(ParsedFrame::Slow(f)) => Some(Ok(visitor.slow(f))),
            Some(ParsedFrame::Gps(f)) => Some(Ok(visitor.gps(f))),
            Some(ParsedFrame::Event(e)) => Some(Ok(visitor.event(e))),
        };
        proof {
            if !old(self).spec_done() {
                assert(call_rel(*old(self), *self, found));
                let (t, r) = choose|t: Seq<DataParser<'data>>, r: Step|
                    #[trigger] run_rel(*old(self), t, *self, r) && found == step_result(r);
                assert(run_rel(*old(self), t, *self, r));
            }
        }
        res
    }
}

/// Histories that hold the same rows give the same history of each field.
proof fn lemma_same_histories(a: FrameHistory, b: FrameHistory)
    requires
        same_history(a, b),
    ensures
        histories(a) == histories(b),
{
    assert(a.row(((a.spec_current() + 1) % 3) as int) == b.row(((b.spec_current() + 1) % 3) as int));
    assert(a.row(((a.spec_current() + 2) % 3) as int) == b.row(((b.spec_current() + 2) % 3) as int));
    assert(histories(a) =~= histories(b));
}

/// Decodes a frame of the fields `def` that starts after byte `k`. Keeps it
/// only when it does not end before its start and is followed by the end of
/// the data or by a byte that starts a frame; else puts the history and the
/// predictor context back and resumes at the next byte after `k` that
/// starts a frame other than `P`, as it does when the frame is corrupted.
fn decode_checked(
    data: &mut Reader,
    def: &FrameDef,
    ctx: &mut PredictorContextV2,
    history: &mut FrameHistory,
    restore: RestorePoint,
    Ghost(k): Ghost<int>,
) -> (res: Result<Frame, InternalError>)
    requires
        old(data).wf(),
        old(history).wf(),
        old(history).spec_len() == def.fields@.len(),
        restore.wf(),
        0 <= k < old(data).data().len(),
        old(data).pos() == 8 * (k + 1),
        restore.pos() == 8 * (k + 1),
    ensures
        final(data).wf(),
        final(data).data() == old(data).data(),
        final(history).wf(),
        match frame_outcome(def.fields@, old(data).data(), 8 * (k + 1), *old(history), *old(ctx)) {
            Err(InternalError::Eof) => res == Err::<Frame, InternalError>(InternalError::Eof)
                && same_history(*final(history), *old(history)) && *final(ctx) == *old(ctx),
            Err(InternalError::Retry) => res == Err::<Frame, InternalError>(InternalError::Retry)
                && same_history(*final(history), *old(history)) && *final(ctx) == *old(ctx)
                && final(data).pos() == 8 * skip_end(old(data).data(), k + 1, resume_starts()),
            Ok((values, end, last)) => if end >= 8 * (k + 1) && ends_frame(
                old(data).data(),
                byte_index(end),
            ) {
                &&& res matches Ok(f) && f.values() == values
                &&& advanced(*old(history), *final(history), values)
                &&& *final(ctx) == last
                &&& final(data).pos() == end
            } else {
                &&& res == Err::<Frame, InternalError>(InternalError::Retry)
                &&& same_history(*final(history), *old(history))
                &&& *final(ctx) == *old(ctx)
                &&& final(data).pos() == 8 * skip_end(old(data).data(), k + 1, resume_starts())
            },
        },
{
    let saved = history.duplicate();
    let saved_ctx = *ctx;
    let targets: [u8; 5] = [0x45, 0x49, 0x53, 0x47, 0x48];
    assert(targets@ == resume_starts());
    match decode_frame(data, def, ctx, history) {
        Ok(frame) => {
            proof {
                data.lemma_wf();
            }
            let early = data.is_before(restore);
            let followed = match data.peek() {
                Some(b) => b == 0x49 || b == 0x50 || b == 0x53 || b == 0x47 || b == 0x48 || b
                    == 0x45,
                None => true,
            };
            if !early && followed {
                Ok(frame)
            } else {
                *history = saved;
                *ctx = saved_ctx;
                data.restore(restore);
                data.skip_until_any(targets.as_slice());
                Err(InternalError::Retry)
            }
        },
        Err(Error::Decode(e)) => {
            *history = saved;
            *ctx = saved_ctx;
            match e {
                InternalError::Eof => Err(InternalError::Eof),
                InternalError::Retry => {
                    data.restore(restore);
                    data.skip_until_any(targets.as_slice());
                    Err(InternalError::Retry)
                },
            }
        },
    }
}

/// The counts of events, main, slow and GPS frames, which a try that
/// passes over something keeps.
pub open spec fn given_counts(c: FrameCounts) -> (usize, usize, usize, usize) {
    (c.event, c.main, c.slow, c.gps)
}

/// A try that ends in trying again keeps the counts of events, main, slow
/// and GPS frames.
proof fn lemma_skip_keeps_counts<'data>(b: DataParser<'data>, a: DataParser<'data>)
    requires
        attempt_rel(b, a, Step::Skip),
    ensures
        given_counts(a.spec_counts()) == given_counts(b.spec_counts()),
{
}

/// Along tries that end in trying again, the counts of events, main, slow
/// and GPS frames stay.
proof fn lemma_trace_keeps_counts<'data>(trace: Seq<DataParser<'data>>, i: int)
    requires
        0 <= i < trace.len(),
        forall|j: int|
            0 <= j < trace.len() - 1 ==> #[trigger] attempt_rel(trace[j], trace[j + 1], Step::Skip),
    ensures
        given_counts(trace[i].spec_counts()) == given_counts(trace[0].spec_counts()),
    decreases i,
{
    if i > 0 {
        lemma_trace_keeps_counts(trace, i - 1);
        let j = i - 1;
        assert(attempt_rel(trace[j], trace[j + 1], Step::Skip));
        lemma_skip_keeps_counts(trace[j], trace[j + 1]);
    }
}

/// The count `n` frames after the count `c`, wrapping around to zero after
/// the largest `usize`.
pub open spec fn count_steps(c: usize, n: nat) -> usize
    decreases n,
{
    if n == 0 {
        c
    } else {
        next_count(count_steps(c, (n - 1) as nat))
    }
}

/// Counting `n` frames from `c` adds `n` while the sum fits in a `usize`.
pub proof fn lemma_count_steps(c: usize, n: nat)
    requires
        c + n <= usize::MAX,
    ensures
        count_steps(c, n) == c + n,
    decreases n,
{
    if n > 0 {
        lemma_count_steps(c, (n - 1) as nat);
    }
}

/// A try that ends in trying again counts at most one GPS home frame.
proof fn lemma_skip_counts_home<'data>(b: DataParser<'data>, a: DataParser<'data>)
    requires
        attempt_rel(b, a, Step::Skip),
    ensures
        a.spec_counts().gps_home == b.spec_counts().gps_home || a.spec_counts().gps_home
            == next_count(b.spec_counts().gps_home),
{
}

/// Along tries that end in trying again, the GPS home count goes up one
/// frame at a time.
proof fn lemma_trace_counts_home<'data>(trace: Seq<DataParser<'data>>, i: int) -> (n: nat)
    requires
        0 <= i < trace.len(),
        forall|j: int|
            0 <= j < trace.len() - 1 ==> #[trigger] attempt_rel(trace[j], trace[j + 1], Step::Skip),
    ensures
        trace[i].spec_counts().gps_home == count_steps(trace[0].spec_counts().gps_home, n),
    decreases i,
{
    if i == 0 {
        0
    } else {
        let m = lemma_trace_counts_home(trace, i - 1);
        let j = i - 1;
        assert(attempt_rel(trace[j], trace[j + 1], Step::Skip));
        lemma_skip_counts_home(trace[j], trace[j + 1]);
        if trace[i].spec_counts().gps_home == trace[j].spec_counts().gps_home {
            m
        } else {
            m + 1
        }
    }
}

/// Each call of [`DataParser::next_frame`] counts the frame it gives, one of
/// its kind, and no other event, main, slow or GPS frame. The GPS home frames
/// it passes over are counted apart, one at a time, so their count does not
/// go down unless it wraps around after the largest `usize`.
pub proof fn lemma_call_counts<'data>(b: DataParser<'data>, a: DataParser<'data>, res: Option<ParsedFrame>)
    requires
        call_rel(b, a, res),
    ensures
        a.spec_counts().event == (if res matches Some(ParsedFrame::Event(_)) {
            next_count(b.spec_counts().event)
        } else {
            b.spec_counts().event
        }),
        a.spec_counts().main == (if res matches Some(ParsedFrame::Main(..)) {
            next_count(b.spec_counts().main)
        } else {
            b.spec_counts().main
        }),
        a.spec_counts().slow == (if res matches Some(ParsedFrame::Slow(_)) {
            next_count(b.spec_counts().slow)
        } else {
            b.spec_counts().slow
        }),
        a.spec_counts().gps == (if res matches Some(ParsedFrame::Gps(_)) {
            next_count(b.spec_counts().gps)
        } else {
            b.spec_counts().gps
        }),
        exists|n: nat|
            #[trigger] count_steps(b.spec_counts().gps_home, n) == a.spec_counts().gps_home && (
            b.spec_counts().gps_home + n <= usize::MAX ==> a.spec_counts().gps_home
                == b.spec_counts().gps_home + n),
{
    if !b.spec_done() {
        let (trace, r) = choose|trace: Seq<DataParser<'data>>, r: Step|
            #[trigger] run_rel(b, trace, a, r) && res == step_result(r);
        lemma_trace_keeps_counts(trace, trace.len() - 1);
        let last = trace.last();
        assert(given_counts(last.spec_counts()) == given_counts(b.spec_counts()));
        let n = lemma_trace_counts_home(trace, trace.len() - 1);
        assert(a.spec_counts().gps_home == last.spec_counts().gps_home);
        if b.spec_counts().gps_home + n <= usize::MAX {
            lemma_count_steps(b.spec_counts().gps_home, n);
        }
        assert(count_steps(b.spec_counts().gps_home, n) == a.spec_counts().gps_home);
    } else {
        assert(count_steps(b.spec_counts().gps_home, 0) == a.spec_counts().gps_home);
    }
}

/// The frames and events of a log's data section, each kind in the order
/// they come.
#[derive(Debug, Clone)]
pub struct Data {
    pub events: Vec<Event>,
    pub main_frames: Vec<Frame>,
    pub slow_frames: Vec<Frame>,
    pub gps_frames: Vec<Frame>,
}

/// The events among the results `rs`, in order.
pub open spec fn events_of(rs: Seq<Option<ParsedFrame>>) -> Seq<Event>
    decreases rs.len(),
{
    if rs.len() == 0 {
        seq![]
    } else {
        events_of(rs.drop_last()) + match rs.last() {
            Some(ParsedFrame::Event(e)) => seq![e],
            _ => seq![],
        }
    }
}

/// The values of the main frames among the results `rs`, in order.
pub open spec fn main_of(rs: Seq<Option<ParsedFrame>>) -> Seq<Seq<u32>>
    decreases rs.len(),
{
    if rs.len() == 0 {
        seq![]
    } else {
        main_of(rs.drop_last()) + match rs.last() {
            Some(ParsedFrame::Main(_, f)) => seq![f.values()],
            _ => seq![],
        }
    }
}

/// The values of the slow frames among the results `rs`, in order.
pub open spec fn slow_of(rs: Seq<Option<ParsedFrame>>) -> Seq<Seq<u32>>
    decreases rs.len(),
{
    if rs.len() == 0 {
        seq![]
    } else {
        slow_of(rs.drop_last()) + match rs.last() {
            Some(ParsedFrame::Slow(f)) => seq![f.values()],
            _ => seq![],
        }
    }
}

/// The values of the GPS frames among the results `rs`, in order.
pub open spec fn gps_of(rs: Seq<Option<ParsedFrame>>) -> Seq<Seq<u32>>
    decreases rs.len(),
{
    if rs.len() == 0 {
        seq![]
    } else {
        gps_of(rs.drop_last()) + match rs.last() {
            Some(ParsedFrame::Gps(f)) => seq![f.values()],
            _ => seq![],
        }
    }
}

/// The values of the frames `fs`.
pub open spec fn frame_values(fs: Seq<Frame>) -> Seq<Seq<u32>> {
    fs.map_values(|f: Frame| f.values())
}

/// Whether `states` are the states of a parser of `data` with `context`
/// and `results` what calls of [`DataParser::next_frame`] gave, from a fresh
/// parser until a call gave nothing.
pub open spec fn parse_run<'data>(
    data: Seq<u8>,
    context: Context<'data>,
    states: Seq<DataParser<'data>>,
    results: Seq<Option<ParsedFrame>>,
) -> bool {
    &&& states.len() == results.len() + 1
    &&& fresh_parser(states[0], data, context)
    &&& forall|i: int|
        0 <= i < results.len() ==> #[trigger] call_rel(states[i], states[i + 1], results[i])
    &&& results.len() >= 1
    &&& results.last() is None
    &&& forall|i: int| 0 <= i < results.len() - 1 ==> #[trigger] results[i] is Some
}

/// Adding a result to the results adds what it holds to what they hold.
proof fn lemma_results_push(rs: Seq<Option<ParsedFrame>>, r: Option<ParsedFrame>)
    ensures
        events_of(rs.push(r)) == events_of(rs) + match r {
            Some(ParsedFrame::Event(e)) => seq![e],
            _ => seq![],
        },
        main_of(rs.push(r)) == main_of(rs) + match r {
            Some(ParsedFrame::Main(_, f)) => seq![f.values()],
            _ => seq![],
        },
        slow_of(rs.push(r)) == slow_of(rs) + match r {
            Some(ParsedFrame::Slow(f)) => seq![f.values()],
            _ => seq![],
        },
        gps_of(rs.push(r)) == gps_of(rs) + match r {
            Some(ParsedFrame::Gps(f)) => seq![f.values()],
            _ => seq![],
        },
{
    assert(rs.push(r).drop_last() =~= rs);
}

/// Adding a frame to frames adds its values to their values.
proof fn lemma_frame_values_push(fs: Seq<Frame>, f: Frame)
    ensures
        frame_values(fs.push(f)) == frame_values(fs).push(f.values()),
{
    assert(frame_values(fs.push(f)) =~= frame_values(fs).push(f.values()));
}

impl Data {
    /// Reads the data section `data` of a log with `context` to its end, or
    /// to the end of the log, and keeps each frame and event given.
    pub fn parse<'data>(data: &[u8], context: Context<'data>) -> (res: Data)
        requires
            context.frames.main@.len() * 3 <= usize::MAX,
            context.frames.slow@.len() * 3 <= usize::MAX,
            context.frames.gps matches Some(g) ==> g@.len() * 3 <= usize::MAX,
            context.frames.gps_home matches Some(h) ==> h@.len() * 3 <= usize::MAX,
        ensures
            exists|states: Seq<DataParser<'data>>, results: Seq<Option<ParsedFrame>>|
                {
                    &&& #[trigger] parse_run(data@, context, states, results)
                    &&& res.events@ == events_of(results)
                    &&& frame_values(res.main_frames@) == main_of(results)
                    &&& frame_values(res.slow_frames@) == slow_of(results)
                    &&& frame_values(res.gps_frames@) == gps_of(results)
                },
    {
        let ghost ctx = context;
        let mut parser = DataParser::new(data, context);
        let mut events: Vec<Event> = Vec::new();
        let mut main_frames: Vec<Frame> = Vec::new();
        let mut slow_frames: Vec<Frame> = Vec::new();
        let mut gps_frames: Vec<Frame> = Vec::new();
        let ghost mut states: Seq<DataParser<'data>> = seq![parser];
        let ghost mut results: Seq<Option<ParsedFrame>> = seq![];
        loop
            invariant
                parser.wf(),
                ctx == context,
                states.len() == results.len() + 1,
                fresh_parser(states[0], data@, ctx),
                states.last() == parser,
                parser.reader().data() == data@,
                forall|i: int|
                    0 <= i < results.len() ==> #[trigger] call_rel(states[i], states[i + 1], results[i]),
                forall|i: int| 0 <= i < results.len() ==> #[trigger] results[i] is Some,
                events@ == events_of(results),
                frame_values(main_frames@) == main_of(results),
                frame_values(slow_frames@) == slow_of(results),
                frame_values(gps_frames@) == gps_of(results),
            decreases data@.len() - byte_index(parser.reader().pos()),
        {
            proof {
                parser.reader().lemma_wf();
            }
            let ghost before = parser;
            let r = parser.next_frame();
            let ghost found = r;
            proof {
                let s2 = states.push(parser);
                let r2 = results.push(found);
                assert forall|i: int| 0 <= i < r2.len() implies #[trigger] call_rel(s2[i], s2[i + 1], r2[i]) by {
                    if i < results.len() {
                        assert(s2[i] == states[i] && s2[i + 1] == states[i + 1] && r2[i] == results[i]);
                    } else {
                        assert(s2[i] == before && s2[i + 1] == parser && r2[i] == found);
                    }
                }
                assert forall|i: int| 0 <= i < r2.len() - 1 implies #[trigger] r2[i] is Some by {
                    assert(r2[i] == results[i]);
                }
                lemma_results_push(results, found);
                states = s2;
                results = r2;
            }
            match r {
                None => {
                    proof {
                        assert(results.last() is None);
                        assert(events@ == events_of(results));
                        assert(frame_values(main_frames@) == main_of(results));
                        assert(parse_run(data@, ctx, states, results));
                    }
                    let res = Data { events, main_frames, slow_frames, gps_frames };
                    proof {
                        assert(res.events@ == events_of(results));
                        assert(frame_values(res.main_frames@) == main_of(results));
                        assert(frame_values(res.slow_frames@) == slow_of(results));
                        assert(frame_values(res.gps_frames@) == gps_of(results));
                    }
                    return res;
                },
                Some(ParsedFrame::Event(e)) => {
                    events.push(e);
                },
                Some(ParsedFrame::Main(_, f)) => {
                    proof {
                        lemma_frame_values_push(main_frames@, f);
                    }
                    main_frames.push(f);
                },
                Some(ParsedFrame::Slow(f)) => {
                    proof {
                        lemma_frame_values_push(slow_frames@, f);
                    }
                    slow_frames.push(f);
                },
                Some(ParsedFrame::Gps(f)) => {
                    proof {
                        lemma_frame_values_push(gps_frames@, f);
                    }
                    gps_frames.push(f);
                },
            }
            proof {
                assert forall|i: int| 0 <= i < results.len() implies #[trigger] results[i] is Some by {
                    if i == results.len() - 1 {
                        assert(results[i] == found);
                    }
                }
                parser.reader().lemma_wf();
            }
        }
    }
}

/// The filters applied to the fields of main, slow and GPS frames.
#[derive(Debug, Clone)]
pub struct Filters {
    pub main: AppliedFilter,
    pub slow: AppliedFilter,
    pub gps: AppliedFilter,
}

/// The indices of the fields named `names` that `filter` keeps, in order.
pub open spec fn applied(filter: Filter, names: Seq<Seq<u8>>) -> Seq<usize> {
    match filter {
        Filter::Unfiltered => all_indices(names.len() as int),
        Filter::OnlyFields(f) => kept(filter_names(f), names, names.len() as int),
    }
}

/// The names of the main frame fields `fs`.
pub open spec fn main_names_of(fs: Seq<MainField>) -> Seq<Seq<u8>> {
    fs.map_values(|f: MainField| text(f.raw_name))
}

/// The names of the fields `fs` of slow, GPS or GPS home frames.
pub open spec fn common_names_of<K>(fs: Seq<CommonField<K>>) -> Seq<Seq<u8>> {
    fs.map_values(|f: CommonField<K>| text(f.raw_name))
}

/// The names of the main frame fields `fs`.
fn main_field_names<'data>(fs: &Vec<MainField<'data>>) -> (names: Vec<&'data str>)
    ensures
        texts(names@) == main_names_of(fs@),
{
    let mut names: Vec<&'data str> = Vec::new();
    let mut i: usize = 0;
    while i < fs.len()
        invariant
            i <= fs@.len(),
            names@.len() == i,
            forall|j: int| 0 <= j < i ==> #[trigger] names@[j] == fs@[j].raw_name,
        decreases fs@.len() - i,
    {
        names.push(fs[i].raw_name);
        i += 1;
    }
    assert(texts(names@) =~= main_names_of(fs@));
    names
}

/// The names of the fields `fs` of slow, GPS or GPS home frames.
fn common_field_names<'data, K>(fs: &Vec<CommonField<'data, K>>) -> (names: Vec<&'data str>)
    ensures
        texts(names@) == common_names_of(fs@),
{
    let mut names: Vec<&'data str> = Vec::new();
    let mut i: usize = 0;
    while i < fs.len()
        invariant
            i <= fs@.len(),
            names@.len() == i,
            forall|j: int| 0 <= j < i ==> #[trigger] names@[j] == fs@[j].raw_name,
        decreases fs@.len() - i,
    {
        names.push(fs[i].raw_name);
        i += 1;
    }
    assert(texts(names@) =~= common_names_of(fs@));
    names
}

impl Filters {
    /// Applies `filters` to the fields of the frames `frames`; no GPS field
    /// is kept when GPS frames are not declared.
    pub fn new(frames: &FrameDefs, filters: &FilterSet) -> (f: Self)
        ensures
            f.main.0@ == applied(filters.main, main_names_of(frames.main@)),
            f.slow.0@ == applied(filters.slow, common_names_of(frames.slow@)),
            f.gps.0@ == (match frames.gps {
                Some(g) => applied(filters.gps, common_names_of(g@)),
                None => Seq::<usize>::empty(),
            }),
    {
        let main_names = main_field_names(&frames.main);
        let slow_names = common_field_names(&frames.slow);
        let main = filters.main.apply(main_names.as_slice());
        let slow = filters.slow.apply(slow_names.as_slice());
        let gps = match &frames.gps {
            Some(g) => {
                let gps_names = common_field_names(g);
                filters.gps.apply(gps_names.as_slice())
            },
            None => AppliedFilter(Vec::new()),
        };
        Filters { main, slow, gps }
    }

    /// The values that the filter of its kind keeps of the frame `frame`, in
    /// order; `None` for an event.
    pub fn values(&self, frame: &ParsedFrame) -> (values: Option<Vec<u32>>)
        requires
            match frame {
                ParsedFrame::Main(_, f) => filter_fits(self.main, f.values()),
                ParsedFrame::Slow(f) => filter_fits(self.slow, f.values()),
                ParsedFrame::Gps(f) => filter_fits(self.gps, f.values()),
                ParsedFrame::Event(_) => true,
            },
        ensures
            match frame {
                ParsedFrame::Main(_, f) => values matches Some(v) && v@ == filtered_values(self.main, f.values()),
                ParsedFrame::Slow(f) => values matches Some(v) && v@ == filtered_values(self.slow, f.values()),
                ParsedFrame::Gps(f) => values matches Some(v) && v@ == filtered_values(self.gps, f.values()),
                ParsedFrame::Event(_) => values is None,
            },
    {
        match frame {
            ParsedFrame::Main(_, f) => Some(f.filtered(&self.main)),
            ParsedFrame::Slow(f) => Some(f.filtered(&self.slow)),
            ParsedFrame::Gps(f) => Some(f.filtered(&self.gps)),
            ParsedFrame::Event(_) => None,
        }
    }
}

/// Whether each field that `filter` keeps is one of `values`.
pub open spec fn filter_fits(filter: AppliedFilter, values: Seq<u32>) -> bool {
    forall|i: int| 0 <= i < filter.0@.len() ==> #[trigger] filter.0@[i] < values.len()
}

/// The values among `values` of the fields that `filter` keeps, in order.
pub open spec fn filtered_values(filter: AppliedFilter, values: Seq<u32>) -> Seq<u32> {
    filter.0@.map_values(|i: usize| values[i as int])
}

impl Frame {
    /// The values of the fields that `filter` keeps, in order.
    pub fn filtered(&self, filter: &AppliedFilter) -> (values: Vec<u32>)
        requires
            filter_fits(*filter, self.values()),
        ensures
            values@ == filtered_values(*filter, self.values()),
    {
        let mut values: Vec<u32> = Vec::new();
        let mut i: usize = 0;
        while i < filter.0.len()
            invariant
                i <= filter.0@.len(),
                filter_fits(*filter, self.values()),
                values@ == filtered_values(*filter, self.values()).take(i as int),
            decreases filter.0@.len() - i,
        {
            let k = filter.0[i];
            assert(k < self.values().len());
            values.push(self.raw[k]);
            proof {
                assert(values@ =~= filtered_values(*filter, self.values()).take(i + 1));
            }
            i += 1;
        }
        assert(filtered_values(*filter, self.values()).take(filter.0@.len() as int)
            =~= filtered_values(*filter, self.values()));
        values
    }
}

} // verus!
