//! Everything the data section needs from the headers.

use vstd::prelude::*;

use crate::frame_defs::{
    builders_updated, def_header_parts, defs_built, lemma_defs_built_unique, same_defs, frame_kind_of, frame_property_of, BuildError as DefsBuildError,
    FrameDefBuilders, FrameDefs, ParseError as DefsParseError,
};
use crate::predictor::{context_update, PredictorContextV2};
use crate::text::{string_text, text};

verus! {

/// The frame definitions and the predictor context of a log.
#[derive(Debug, Clone)]
pub struct Context<'data> {
    pub frames: FrameDefs<'data>,
    pub predictor: PredictorContextV2,
}

/// Why a header could not be taken in.
#[derive(Debug, Clone)]
pub enum Error {
    /// A header that predictors need holds a value that cannot be read.
    InvalidValue,
    /// A frame definition header is malformed.
    FrameDefs(DefsParseError),
}

/// Why the context could not be built.
#[derive(Debug, Clone, Copy, PartialEq, Eq)]
pub enum BuildError {
    /// The frame definitions could not be built.
    FrameDefs(DefsBuildError),
}

/// Collects the headers a context is built from.
#[derive(Debug, Clone, Copy)]
pub struct Builder<'data> {
    pub frames: FrameDefBuilders<'data>,
    pub predictor: PredictorContextV2,
}

/// Whether `res` is what building a context from `b` comes to: the frame
/// definitions built from its frame definition headers, with its predictor
/// context, or the error of building them.
pub open spec fn context_built<'data>(b: Builder<'data>, res: Result<Context<'data>, BuildError>) -> bool {
    match res {
        Ok(ctx) => defs_built(b.frames, Ok(ctx.frames)) && ctx.predictor == b.predictor,
        Err(BuildError::FrameDefs(e)) => defs_built(b.frames, Err(e)),
    }
}

/// Building a context succeeds exactly when building its frame definitions
/// alone does, with definitions that agree field by field and the builder's
/// predictor context; else it fails with the same error.
pub proof fn lemma_context_built_agrees<'data>(
    b: Builder<'data>,
    res: Result<Context<'data>, BuildError>,
    defs: Result<FrameDefs<'data>, DefsBuildError>,
)
    requires
        context_built(b, res),
        defs_built(b.frames, defs),
    ensures
        res is Ok <==> defs is Ok,
        res matches Ok(ctx) ==> same_defs(ctx.frames, defs->Ok_0) && ctx.predictor == b.predictor,
        res matches Err(BuildError::FrameDefs(e)) ==> defs == Err::<FrameDefs<'data>, DefsBuildError>(e),
{
    match res {
        Ok(ctx) => lemma_defs_built_unique(b.frames, Ok(ctx.frames), defs),
        Err(BuildError::FrameDefs(e)) => lemma_defs_built_unique(b.frames, Err(e), defs),
    }
}

impl<'data> Context<'data> {
    /// A builder that has seen no header.
    pub fn builder() -> (b: Builder<'data>)
        ensures
            b.frames.main.values() == seq![None::<&'data str>, None, None, None, None, None],
            b.frames.slow.0.values() == seq![None::<&'data str>, None, None, None],
            b.frames.gps.0.values() == seq![None::<&'data str>, None, None, None],
            b.frames.gps_home.0.values() == seq![None::<&'data str>, None, None, None],
            b.predictor == PredictorContextV2::new_spec(),
    {
        Builder { frames: FrameDefBuilders::new(), predictor: PredictorContextV2::new() }
    }
}

impl<'data> Builder<'data> {
    /// Takes in a header line. A malformed frame definition header is
    /// reported first; then a value that predictors need and cannot read.
    pub fn update(&mut self, header: &str, value: &'data str) -> (res: Result<(), Error>)
        ensures
            match def_header_parts(text(header)) {
                None => final(self).frames == old(self).frames,
                Some((kind, property)) => match (frame_kind_of(kind), frame_property_of(property)) {
                    (None, _) => res matches Err(Error::FrameDefs(DefsParseError::InvalidFrameType(s)))
                        && string_text(&s) == kind && final(self).frames == old(self).frames,
                    (Some(_), None) => res matches Err(
                        Error::FrameDefs(DefsParseError::InvalidFrameProperty(s)),
                    ) && string_text(&s) == property && final(self).frames == old(self).frames,
                    (Some(k), Some(p)) => final(self).frames == builders_updated(
                        old(self).frames,
                        k,
                        p,
                        value,
                    ),
                },
            },
            (match def_header_parts(text(header)) {
                Some((kind, property)) => frame_kind_of(kind) is None || frame_property_of(
                    property,
                ) is None,
                None => false,
            }) ==> (res matches Err(Error::FrameDefs(_)) && final(self).predictor == old(
                self,
            ).predictor),
            !(match def_header_parts(text(header)) {
                Some((kind, property)) => frame_kind_of(kind) is None || frame_property_of(
                    property,
                ) is None,
                None => false,
            }) ==> match context_update(old(self).predictor, text(header), text(value)) {
                Some(ctx) => res is Ok && final(self).predictor == ctx,
                None => res matches Err(Error::InvalidValue) && final(self).predictor == old(
                    self,
                ).predictor,
            },
    {
        match self.frames.update(header, value) {
            Ok(()) => {},
            Err(e) => return Err(Error::FrameDefs(e)),
        }
        match self.predictor.update(header, value) {
            Ok(()) => Ok(()),
            Err(()) => Err(Error::InvalidValue),
        }
    }

    /// Builds the context from the headers taken in.
    pub fn build(self) -> (res: Result<Context<'data>, BuildError>)
        ensures
            context_built(self, res),
    {
        match self.frames.build() {
            Ok(frames) => Ok(Context { frames, predictor: self.predictor }),
            Err(e) => Err(BuildError::FrameDefs(e)),
        }
    }
}

} // verus!
