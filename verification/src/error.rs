//! The error taxonomy of the pipeline.
//!
//! Every stage returns a typed error value rather than aborting; only
//! the caller decides fatality.  No stage swallows an error to
//! best-effort continue: a stale or incomplete artifact silently
//! shipped is worse than a hard stop.

use vstd::prelude::*;
use crate::artifact::ArtifactKind;

verus! {

/// A failure of the declaration translator.
#[derive(Debug, PartialEq, Eq)]
pub enum TranslateError {
    /// A header uses a foreign-type construct the translator cannot
    /// represent.  Identifies the header, the symbol being declared
    /// (empty when the construct appears before any symbol name could
    /// be read) and the unsupported construct itself.
    Unsupported { header: Vec<u8>, symbol: Vec<u8>, construct: Vec<u8> },
    /// A header's exported-symbol block does not follow the declaration
    /// grammar at all; `pos` is the byte offset of the first input the
    /// parser could not accept.
    Malformed { header: Vec<u8>, pos: usize },
    /// Two headers (or one header, twice) declare the same symbol name.
    /// Identifies both declaring headers; the translation never
    /// silently picks one signature.
    Ambiguous { symbol: Vec<u8>, first_header: Vec<u8>, second_header: Vec<u8> },
}

/// The mathematical model of a `TranslateError`.
pub enum TranslateErrView {
    Unsupported { header: Seq<u8>, symbol: Seq<u8>, construct: Seq<u8> },
    Malformed { header: Seq<u8>, pos: int },
    Ambiguous { symbol: Seq<u8>, first_header: Seq<u8>, second_header: Seq<u8> },
}

impl View for TranslateError {
    type V = TranslateErrView;

    open spec fn view(&self) -> TranslateErrView {
        match self {
            TranslateError::Unsupported { header, symbol, construct } => {
                TranslateErrView::Unsupported {
                    header: header@,
                    symbol: symbol@,
                    construct: construct@,
                }
            },
            TranslateError::Malformed { header, pos } => {
                TranslateErrView::Malformed { header: header@, pos: *pos as int }
            },
            TranslateError::Ambiguous { symbol, first_header, second_header } => {
                TranslateErrView::Ambiguous {
                    symbol: symbol@,
                    first_header: first_header@,
                    second_header: second_header@,
                }
            },
        }
    }
}

/// A failure of the whole pipeline, tagged by originating stage.
#[derive(Debug, PartialEq, Eq)]
pub enum BuildError {
    /// The external compiler could not be launched at all.
    ToolInvocation { message: Vec<u8> },
    /// The toolchain ran but reported failure; carries the implicated
    /// source (or object) file and the captured diagnostics verbatim.
    Compile { file: Vec<u8>, diagnostics: Vec<u8> },
    /// The declaration translator failed.
    Translate { inner: TranslateError },
    /// The requested link kind does not match what was actually
    /// produced; never silently substituted.
    LinkPolicy { requested: ArtifactKind, produced: ArtifactKind },
}

/// The mathematical model of a `BuildError`.
pub enum BuildErrView {
    ToolInvocation { message: Seq<u8> },
    Compile { file: Seq<u8>, diagnostics: Seq<u8> },
    Translate { inner: TranslateErrView },
    LinkPolicy { requested: ArtifactKind, produced: ArtifactKind },
}

impl View for BuildError {
    type V = BuildErrView;

    open spec fn view(&self) -> BuildErrView {
        match self {
            BuildError::ToolInvocation { message } => {
                BuildErrView::ToolInvocation { message: message@ }
            },
            BuildError::Compile { file, diagnostics } => {
                BuildErrView::Compile { file: file@, diagnostics: diagnostics@ }
            },
            BuildError::Translate { inner } => BuildErrView::Translate { inner: inner@ },
            BuildError::LinkPolicy { requested, produced } => {
                BuildErrView::LinkPolicy { requested: *requested, produced: *produced }
            },
        }
    }
}

/// The pipeline stage an error originated in, for diagnostic reports.
#[derive(Clone, Copy, PartialEq, Eq, Structural, Debug)]
pub enum Stage {
    Compiling,
    Linking,
    Translating,
}

/// The stage that produced `e`, so a caller can print an actionable
/// report without re-deriving context.
pub fn stage_of(e: &BuildError) -> (s: Stage)
    ensures
        s == spec_stage_of(e@),
{
    match e {
        BuildError::ToolInvocation { .. } => Stage::Compiling,
        BuildError::Compile { .. } => Stage::Compiling,
        BuildError::Translate { .. } => Stage::Translating,
        BuildError::LinkPolicy { .. } => Stage::Linking,
    }
}

/// The stage each error variant belongs to.
pub open spec fn spec_stage_of(e: BuildErrView) -> Stage {
    match e {
        BuildErrView::ToolInvocation { .. } => Stage::Compiling,
        BuildErrView::Compile { .. } => Stage::Compiling,
        BuildErrView::Translate { .. } => Stage::Translating,
        BuildErrView::LinkPolicy { .. } => Stage::Linking,
    }
}

} // verus!
