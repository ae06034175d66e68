//! The compiled artifact and its kind.

use vstd::prelude::*;

verus! {

/// The kind of binary artifact one build unit produces: a static
/// archive or a dynamic (shared) object.
#[derive(Clone, Copy, PartialEq, Eq, Structural, Debug)]
pub enum ArtifactKind {
    Static,
    Dynamic,
}

/// The compiled binary at a known path, tagged with the kind that was
/// actually produced.  An `Artifact` value exists only after the
/// toolchain reported success for every invocation that fed it.
#[derive(Debug, PartialEq, Eq)]
pub struct Artifact {
    pub path: Vec<u8>,
    pub kind: ArtifactKind,
}

/// The mathematical model of an `Artifact`.
pub struct ArtifactView {
    pub path: Seq<u8>,
    pub kind: ArtifactKind,
}

impl View for Artifact {
    type V = ArtifactView;

    open spec fn view(&self) -> ArtifactView {
        ArtifactView { path: self.path@, kind: self.kind }
    }
}

} // verus!
