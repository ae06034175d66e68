//! The immutable description of one build unit and its flag policy.

use vstd::prelude::*;
use crate::artifact::ArtifactKind;
use crate::bytes::{bytes_eq, views};

verus! {

/// The compiler-flag policy applied uniformly to every compilation of
/// a build unit: compile-only, verbose diagnostics,
/// position-independent code, all warnings on and escalated to errors
/// — except for the warnings named here, whose escalation is
/// suppressed one by one.  Every entry must be individually justified
/// where the build unit is defined (the classic example: a library
/// that deliberately demonstrates a division-by-zero path).
pub struct FlagPolicy {
    pub allowed_warnings: Vec<Vec<u8>>,
}

impl View for FlagPolicy {
    type V = Seq<Seq<u8>>;

    open spec fn view(&self) -> Seq<Seq<u8>> {
        views(self.allowed_warnings@)
    }
}

/// Whether the policy suppresses the escalation of warning `w`.
pub open spec fn spec_allows(allowed: Seq<Seq<u8>>, w: Seq<u8>) -> bool {
    allowed.contains(w)
}

/// Whether warning `w` fails the build under policy `p`: exactly the
/// warnings not on the allow-list do.
pub fn warning_is_fatal(p: &FlagPolicy, w: &Vec<u8>) -> (r: bool)
    ensures
        r == !spec_allows(p@, w@),
{
    let mut i: usize = 0;
    while i < p.allowed_warnings.len()
        invariant
            i <= p.allowed_warnings@.len(),
            forall|k: int| 0 <= k < i ==> p@[k] != w@,
        decreases p.allowed_warnings@.len() - i,
    {
        if bytes_eq(&p.allowed_warnings[i], w) {
            proof {
                assert(p@[i as int] == w@);
            }
            return false;
        }
        i = i + 1;
    }
    proof {
        assert(!spec_allows(p@, w@)) by {
            if spec_allows(p@, w@) {
                let k = choose|k: int| 0 <= k < p@.len() && p@[k] == w@;
                assert(p@[k] != w@);
            }
        }
    }
    true
}

/// The immutable description of one build unit, created once per
/// invocation from caller input and never mutated: the ordered foreign
/// source files, the ordered headers whose exported symbols are to be
/// translated, the artifact base name, the output directory, the kind
/// of artifact to produce, the flag policy, and how link directives
/// are to be emitted.
pub struct BuildSpec {
    pub sources: Vec<Vec<u8>>,
    pub headers: Vec<Vec<u8>>,
    pub name: Vec<u8>,
    pub out_dir: Vec<u8>,
    pub kind: ArtifactKind,
    pub policy: FlagPolicy,
    /// Auxiliary search roots emitted after the native-specific root,
    /// so the consumer's resolution order matches intent.
    pub aux_search_roots: Vec<Vec<u8>>,
    /// Whether the consumer may fall back to the best available link
    /// kind; when false only the kind actually produced is offered.
    pub allow_any_link_kind: bool,
}

/// The mathematical model of a `BuildSpec`.
pub struct BuildSpecView {
    pub sources: Seq<Seq<u8>>,
    pub headers: Seq<Seq<u8>>,
    pub name: Seq<u8>,
    pub out_dir: Seq<u8>,
    pub kind: ArtifactKind,
    pub allowed_warnings: Seq<Seq<u8>>,
    pub aux_search_roots: Seq<Seq<u8>>,
    pub allow_any_link_kind: bool,
}

impl View for BuildSpec {
    type V = BuildSpecView;

    open spec fn view(&self) -> BuildSpecView {
        BuildSpecView {
            sources: views(self.sources@),
            headers: views(self.headers@),
            name: self.name@,
            out_dir: self.out_dir@,
            kind: self.kind,
            allowed_warnings: self.policy@,
            aux_search_roots: views(self.aux_search_roots@),
            allow_any_link_kind: self.allow_any_link_kind,
        }
    }
}

impl BuildSpecView {
    /// A build unit must name at least one source file and a non-empty
    /// artifact name.
    pub open spec fn wf(self) -> bool {
        self.sources.len() > 0 && self.name.len() > 0
    }
}

impl BuildSpec {
    /// Whether this build unit is well formed.
    pub fn is_well_formed(&self) -> (r: bool)
        ensures
            r == self@.wf(),
    {
        self.sources.len() > 0 && self.name.len() > 0
    }
}

/// The rebuild fingerprint of one intermediate object file: a content
/// hash of its source file and one of every header it drags in, as
/// computed by the caller.  An object may only be reused when the
/// fingerprint covers both the source and all headers — a fingerprint
/// of the source alone lets stale bindings silently ship.
pub struct Fingerprint {
    pub source: u64,
    pub headers: Vec<u64>,
}

/// The mathematical model of a `Fingerprint`.
pub struct FingerprintView {
    pub source: u64,
    pub headers: Seq<u64>,
}

impl View for Fingerprint {
    type V = FingerprintView;

    open spec fn view(&self) -> FingerprintView {
        FingerprintView { source: self.source, headers: self.headers@ }
    }
}

/// Whether an existing object file may be reused instead of
/// re-invoking the compiler: only when the recorded fingerprint and
/// the current one agree on the source hash and on every header hash.
pub fn object_reusable(recorded: &Fingerprint, current: &Fingerprint) -> (r: bool)
    ensures
        r == (recorded@ == current@),
{
    if recorded.source != current.source {
        return false;
    }
    if recorded.headers.len() != current.headers.len() {
        proof {
            assert(recorded@.headers.len() != current@.headers.len());
        }
        return false;
    }
    let mut i: usize = 0;
    while i < recorded.headers.len()
        invariant
            i <= recorded.headers@.len(),
            recorded.headers@.len() == current.headers@.len(),
            recorded.source == current.source,
            forall|k: int| 0 <= k < i ==> recorded.headers@[k] == current.headers@[k],
        decreases recorded.headers@.len() - i,
    {
        if recorded.headers[i] != current.headers[i] {
            return false;
        }
        i = i + 1;
    }
    proof {
        assert(recorded.headers@ =~= current.headers@);
    }
    true
}

} // verus!
