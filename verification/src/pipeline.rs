//! The orchestrator.
//!
//! A `Pipeline` value drives one build unit through its stages in
//! strict order — compiling, link-directive computation, declaration
//! translation — with a single terminal failed state reachable from
//! any of them.  No stage starts before its predecessor succeeded,
//! because later stages assume earlier outputs exist on disk.
//!
//! Launching the compiler is outside the library: while the pipeline
//! is compiling, the caller asks `next_request` what to run, runs it,
//! and hands the outcome to `on_result`; every decision in between is
//! made and verified here.  On failure the originating error is
//! surfaced unmodified, nothing further is produced, and — above all —
//! an artifact whose compilation failed is never registered in the
//! link directives.

use vstd::prelude::*;
use crate::artifact::{Artifact, ArtifactKind, ArtifactView};
use crate::bytes::{copy_bytes, views};
use crate::config::{BuildSpec, BuildSpecView};
use crate::decl::{Declaration, HeaderFile, HeaderView, header_views, decl_views};
use crate::emit::{LinkDirective, directive_views, emit, spec_emit};
use crate::error::{BuildError, BuildErrView, TranslateError};
use crate::toolchain::{
    ToolchainRequest, ToolchainResult, ToolchainResultView, spec_object_request, spec_link_request,
    spec_artifact_path, artifact_path_of, object_request, link_request,
};
use crate::translate::{translate, spec_translate};

verus! {

/// The stage a pipeline is in.  The first four advance strictly in
/// order; `Failed` is terminal and reachable from any of them.
#[derive(Clone, Copy, PartialEq, Eq, Structural, Debug)]
pub enum Phase {
    /// Created, not yet started.
    Init,
    /// Consuming toolchain results, one per planned invocation.
    Compiling,
    /// Every invocation succeeded; link directives not yet computed.
    Linking,
    /// Link directives computed; headers not yet translated.
    Translating,
    /// Everything produced.
    Done,
    /// Terminal; the originating error is kept unmodified.
    Failed,
}

/// The artifact the build unit is owed on success.
pub open spec fn spec_artifact(b: BuildSpecView) -> ArtifactView {
    ArtifactView { path: spec_artifact_path(b), kind: b.kind }
}

/// The file a failing invocation implicates: the source being
/// compiled, or the artifact being linked.
pub open spec fn spec_current_input(b: BuildSpecView, compiled: int) -> Seq<u8> {
    if compiled < b.sources.len() {
        b.sources[compiled]
    } else {
        spec_artifact_path(b)
    }
}

/// Whether the header files handed to translation are exactly the
/// build unit's declared headers, in order.
pub open spec fn headers_match(hs: Seq<HeaderView>, paths: Seq<Seq<u8>>) -> bool {
    hs.map_values(|h: HeaderView| h.path) == paths
}

/// One build-unit run.
pub struct Pipeline {
    /// The immutable description this run works off.
    pub build: BuildSpec,
    pub phase: Phase,
    /// How many sources have been compiled to objects so far.
    pub compiled: usize,
    pub artifact: Option<Artifact>,
    pub directives: Option<Vec<LinkDirective>>,
    pub decls: Option<Vec<Declaration>>,
    pub error: Option<BuildError>,
    /// Which headers the translating stage was given; records what the
    /// declaration output is a function of.
    pub translated_from: Ghost<Seq<HeaderView>>,
}

impl Pipeline {
    /// The pipeline's invariant.  Chiefly: outputs exist exactly from
    /// the stage that produced them on, each pinned to its defining
    /// function of the build unit; and a compilation failure leaves no
    /// artifact and no directives behind.
    pub open spec fn wf(self) -> bool {
        &&& self.build@.wf()
        &&& self.compiled <= self.build@.sources.len()
        &&& match self.phase {
            Phase::Init => {
                &&& self.compiled == 0
                &&& self.artifact is None
                &&& self.directives is None
                &&& self.decls is None
                &&& self.error is None
            },
            Phase::Compiling => {
                &&& self.artifact is None
                &&& self.directives is None
                &&& self.decls is None
                &&& self.error is None
            },
            Phase::Linking => {
                &&& self.compiled == self.build@.sources.len()
                &&& self.artifact matches Some(a) && a@ == spec_artifact(self.build@)
                &&& self.directives is None
                &&& self.decls is None
                &&& self.error is None
            },
            Phase::Translating => {
                &&& self.compiled == self.build@.sources.len()
                &&& self.artifact matches Some(a) && a@ == spec_artifact(self.build@)
                &&& self.directives matches Some(ds) && Ok::<_, BuildErrView>(
                    directive_views(ds@),
                ) == spec_emit(spec_artifact(self.build@), self.build@)
                &&& self.decls is None
                &&& self.error is None
            },
            Phase::Done => {
                &&& self.compiled == self.build@.sources.len()
                &&& self.artifact matches Some(a) && a@ == spec_artifact(self.build@)
                &&& self.directives matches Some(ds) && Ok::<_, BuildErrView>(
                    directive_views(ds@),
                ) == spec_emit(spec_artifact(self.build@), self.build@)
                &&& self.decls matches Some(ds) && Ok::<_, crate::error::TranslateErrView>(
                    decl_views(ds@),
                ) == spec_translate(self.translated_from@)
                &&& self.error is None
            },
            Phase::Failed => {
                &&& self.error matches Some(e) && (match e {
                    BuildError::ToolInvocation { .. } => {
                        &&& self.artifact is None
                        &&& self.directives is None
                        &&& self.decls is None
                    },
                    BuildError::Compile { .. } => {
                        &&& self.artifact is None
                        &&& self.directives is None
                        &&& self.decls is None
                    },
                    BuildError::LinkPolicy { .. } => {
                        &&& self.directives is None
                        &&& self.decls is None
                    },
                    BuildError::Translate { .. } => self.decls is None,
                })
            },
        }
    }

    /// A new pipeline for one well-formed build unit.
    pub fn new(build: BuildSpec) -> (p: Pipeline)
        requires
            build@.wf(),
        ensures
            p.wf(),
            p.phase == Phase::Init,
            p.build == build,
    {
        Pipeline {
            build,
            phase: Phase::Init,
            compiled: 0,
            artifact: None,
            directives: None,
            decls: None,
            error: None,
            translated_from: Ghost(Seq::empty()),
        }
    }

    /// Starts the compiling stage.
    pub fn start(&mut self)
        requires
            old(self).wf(),
            old(self).phase == Phase::Init,
        ensures
            final(self).wf(),
            final(self).phase == Phase::Compiling,
            final(self).build == old(self).build,
            final(self).compiled == 0,
    {
        self.phase = Phase::Compiling;
    }

    /// The invocation to run next: one request per source file, in
    /// order, then the single request that produces the artifact.
    pub fn next_request(&self) -> (r: ToolchainRequest)
        requires
            self.wf(),
            self.phase == Phase::Compiling,
        ensures
            (if self.compiled < self.build@.sources.len() {
                r@ == spec_object_request(self.build@, self.compiled as int)
            } else {
                r@ == spec_link_request(self.build@)
            }),
    {
        if self.compiled < self.build.sources.len() {
            object_request(&self.build, self.compiled)
        } else {
            link_request(&self.build)
        }
    }

    /// Consumes the outcome of the invocation `next_request` asked
    /// for.  Success advances; any failure is terminal, surfaces the
    /// diagnostics verbatim, and registers no artifact.  When the last
    /// invocation succeeds the artifact exists and the pipeline moves
    /// on to link-directive computation.
    pub fn on_result(&mut self, r: ToolchainResult)
        requires
            old(self).wf(),
            old(self).phase == Phase::Compiling,
        ensures
            final(self).wf(),
            final(self).build == old(self).build,
            (match r@ {
                ToolchainResultView::NotLaunched { message } => {
                    &&& final(self).phase == Phase::Failed
                    &&& final(self).error matches Some(e) && e@ == (BuildErrView::ToolInvocation {
                        message,
                    })
                    &&& final(self).artifact is None
                    &&& final(self).directives is None
                },
                ToolchainResultView::Ran { status, diagnostics } => {
                    if status != 0 {
                        &&& final(self).phase == Phase::Failed
                        &&& final(self).error matches Some(e) && e@ == (BuildErrView::Compile {
                            file: spec_current_input(old(self).build@, old(self).compiled as int),
                            diagnostics,
                        })
                        &&& final(self).artifact is None
                        &&& final(self).directives is None
                    } else if old(self).compiled < old(self).build@.sources.len() {
                        &&& final(self).phase == Phase::Compiling
                        &&& final(self).compiled == old(self).compiled + 1
                    } else {
                        &&& final(self).phase == Phase::Linking
                        &&& final(self).artifact matches Some(a) && a@ == spec_artifact(
                            old(self).build@,
                        )
                    }
                },
            }),
    {
        match r {
            ToolchainResult::NotLaunched { message } => {
                self.error = Some(BuildError::ToolInvocation { message });
                self.phase = Phase::Failed;
            },
            ToolchainResult::Ran { status, diagnostics } => {
                if status != 0 {
                    let file = if self.compiled < self.build.sources.len() {
                        copy_bytes(&self.build.sources[self.compiled])
                    } else {
                        artifact_path_of(&self.build)
                    };
                    self.error = Some(BuildError::Compile { file, diagnostics });
                    self.phase = Phase::Failed;
                } else if self.compiled < self.build.sources.len() {
                    self.compiled = self.compiled + 1;
                } else {
                    let path = artifact_path_of(&self.build);
                    self.artifact = Some(Artifact { path, kind: self.build.kind });
                    self.phase = Phase::Linking;
                }
            },
        }
    }

    /// Computes the link directives for the produced artifact and
    /// moves on to translation; a link-kind mismatch is terminal.
    pub fn compute_directives(&mut self)
        requires
            old(self).wf(),
            old(self).phase == Phase::Linking,
        ensures
            final(self).wf(),
            final(self).build == old(self).build,
            (match spec_emit(spec_artifact(old(self).build@), old(self).build@) {
                Ok(ds) => {
                    &&& final(self).phase == Phase::Translating
                    &&& final(self).directives matches Some(v) && directive_views(v@) == ds
                },
                Err(e) => {
                    &&& final(self).phase == Phase::Failed
                    &&& final(self).error matches Some(err) && err@ == e
                },
            }),
    {
        let r = match &self.artifact {
            Some(a) => emit(a, &self.build),
            None => {
                proof {
                    assert(false);
                }
                Err(BuildError::LinkPolicy { requested: self.build.kind, produced: self.build.kind })
            },
        };
        match r {
            Ok(ds) => {
                self.directives = Some(ds);
                self.phase = Phase::Translating;
            },
            Err(e) => {
                self.error = Some(e);
                self.phase = Phase::Failed;
            },
        }
    }

    /// Translates the build unit's headers, handed in as read by the
    /// caller — the paths must be exactly the declared ones, in order.
    /// Success completes the pipeline; a translation failure is
    /// terminal and surfaces the translator's error unmodified.
    pub fn translate_headers(&mut self, headers: &Vec<HeaderFile>)
        requires
            old(self).wf(),
            old(self).phase == Phase::Translating,
            headers_match(header_views(headers@), old(self).build@.headers),
        ensures
            final(self).wf(),
            final(self).build == old(self).build,
            final(self).translated_from@ == header_views(headers@),
            (match spec_translate(header_views(headers@)) {
                Ok(ds) => {
                    &&& final(self).phase == Phase::Done
                    &&& final(self).decls matches Some(v) && decl_views(v@) == ds
                },
                Err(e) => {
                    &&& final(self).phase == Phase::Failed
                    &&& final(self).error matches Some(err) && err@ == (BuildErrView::Translate {
                        inner: e,
                    })
                },
            }),
    {
        self.translated_from = Ghost(header_views(headers@));
        match translate(headers) {
            Ok(ds) => {
                self.decls = Some(ds);
                self.phase = Phase::Done;
            },
            Err(e) => {
                self.error = Some(BuildError::Translate { inner: e });
                self.phase = Phase::Failed;
            },
        }
    }

    /// The computed link directives, available once the pipeline has
    /// passed the link stage.
    pub fn link_directives(&self) -> (r: &Vec<LinkDirective>)
        requires
            self.wf(),
            self.phase == Phase::Translating || self.phase == Phase::Done,
        ensures
            Ok::<_, BuildErrView>(directive_views(r@)) == spec_emit(
                spec_artifact(self.build@),
                self.build@,
            ),
    {
        self.directives.as_ref().unwrap()
    }

    /// The generated-declarations output of a completed run: the
    /// rendered translation, fully regenerated, a pure function of the
    /// headers that were handed in.
    pub fn generated_output(&self) -> (r: Vec<u8>)
        requires
            self.wf(),
            self.phase == Phase::Done,
        ensures
            (spec_translate(self.translated_from@) matches Ok(ds) && r@
                == crate::render::decls_text(ds)),
    {
        match &self.decls {
            Some(ds) => crate::render::render_decls(ds),
            None => {
                proof {
                    assert(false);
                }
                Vec::new()
            },
        }
    }

    /// The source and header paths that participated, in order: the
    /// caller's incremental-build layer should register rerun watches
    /// on exactly these paths, nothing broader.  The pipeline itself
    /// keeps no change-detection state between invocations.
    pub fn watch_paths(&self) -> (r: Vec<Vec<u8>>)
        ensures
            views(r@) == self.build@.sources + self.build@.headers,
    {
        let mut r: Vec<Vec<u8>> = Vec::new();
        let mut i: usize = 0;
        proof {
            assert(views(r@) =~= self.build@.sources.subrange(0, 0));
        }
        while i < self.build.sources.len()
            invariant
                i <= self.build.sources@.len(),
                views(r@) == self.build@.sources.subrange(0, i as int),
            decreases self.build.sources@.len() - i,
        {
            let c = copy_bytes(&self.build.sources[i]);
            let ghost cv = c@;
            let ghost before = r@;
            r.push(c);
            proof {
                assert(cv == self.build@.sources[i as int]);
                assert forall|k: int| 0 <= k < before.len() implies views(r@)[k] == views(
                    before,
                )[k] by {
                    assert(r@[k] == before[k]);
                }
                assert(views(before).len() == before.len());
                assert(views(r@).len() == r@.len());
                assert(views(r@)[i as int] == cv);
                assert(views(r@) =~= self.build@.sources.subrange(0, i as int + 1));
            }
            i = i + 1;
        }
        proof {
            assert(self.build@.sources.subrange(0, i as int) =~= self.build@.sources);
        }
        let mut j: usize = 0;
        proof {
            assert(views(r@) =~= self.build@.sources + self.build@.headers.subrange(0, 0));
        }
        while j < self.build.headers.len()
            invariant
                j <= self.build.headers@.len(),
                views(r@) == self.build@.sources + self.build@.headers.subrange(0, j as int),
            decreases self.build.headers@.len() - j,
        {
            let c = copy_bytes(&self.build.headers[j]);
            let ghost cv = c@;
            let ghost before = r@;
            r.push(c);
            proof {
                assert(cv == self.build@.headers[j as int]);
                assert forall|k: int| 0 <= k < before.len() implies views(r@)[k] == views(
                    before,
                )[k] by {
                    assert(r@[k] == before[k]);
                }
                assert(views(before).len() == before.len());
                assert(views(r@).len() == r@.len());
                assert(views(r@)[before.len() as int] == cv);
                let ghost target = self.build@.sources + self.build@.headers.subrange(
                    0,
                    j as int + 1,
                );
                let ghost ns = self.build@.sources.len() as int;
                assert forall|k: int| 0 <= k < views(r@).len() implies views(r@)[k]
                    == target[k] by {
                    if k < before.len() {
                        assert(views(r@)[k] == views(before)[k]);
                        if k >= ns {
                            assert(self.build@.headers.subrange(0, j as int)[k - ns]
                                == self.build@.headers[k - ns]);
                            assert(target[k] == self.build@.headers[k - ns]);
                        }
                    } else {
                        assert(views(r@)[k] == cv);
                        assert(target[k] == self.build@.headers[j as int]);
                    }
                }
                assert(views(r@) =~= target);
            }
            j = j + 1;
        }
        proof {
            assert(self.build@.headers.subrange(0, j as int) =~= self.build@.headers);
        }
        r
    }
}

} // verus!
