//! The laws the pipeline obeys, stated and proved once over the spec
//! functions that every executable contract is pinned to.

use vstd::prelude::*;
use crate::artifact::{ArtifactKind, ArtifactView};
use crate::config::BuildSpecView;
use crate::decl::{DeclView, HeaderView};
use crate::emit::{DirectiveView, kind_directive, spec_emit};
use crate::error::BuildError;
use crate::pipeline::{Phase, Pipeline};
use crate::render::decls_text;
use crate::toolchain::{spec_policy_flags, suppression_flag, no_error_prefix, flag_compile_only,
    flag_verbose, flag_pic, flag_all_warnings, flag_warnings_as_errors};
use crate::config::spec_allows;
use crate::translate::{spec_translate, spec_merge, spec_add_decls, spec_find_name,
    lemma_find_name_none};

verus! {

/// Emitted link directives never claim a kind the artifact compiler
/// did not actually produce: on success, the one link-kind directive
/// is the artifact's actual kind, and no directive of the other kind
/// appears anywhere in the set.
pub proof fn lemma_emitted_kind_matches_artifact(a: ArtifactView, b: BuildSpecView)
    ensures
        spec_emit(a, b) matches Ok(ds) ==> {
            &&& ds[1 + b.aux_search_roots.len() as int] == kind_directive(a.kind, b.name)
            &&& forall|k: int|
                0 <= k < ds.len() ==> (((#[trigger] ds[k]) matches DirectiveView::LinkStatic {
                    ..
                } ==> a.kind == ArtifactKind::Static) && (ds[k]
                    matches DirectiveView::LinkDynamic { .. } ==> a.kind
                    == ArtifactKind::Dynamic))
        },
{
    if spec_emit(a, b) is Ok {
        let ds = spec_emit(a, b)->Ok_0;
        let n = b.aux_search_roots.len() as int;
        let roots = b.aux_search_roots.map_values(
            |p: Seq<u8>| DirectiveView::Search { path: p },
        );
        assert(roots.len() == n);
        assert(ds[1 + n] == kind_directive(a.kind, b.name));
        assert forall|k: int|
            0 <= k < ds.len() implies (((#[trigger] ds[k]) matches DirectiveView::LinkStatic {
            ..
        } ==> a.kind == ArtifactKind::Static) && (ds[k] matches DirectiveView::LinkDynamic {
            ..
        } ==> a.kind == ArtifactKind::Dynamic)) by {
            if k == 0 {
                assert(ds[k] == (DirectiveView::SearchNative { path: b.out_dir }));
            } else if k < 1 + n {
                assert(ds[k] == roots[k - 1]);
                assert(roots[k - 1] == (DirectiveView::Search { path: b.aux_search_roots[k - 1] }));
            } else if k == 1 + n {
                assert(ds[k] == kind_directive(a.kind, b.name));
            } else {
                assert(ds[k] == (DirectiveView::LinkAny { name: b.name }));
            }
        }
    }
}

/// End to end: once a pipeline has compiled and computed directives,
/// every link-kind directive it registered matches the kind of the
/// artifact that was actually produced — never the other kind.
pub proof fn lemma_pipeline_directives_match_artifact(p: Pipeline)
    requires
        p.wf(),
        p.phase == Phase::Translating || p.phase == Phase::Done,
    ensures
        p.artifact matches Some(a) && p.directives matches Some(v) && (forall|k: int|
            0 <= k < crate::emit::directive_views(v@).len()
                ==> (((#[trigger] crate::emit::directive_views(v@)[k])
                    matches DirectiveView::LinkStatic { .. } ==> a@.kind == ArtifactKind::Static)
                    && (crate::emit::directive_views(v@)[k] matches DirectiveView::LinkDynamic {
                    ..
                } ==> a@.kind == ArtifactKind::Dynamic))),
{
    let a = crate::pipeline::spec_artifact(p.build@);
    lemma_emitted_kind_matches_artifact(a, p.build@);
}

/// Translation, and with it the generated-declarations output, is
/// deterministic: the same header set always translates to the same
/// declaration set, and renders to byte-identical output.
pub proof fn lemma_generated_declarations_deterministic(h1: Seq<HeaderView>, h2: Seq<HeaderView>)
    requires
        h1 == h2,
    ensures
        spec_translate(h1) == spec_translate(h2),
        spec_translate(h1) matches Ok(ds) ==> spec_translate(h2) matches Ok(ds2) && decls_text(ds)
            == decls_text(ds2),
{
}

/// Accumulated declarations with pairwise-distinct symbol names.
pub open spec fn names_unique(ps: Seq<(DeclView, Seq<u8>)>) -> bool {
    forall|i: int, j: int| 0 <= i < j < ps.len() ==> ps[i].0.name != ps[j].0.name
}

proof fn lemma_find_name_none_converse(ds: Seq<(DeclView, Seq<u8>)>, name: Seq<u8>)
    requires
        spec_find_name(ds, name) is None,
    ensures
        forall|k: int| 0 <= k < ds.len() ==> ds[k].0.name != name,
    decreases ds.len(),
{
    if ds.len() > 0 {
        lemma_find_name_none_converse(ds.drop_first(), name);
        assert forall|k: int| 0 <= k < ds.len() implies ds[k].0.name != name by {
            if k > 0 {
                assert(ds.drop_first()[k - 1] == ds[k]);
            }
        }
    }
}

proof fn lemma_add_decls_unique(acc: Seq<(DeclView, Seq<u8>)>, ds: Seq<DeclView>, path: Seq<u8>)
    requires
        names_unique(acc),
    ensures
        spec_add_decls(acc, ds, path) matches Ok(r) ==> names_unique(r),
    decreases ds.len(),
{
    if ds.len() > 0 {
        match spec_find_name(acc, ds[0].name) {
            Some(_) => {},
            None => {
                lemma_find_name_none_converse(acc, ds[0].name);
                let acc2 = acc.push((ds[0], path));
                assert(names_unique(acc2)) by {
                    assert forall|i: int, j: int|
                        0 <= i < j < acc2.len() implies acc2[i].0.name != acc2[j].0.name by {
                        if j < acc.len() {
                            assert(acc2[i] == acc[i] && acc2[j] == acc[j]);
                        } else {
                            assert(acc2[i] == acc[i] && acc2[j] == (ds[0], path));
                        }
                    }
                }
                lemma_add_decls_unique(acc2, ds.drop_first(), path);
            },
        }
    }
}

proof fn lemma_merge_unique(acc: Seq<(DeclView, Seq<u8>)>, hs: Seq<HeaderView>)
    requires
        names_unique(acc),
    ensures
        spec_merge(acc, hs) matches Ok(r) ==> names_unique(r),
    decreases hs.len(),
{
    if hs.len() > 0 {
        match crate::parse::spec_parse_header(hs[0].text) {
            Ok(ds) => {
                lemma_add_decls_unique(acc, ds, hs[0].path);
                match spec_add_decls(acc, ds, hs[0].path) {
                    Ok(acc2) => {
                        lemma_merge_unique(acc2, hs.drop_first());
                    },
                    Err(_) => {},
                }
            },
            Err(_) => {},
        }
    }
}

/// A successful translation never carries two declarations of the same
/// symbol name: a duplicate across the processed headers is always the
/// hard `Ambiguous` error, never a silently-chosen signature.
pub proof fn lemma_translated_names_unique(hs: Seq<HeaderView>)
    ensures
        spec_translate(hs) matches Ok(ds) ==> forall|i: int, j: int|
            0 <= i < j < ds.len() ==> ds[i].name != ds[j].name,
{
    let empty = Seq::<(DeclView, Seq<u8>)>::empty();
    assert(names_unique(empty));
    lemma_merge_unique(empty, hs);
    if spec_translate(hs) is Ok {
        let merged = spec_merge(empty, hs)->Ok_0;
        let ds = spec_translate(hs)->Ok_0;
        assert forall|i: int, j: int|
            0 <= i < j < ds.len() implies ds[i].name != ds[j].name by {
            assert(ds[i] == merged[i].0);
            assert(ds[j] == merged[j].0);
        }
    }
}

/// A pipeline whose compilation failed — the toolchain could not be
/// launched, or an invocation exited non-zero — registers nothing: no
/// artifact and no link directives exist, whatever intermediate files
/// the toolchain may have left on disk.
pub proof fn lemma_compile_failure_registers_no_artifact(p: Pipeline)
    requires
        p.wf(),
        p.phase == Phase::Failed,
        p.error matches Some(e) && (e matches BuildError::Compile { .. } || e
            matches BuildError::ToolInvocation { .. }),
    ensures
        p.artifact is None,
        p.directives is None,
{
}

/// Declarations never exist without successfully parsed headers: a
/// pipeline holds a declaration set only once every stage before it
/// succeeded and the whole header set translated cleanly.
pub proof fn lemma_decls_only_from_parsed_headers(p: Pipeline)
    requires
        p.wf(),
        p.decls is Some,
    ensures
        p.phase == Phase::Done,
        spec_translate(p.translated_from@) is Ok,
        p.artifact is Some,
{
}

/// The compiled flag list suppresses the escalation of exactly the
/// allow-listed warnings, and always carries the all-warnings and
/// warnings-as-errors flags: a listed warning cannot fail the build,
/// an unlisted one must.
pub proof fn lemma_policy_flags_exact(allowed: Seq<Seq<u8>>, w: Seq<u8>)
    ensures
        spec_policy_flags(allowed).contains(suppression_flag(w)) <==> spec_allows(allowed, w),
        spec_policy_flags(allowed).contains(flag_all_warnings()),
        spec_policy_flags(allowed).contains(flag_warnings_as_errors()),
{
    let flags = spec_policy_flags(allowed);
    let sup = allowed.map_values(|x: Seq<u8>| suppression_flag(x));
    assert(flags[3] == flag_all_warnings());
    assert(flags[4] == flag_warnings_as_errors());
    if spec_allows(allowed, w) {
        let i = choose|i: int| 0 <= i < allowed.len() && allowed[i] == w;
        assert(sup[i] == suppression_flag(w));
        assert(flags[5 + i] == suppression_flag(w));
    }
    if flags.contains(suppression_flag(w)) {
        let k = choose|k: int| 0 <= k < flags.len() && flags[k] == suppression_flag(w);
        assert(suppression_flag(w).len() == 11 + w.len());
        if k == 0 {
            assert(flags[k] == flag_compile_only());
            assert(false);
        } else if k == 1 {
            assert(flags[k] == flag_verbose());
            assert(false);
        } else if k == 2 {
            assert(flags[k] == flag_pic());
            assert(false);
        } else if k == 3 {
            assert(flags[k] == flag_all_warnings());
            assert(false);
        } else if k == 4 {
            assert(flags[k] == flag_warnings_as_errors());
            assert(false);
        } else {
            let w2 = allowed[k - 5];
            assert(flags[k] == sup[k - 5]);
            assert(sup[k - 5] == suppression_flag(w2));
            assert(w2 =~= w) by {
                assert(suppression_flag(w2).len() == suppression_flag(w).len());
                assert forall|q: int| 0 <= q < w.len() implies w2[q] == w[q] by {
                    assert((no_error_prefix() + w2)[11 + q] == w2[q]);
                    assert((no_error_prefix() + w)[11 + q] == w[q]);
                }
            }
            assert(allowed[k - 5] == w);
            assert(spec_allows(allowed, w));
        }
    }
}

} // verus!
