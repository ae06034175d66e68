//! The link-directive emitter.
//!
//! Given the artifact that was actually produced, `emit` computes the
//! ordered directives the consuming build must apply: first every
//! search root (the native-specific root, then the auxiliary roots),
//! then the link-kind directive matching the artifact's actual kind,
//! and last — only when the policy explicitly allows the consumer to
//! choose — a permissive best-available-kind fallback.  The emitter
//! never claims a kind that was not built: a mismatch between the
//! requested kind and the produced one is a hard `LinkPolicy` error.

use vstd::prelude::*;
use crate::artifact::{Artifact, ArtifactKind, ArtifactView};
use crate::bytes::{copy_bytes, push_bytes};
use crate::config::{BuildSpec, BuildSpecView};
use crate::error::{BuildError, BuildErrView};

verus! {

/// One instruction to the consuming build.
#[derive(Debug, PartialEq, Eq)]
pub enum LinkDirective {
    /// Add a search path for native-library resolution.
    SearchNative { path: Vec<u8> },
    /// Add a plain search path.
    Search { path: Vec<u8> },
    /// Link the named library as a static archive.
    LinkStatic { name: Vec<u8> },
    /// Link the named library as a dynamic object.
    LinkDynamic { name: Vec<u8> },
    /// Link the named library in whatever kind resolves best; emitted
    /// only when the build unit allows the consumer that choice.
    LinkAny { name: Vec<u8> },
}

/// The mathematical model of a `LinkDirective`.
pub enum DirectiveView {
    SearchNative { path: Seq<u8> },
    Search { path: Seq<u8> },
    LinkStatic { name: Seq<u8> },
    LinkDynamic { name: Seq<u8> },
    LinkAny { name: Seq<u8> },
}

impl View for LinkDirective {
    type V = DirectiveView;

    open spec fn view(&self) -> DirectiveView {
        match self {
            LinkDirective::SearchNative { path } => DirectiveView::SearchNative { path: path@ },
            LinkDirective::Search { path } => DirectiveView::Search { path: path@ },
            LinkDirective::LinkStatic { name } => DirectiveView::LinkStatic { name: name@ },
            LinkDirective::LinkDynamic { name } => DirectiveView::LinkDynamic { name: name@ },
            LinkDirective::LinkAny { name } => DirectiveView::LinkAny { name: name@ },
        }
    }
}

/// The views of a directive list.
pub open spec fn directive_views(v: Seq<LinkDirective>) -> Seq<DirectiveView> {
    v.map_values(|d: LinkDirective| d@)
}

/// The link-kind directive for the kind that was actually produced.
pub open spec fn kind_directive(kind: ArtifactKind, name: Seq<u8>) -> DirectiveView {
    match kind {
        ArtifactKind::Static => DirectiveView::LinkStatic { name },
        ArtifactKind::Dynamic => DirectiveView::LinkDynamic { name },
    }
}

/// What `emit` produces: the search roots in order (native root
/// first), the link-kind directive matching the artifact's actual
/// kind, and the optional consumer-choice fallback — or a `LinkPolicy`
/// error when the artifact's kind is not the one the build unit
/// requested.
pub open spec fn spec_emit(a: ArtifactView, b: BuildSpecView) -> Result<
    Seq<DirectiveView>,
    BuildErrView,
> {
    if a.kind != b.kind {
        Err(BuildErrView::LinkPolicy { requested: b.kind, produced: a.kind })
    } else {
        Ok(
            seq![DirectiveView::SearchNative { path: b.out_dir }]
                + b.aux_search_roots.map_values(|p: Seq<u8>| DirectiveView::Search { path: p })
                + seq![kind_directive(a.kind, b.name)] + (if b.allow_any_link_kind {
                seq![DirectiveView::LinkAny { name: b.name }]
            } else {
                Seq::<DirectiveView>::empty()
            }),
        )
    }
}

/// The model of an executable emit result.
pub open spec fn emit_res_view(r: Result<Vec<LinkDirective>, BuildError>) -> Result<
    Seq<DirectiveView>,
    BuildErrView,
> {
    match r {
        Ok(v) => Ok(directive_views(v@)),
        Err(e) => Err(e@),
    }
}

/// Computes the ordered link directives for the produced artifact.
pub fn emit(a: &Artifact, b: &BuildSpec) -> (r: Result<Vec<LinkDirective>, BuildError>)
    ensures
        emit_res_view(r) == spec_emit(a@, b@),
{
    if a.kind != b.kind {
        return Err(BuildError::LinkPolicy { requested: b.kind, produced: a.kind });
    }
    let mut out: Vec<LinkDirective> = Vec::new();
    out.push(LinkDirective::SearchNative { path: copy_bytes(&b.out_dir) });
    let mut i: usize = 0;
    while i < b.aux_search_roots.len()
        invariant
            i <= b.aux_search_roots@.len(),
            directive_views(out@).len() == 1 + i,
            directive_views(out@)[0] == (DirectiveView::SearchNative { path: b@.out_dir }),
            forall|k: int|
                0 <= k < i ==> directive_views(out@)[k + 1] == (DirectiveView::Search {
                    path: b@.aux_search_roots[k],
                }),
        decreases b.aux_search_roots@.len() - i,
    {
        out.push(LinkDirective::Search { path: copy_bytes(&b.aux_search_roots[i]) });
        proof {
            assert(b@.aux_search_roots[i as int] == b.aux_search_roots@[i as int]@);
        }
        i = i + 1;
    }
    match b.kind {
        ArtifactKind::Static => {
            out.push(LinkDirective::LinkStatic { name: copy_bytes(&b.name) });
        },
        ArtifactKind::Dynamic => {
            out.push(LinkDirective::LinkDynamic { name: copy_bytes(&b.name) });
        },
    }
    if b.allow_any_link_kind {
        out.push(LinkDirective::LinkAny { name: copy_bytes(&b.name) });
    }
    proof {
        assert(directive_views(out@) =~= spec_emit(a@, b@)->Ok_0);
    }
    Ok(out)
}

/// The rendered text of one directive, in the `cargo:` key-value form
/// a consuming build reads, newline-terminated.
pub open spec fn directive_line(d: DirectiveView) -> Seq<u8> {
    match d {
        DirectiveView::SearchNative { path } => lit_search() + lit_native_eq() + path + seq![10u8],
        DirectiveView::Search { path } => lit_search() + path + seq![10u8],
        DirectiveView::LinkStatic { name } => lit_lib() + lit_static_eq() + name + seq![10u8],
        DirectiveView::LinkDynamic { name } => lit_lib() + lit_dylib_eq() + name + seq![10u8],
        DirectiveView::LinkAny { name } => lit_lib() + name + seq![10u8],
    }
}

/// `cargo:rustc-link-search=`.
pub open spec fn lit_search() -> Seq<u8> {
    seq![
        99u8,
        97u8,
        114u8,
        103u8,
        111u8,
        58u8,
        114u8,
        117u8,
        115u8,
        116u8,
        99u8,
        45u8,
        108u8,
        105u8,
        110u8,
        107u8,
        45u8,
        115u8,
        101u8,
        97u8,
        114u8,
        99u8,
        104u8,
        61u8,
    ]
}

/// `cargo:rustc-link-lib=`.
pub open spec fn lit_lib() -> Seq<u8> {
    seq![
        99u8,
        97u8,
        114u8,
        103u8,
        111u8,
        58u8,
        114u8,
        117u8,
        115u8,
        116u8,
        99u8,
        45u8,
        108u8,
        105u8,
        110u8,
        107u8,
        45u8,
        108u8,
        105u8,
        98u8,
        61u8,
    ]
}

/// `native=`.
pub open spec fn lit_native_eq() -> Seq<u8> {
    seq![110u8, 97u8, 116u8, 105u8, 118u8, 101u8, 61u8]
}

/// `static=`.
pub open spec fn lit_static_eq() -> Seq<u8> {
    seq![115u8, 116u8, 97u8, 116u8, 105u8, 99u8, 61u8]
}

/// `dylib=`.
pub open spec fn lit_dylib_eq() -> Seq<u8> {
    seq![100u8, 121u8, 108u8, 105u8, 98u8, 61u8]
}

/// The rendered text of a whole directive list, in emission order —
/// order matters, because the consumer resolves search paths and link
/// kinds in the order given.
pub open spec fn directives_text(ds: Seq<DirectiveView>) -> Seq<u8>
    decreases ds.len(),
{
    if ds.len() == 0 {
        Seq::empty()
    } else {
        directive_line(ds[0]) + directives_text(ds.drop_first())
    }
}

fn push_lit_search(out: &mut Vec<u8>)
    ensures
        final(out)@ == old(out)@ + lit_search(),
{
    out.push(99);
    out.push(97);
    out.push(114);
    out.push(103);
    out.push(111);
    out.push(58);
    out.push(114);
    out.push(117);
    out.push(115);
    out.push(116);
    out.push(99);
    out.push(45);
    out.push(108);
    out.push(105);
    out.push(110);
    out.push(107);
    out.push(45);
    out.push(115);
    out.push(101);
    out.push(97);
    out.push(114);
    out.push(99);
    out.push(104);
    out.push(61);
    proof {
        assert(out@ =~= old(out)@ + lit_search());
    }
}

fn push_lit_lib(out: &mut Vec<u8>)
    ensures
        final(out)@ == old(out)@ + lit_lib(),
{
    out.push(99);
    out.push(97);
    out.push(114);
    out.push(103);
    out.push(111);
    out.push(58);
    out.push(114);
    out.push(117);
    out.push(115);
    out.push(116);
    out.push(99);
    out.push(45);
    out.push(108);
    out.push(105);
    out.push(110);
    out.push(107);
    out.push(45);
    out.push(108);
    out.push(105);
    out.push(98);
    out.push(61);
    proof {
        assert(out@ =~= old(out)@ + lit_lib());
    }
}

/// Appends the rendered line of one directive.
fn push_directive(out: &mut Vec<u8>, d: &LinkDirective)
    ensures
        final(out)@ == old(out)@ + directive_line(d@),
{
    match d {
        LinkDirective::SearchNative { path } => {
            push_lit_search(out);
            out.push(110);
            out.push(97);
            out.push(116);
            out.push(105);
            out.push(118);
            out.push(101);
            out.push(61);
            push_bytes(out, path.as_slice());
            out.push(10);
        },
        LinkDirective::Search { path } => {
            push_lit_search(out);
            push_bytes(out, path.as_slice());
            out.push(10);
        },
        LinkDirective::LinkStatic { name } => {
            push_lit_lib(out);
            out.push(115);
            out.push(116);
            out.push(97);
            out.push(116);
            out.push(105);
            out.push(99);
            out.push(61);
            push_bytes(out, name.as_slice());
            out.push(10);
        },
        LinkDirective::LinkDynamic { name } => {
            push_lit_lib(out);
            out.push(100);
            out.push(121);
            out.push(108);
            out.push(105);
            out.push(98);
            out.push(61);
            push_bytes(out, name.as_slice());
            out.push(10);
        },
        LinkDirective::LinkAny { name } => {
            push_lit_lib(out);
            push_bytes(out, name.as_slice());
            out.push(10);
        },
    }
    proof {
        assert(out@ =~= old(out)@ + directive_line(d@));
    }
}

/// Renders a directive list as the text a consuming build reads.
pub fn render_directives(ds: &Vec<LinkDirective>) -> (r: Vec<u8>)
    ensures
        r@ == directives_text(directive_views(ds@)),
{
    let mut out: Vec<u8> = Vec::new();
    let mut i: usize = 0;
    proof {
        assert(directive_views(ds@).subrange(0, ds@.len() as int) =~= directive_views(ds@));
        assert(out@ + directives_text(directive_views(ds@)) =~= directives_text(
            directive_views(ds@),
        ));
    }
    while i < ds.len()
        invariant
            i <= ds@.len(),
            out@ + directives_text(directive_views(ds@).subrange(i as int, ds@.len() as int))
                == directives_text(directive_views(ds@)),
        decreases ds@.len() - i,
    {
        let ghost vs = directive_views(ds@);
        let ghost rest = vs.subrange(i as int, vs.len() as int);
        proof {
            assert(rest[0] == vs[i as int]);
            assert(rest.drop_first() =~= vs.subrange(i as int + 1, vs.len() as int));
        }
        let ghost before = out@;
        push_directive(&mut out, &ds[i]);
        proof {
            assert(ds@[i as int]@ == vs[i as int]);
            assert(out@ + directives_text(vs.subrange(i as int + 1, vs.len() as int)) =~= before
                + directives_text(rest));
        }
        i = i + 1;
    }
    proof {
        assert(directive_views(ds@).subrange(i as int, ds@.len() as int) =~= Seq::<
            DirectiveView,
        >::empty());
        assert(out@ =~= out@ + directives_text(
            directive_views(ds@).subrange(i as int, ds@.len() as int),
        ));
    }
    out
}

} // verus!
