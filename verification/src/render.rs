//! Rendering of the generated-declarations artifact.
//!
//! On success the pipeline emits one declarations file per build unit,
//! fully regenerated on every run, never incrementally patched.  Each
//! declaration becomes one line
//!
//! ```text
//! name(t1, t2) -> ret;
//! ```
//!
//! with foreign types shown under fixed-width host names: `int` as
//! `i32`, `unsigned long` as `u64`, `void` as `unit`, and a pointer as
//! `*` before its base type.  Rendering is a pure function of the
//! declaration set, so repeated runs on unchanged inputs produce
//! byte-identical output.

use vstd::prelude::*;
use crate::bytes::push_bytes;
use crate::decl::{BaseType, CType, Declaration, DeclView, decl_views};

verus! {

/// The host-language name of a base type.
pub open spec fn base_name(b: BaseType) -> Seq<u8> {
    match b {
        BaseType::Void => seq![117u8, 110u8, 105u8, 116u8],
        BaseType::Char => seq![105u8, 56u8],
        BaseType::UChar => seq![117u8, 56u8],
        BaseType::Short => seq![105u8, 49u8, 54u8],
        BaseType::UShort => seq![117u8, 49u8, 54u8],
        BaseType::Int => seq![105u8, 51u8, 50u8],
        BaseType::UInt => seq![117u8, 51u8, 50u8],
        BaseType::Long => seq![105u8, 54u8, 52u8],
        BaseType::ULong => seq![117u8, 54u8, 52u8],
    }
}

/// The rendered name of a type.
pub open spec fn ctype_text(t: CType) -> Seq<u8> {
    match t {
        CType::Base(b) => base_name(b),
        CType::Ptr(b) => seq![42u8] + base_name(b),
    }
}

/// The comma-separated parameter type list.
pub open spec fn params_text(ps: Seq<CType>) -> Seq<u8>
    decreases ps.len(),
{
    if ps.len() == 0 {
        Seq::empty()
    } else if ps.len() == 1 {
        ctype_text(ps[0])
    } else {
        ctype_text(ps[0]) + seq![44u8, 32u8] + params_text(ps.drop_first())
    }
}

/// The rendered line of one declaration.
pub open spec fn decl_line(d: DeclView) -> Seq<u8> {
    d.name + seq![40u8] + params_text(d.params) + seq![41u8, 32u8, 45u8, 62u8, 32u8] + ctype_text(
        d.ret,
    ) + seq![59u8, 10u8]
}

/// The full generated-declarations text: one line per declaration, in
/// translation order.
pub open spec fn decls_text(ds: Seq<DeclView>) -> Seq<u8>
    decreases ds.len(),
{
    if ds.len() == 0 {
        Seq::empty()
    } else {
        decl_line(ds[0]) + decls_text(ds.drop_first())
    }
}

fn push_base(out: &mut Vec<u8>, b: BaseType)
    ensures
        final(out)@ == old(out)@ + base_name(b),
{
    match b {
        BaseType::Void => {
            out.push(117);
            out.push(110);
            out.push(105);
            out.push(116);
        },
        BaseType::Char => {
            out.push(105);
            out.push(56);
        },
        BaseType::UChar => {
            out.push(117);
            out.push(56);
        },
        BaseType::Short => {
            out.push(105);
            out.push(49);
            out.push(54);
        },
        BaseType::UShort => {
            out.push(117);
            out.push(49);
            out.push(54);
        },
        BaseType::Int => {
            out.push(105);
            out.push(51);
            out.push(50);
        },
        BaseType::UInt => {
            out.push(117);
            out.push(51);
            out.push(50);
        },
        BaseType::Long => {
            out.push(105);
            out.push(54);
            out.push(52);
        },
        BaseType::ULong => {
            out.push(117);
            out.push(54);
            out.push(52);
        },
    }
    proof {
        assert(out@ =~= old(out)@ + base_name(b));
    }
}

fn push_type(out: &mut Vec<u8>, t: CType)
    ensures
        final(out)@ == old(out)@ + ctype_text(t),
{
    match t {
        CType::Base(b) => {
            push_base(out, b);
        },
        CType::Ptr(b) => {
            out.push(42);
            push_base(out, b);
            proof {
                assert(out@ =~= old(out)@ + ctype_text(t));
            }
        },
    }
}

fn push_params(out: &mut Vec<u8>, ps: &Vec<CType>)
    ensures
        final(out)@ == old(out)@ + params_text(ps@),
{
    let mut i: usize = 0;
    proof {
        assert(ps@.subrange(0, ps@.len() as int) =~= ps@);
    }
    while i < ps.len()
        invariant
            i <= ps@.len(),
            out@ + params_text(ps@.subrange(i as int, ps@.len() as int)) == old(out)@
                + params_text(ps@),
        decreases ps@.len() - i,
    {
        let ghost rest = ps@.subrange(i as int, ps@.len() as int);
        proof {
            assert(rest[0] == ps@[i as int]);
            assert(rest.drop_first() =~= ps@.subrange(i as int + 1, ps@.len() as int));
        }
        let ghost before = out@;
        push_type(out, ps[i]);
        if i + 1 < ps.len() {
            out.push(44);
            out.push(32);
            proof {
                assert(out@ =~= before + ctype_text(ps@[i as int]) + seq![44u8, 32u8]);
                assert(out@ + params_text(ps@.subrange(i as int + 1, ps@.len() as int)) =~= before
                    + params_text(rest));
            }
        } else {
            proof {
                assert(ps@.subrange(i as int + 1, ps@.len() as int) =~= Seq::<CType>::empty());
                assert(out@ + params_text(ps@.subrange(i as int + 1, ps@.len() as int)) =~= before
                    + params_text(rest));
            }
        }
        i = i + 1;
    }
    proof {
        assert(ps@.subrange(i as int, ps@.len() as int) =~= Seq::<CType>::empty());
        assert(out@ =~= out@ + params_text(ps@.subrange(i as int, ps@.len() as int)));
    }
}

/// Appends the rendered line of one declaration.
fn push_decl_line(out: &mut Vec<u8>, d: &Declaration)
    ensures
        final(out)@ == old(out)@ + decl_line(d@),
{
    push_bytes(out, d.name.as_slice());
    out.push(40);
    push_params(out, &d.params);
    out.push(41);
    out.push(32);
    out.push(45);
    out.push(62);
    out.push(32);
    push_type(out, d.ret);
    out.push(59);
    out.push(10);
    proof {
        assert(out@ =~= old(out)@ + decl_line(d@));
    }
}

/// Renders the full generated-declarations text for `decls`.
pub fn render_decls(decls: &Vec<Declaration>) -> (r: Vec<u8>)
    ensures
        r@ == decls_text(decl_views(decls@)),
{
    let mut out: Vec<u8> = Vec::new();
    let mut i: usize = 0;
    proof {
        assert(decl_views(decls@).subrange(0, decls@.len() as int) =~= decl_views(decls@));
        assert(out@ + decls_text(decl_views(decls@)) =~= decls_text(decl_views(decls@)));
    }
    while i < decls.len()
        invariant
            i <= decls@.len(),
            out@ + decls_text(decl_views(decls@).subrange(i as int, decls@.len() as int))
                == decls_text(decl_views(decls@)),
        decreases decls@.len() - i,
    {
        let ghost vs = decl_views(decls@);
        let ghost rest = vs.subrange(i as int, vs.len() as int);
        proof {
            assert(rest[0] == vs[i as int]);
            assert(rest.drop_first() =~= vs.subrange(i as int + 1, vs.len() as int));
        }
        let ghost before = out@;
        push_decl_line(&mut out, &decls[i]);
        proof {
            assert(decls@[i as int]@ == vs[i as int]);
            assert(out@ + decls_text(vs.subrange(i as int + 1, vs.len() as int)) =~= before
                + decls_text(rest));
        }
        i = i + 1;
    }
    proof {
        assert(decl_views(decls@).subrange(i as int, decls@.len() as int) =~= Seq::<
            DeclView,
        >::empty());
        assert(out@ =~= out@ + decls_text(
            decl_views(decls@).subrange(i as int, decls@.len() as int),
        ));
    }
    out
}

} // verus!
