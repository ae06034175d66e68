//! The declaration translator.
//!
//! `translate` parses every header's exported-symbol block in file
//! order and merges the declarations into one collection keyed by
//! symbol name.  Names must be unique across all processed headers:
//! a duplicate is a hard `Ambiguous` error identifying both declaring
//! headers, never a silently-chosen signature.  The translator executes
//! no foreign code and reads no files; it is a pure function of the
//! header texts, so repeated builds are reproducible.

use vstd::prelude::*;
use crate::bytes::copy_bytes;
use crate::decl::{Declaration, DeclView, HeaderFile, HeaderView, header_views, decl_views};
use crate::error::{TranslateError, TranslateErrView};
use crate::parse::{spec_parse_header, parse_header, ParseErr, ParseErrView};

verus! {

/// The views of accumulated (declaration, declaring header) pairs.
pub open spec fn pair_views(v: Seq<(Declaration, Vec<u8>)>) -> Seq<(DeclView, Seq<u8>)> {
    v.map_values(|p: (Declaration, Vec<u8>)| (p.0@, p.1@))
}

/// The index of the first accumulated declaration named `name`.
pub open spec fn spec_find_name(ds: Seq<(DeclView, Seq<u8>)>, name: Seq<u8>) -> Option<int>
    decreases ds.len(),
{
    if ds.len() == 0 {
        None
    } else if ds[0].0.name == name {
        Some(0int)
    } else {
        match spec_find_name(ds.drop_first(), name) {
            None => None,
            Some(i) => Some(i + 1),
        }
    }
}

pub proof fn lemma_find_name_none(ds: Seq<(DeclView, Seq<u8>)>, name: Seq<u8>)
    requires
        forall|k: int| 0 <= k < ds.len() ==> ds[k].0.name != name,
    ensures
        spec_find_name(ds, name) is None,
    decreases ds.len(),
{
    if ds.len() > 0 {
        assert(forall|k: int|
            0 <= k < ds.drop_first().len() ==> ds.drop_first()[k] == ds[k + 1]);
        lemma_find_name_none(ds.drop_first(), name);
    }
}

pub proof fn lemma_find_name_at(ds: Seq<(DeclView, Seq<u8>)>, name: Seq<u8>, i: int)
    requires
        0 <= i < ds.len(),
        ds[i].0.name == name,
        forall|k: int| 0 <= k < i ==> ds[k].0.name != name,
    ensures
        spec_find_name(ds, name) == Some(i),
    decreases ds.len(),
{
    if i > 0 {
        assert(forall|k: int|
            0 <= k < ds.drop_first().len() ==> ds.drop_first()[k] == ds[k + 1]);
        lemma_find_name_at(ds.drop_first(), name, i - 1);
    }
}

/// Adds one header's declarations to the accumulated set, in order,
/// failing on the first name that is already present.
pub open spec fn spec_add_decls(
    acc: Seq<(DeclView, Seq<u8>)>,
    ds: Seq<DeclView>,
    path: Seq<u8>,
) -> Result<Seq<(DeclView, Seq<u8>)>, TranslateErrView>
    decreases ds.len(),
{
    if ds.len() == 0 {
        Ok(acc)
    } else {
        match spec_find_name(acc, ds[0].name) {
            Some(i) => Err(
                TranslateErrView::Ambiguous {
                    symbol: ds[0].name,
                    first_header: acc[i].1,
                    second_header: path,
                },
            ),
            None => spec_add_decls(acc.push((ds[0], path)), ds.drop_first(), path),
        }
    }
}

/// Parses and merges every header, in file order, onto `acc`.
pub open spec fn spec_merge(acc: Seq<(DeclView, Seq<u8>)>, hs: Seq<HeaderView>) -> Result<
    Seq<(DeclView, Seq<u8>)>,
    TranslateErrView,
>
    decreases hs.len(),
{
    if hs.len() == 0 {
        Ok(acc)
    } else {
        match spec_parse_header(hs[0].text) {
            Err(ParseErrView::Unsupported { symbol, construct }) => Err(
                TranslateErrView::Unsupported { header: hs[0].path, symbol, construct },
            ),
            Err(ParseErrView::Malformed { pos }) => Err(
                TranslateErrView::Malformed { header: hs[0].path, pos },
            ),
            Ok(ds) => match spec_add_decls(acc, ds, hs[0].path) {
                Err(e) => Err(e),
                Ok(acc2) => spec_merge(acc2, hs.drop_first()),
            },
        }
    }
}

/// What the given headers translate to: every declaration with the
/// header it came from dropped, or the first error in file order.
pub open spec fn spec_translate(hs: Seq<HeaderView>) -> Result<Seq<DeclView>, TranslateErrView> {
    match spec_merge(Seq::empty(), hs) {
        Ok(ps) => Ok(ps.map_values(|p: (DeclView, Seq<u8>)| p.0)),
        Err(e) => Err(e),
    }
}

/// The model of an executable translation result.
pub open spec fn translate_res_view(r: Result<Vec<Declaration>, TranslateError>) -> Result<
    Seq<DeclView>,
    TranslateErrView,
> {
    match r {
        Ok(v) => Ok(decl_views(v@)),
        Err(e) => Err(e@),
    }
}

/// The index of the first accumulated declaration named `name`.
fn find_name(acc: &Vec<(Declaration, Vec<u8>)>, name: &Vec<u8>) -> (r: Option<usize>)
    ensures
        (match r {
            Some(i) => spec_find_name(pair_views(acc@), name@) == Some(i as int) && i
                < acc@.len(),
            None => spec_find_name(pair_views(acc@), name@) is None,
        }),
{
    let mut i: usize = 0;
    while i < acc.len()
        invariant
            i <= acc@.len(),
            forall|k: int| 0 <= k < i ==> pair_views(acc@)[k].0.name != name@,
        decreases acc@.len() - i,
    {
        let e = &acc[i];
        if crate::bytes::bytes_eq(&e.0.name, name) {
            proof {
                lemma_find_name_at(pair_views(acc@), name@, i as int);
            }
            return Some(i);
        }
        i = i + 1;
    }
    proof {
        lemma_find_name_none(pair_views(acc@), name@);
    }
    None
}

/// Parses every header's exported-symbol block, in file order, and
/// merges the translated declarations into one set, keyed by symbol
/// name.  Duplicate names are a hard error identifying both declaring
/// headers; unsupported constructs fail with the symbol and construct
/// named.  The result is a pure function of the header paths and
/// texts.
pub fn translate(headers: &Vec<HeaderFile>) -> (r: Result<Vec<Declaration>, TranslateError>)
    ensures
        translate_res_view(r) == spec_translate(header_views(headers@)),
{
    let ghost all = header_views(headers@);
    let mut acc: Vec<(Declaration, Vec<u8>)> = Vec::new();
    let mut hi: usize = 0;
    proof {
        assert(pair_views(acc@) =~= Seq::<(DeclView, Seq<u8>)>::empty());
        assert(all.subrange(0, all.len() as int) =~= all);
    }
    while hi < headers.len()
        invariant
            hi <= headers@.len(),
            all == header_views(headers@),
            spec_merge(Seq::empty(), all) == spec_merge(
                pair_views(acc@),
                all.subrange(hi as int, all.len() as int),
            ),
        decreases headers@.len() - hi,
    {
        let h = &headers[hi];
        proof {
            assert(*h == headers@[hi as int]);
            assert(all.subrange(hi as int, all.len() as int)[0] == all[hi as int]);
            assert(all[hi as int] == headers@[hi as int]@);
            assert(all.subrange(hi as int, all.len() as int).drop_first() =~= all.subrange(
                hi as int + 1,
                all.len() as int,
            ));
        }
        match parse_header(&h.text) {
            Err(ParseErr::Unsupported { symbol, construct }) => {
                return Err(
                    TranslateError::Unsupported { header: copy_bytes(&h.path), symbol, construct },
                );
            },
            Err(ParseErr::Malformed { pos }) => {
                return Err(TranslateError::Malformed { header: copy_bytes(&h.path), pos });
            },
            Ok(mut ds) => {
                while ds.len() > 0
                    invariant
                        hi < headers@.len(),
                        all == header_views(headers@),
                        *h == headers@[hi as int],
                        (match spec_add_decls(
                            pair_views(acc@),
                            decl_views(ds@),
                            headers@[hi as int]@.path,
                        ) {
                            Ok(a2) => spec_merge(Seq::empty(), all) == spec_merge(
                                a2,
                                all.subrange(hi as int + 1, all.len() as int),
                            ),
                            Err(e) => spec_merge(Seq::empty(), all) == Err::<
                                Seq<(DeclView, Seq<u8>)>,
                                TranslateErrView,
                            >(e),
                        }),
                    decreases ds@.len(),
                {
                    let ghost ds_before = ds@;
                    let d = ds.remove(0);
                    proof {
                        assert(ds@ =~= ds_before.drop_first());
                        assert(decl_views(ds_before)[0] == d@);
                        assert(decl_views(ds@) =~= decl_views(ds_before).drop_first());
                    }
                    match find_name(&acc, &d.name) {
                        Some(i) => {
                            proof {
                                assert(pair_views(acc@)[i as int] == (
                                    acc@[i as int].0@,
                                    acc@[i as int].1@,
                                ));
                            }
                            let first = copy_bytes(&acc[i].1);
                            return Err(
                                TranslateError::Ambiguous {
                                    symbol: d.name,
                                    first_header: first,
                                    second_header: copy_bytes(&h.path),
                                },
                            );
                        },
                        None => {
                            let ghost acc_before = acc@;
                            let path_copy = copy_bytes(&h.path);
                            let pair = (d, path_copy);
                            let ghost pv = (pair.0@, pair.1@);
                            proof {
                                assert(*h == headers@[hi as int]);
                                assert(pair.0@ == decl_views(ds_before)[0]);
                                assert(pair.1@ == h.path@);
                                assert(pv == (decl_views(ds_before)[0], headers@[hi as int]@.path));
                            }
                            acc.push(pair);
                            proof {
                                assert(pair_views(acc@) =~= pair_views(acc_before).push(pv));
                            }
                        },
                    }
                }
                proof {
                    assert(all.subrange(hi as int, all.len() as int).drop_first() =~= all.subrange(
                        hi as int + 1,
                        all.len() as int,
                    ));
                }
                hi = hi + 1;
            },
        }
    }
    proof {
        assert(all.subrange(hi as int, all.len() as int) =~= Seq::<HeaderView>::empty());
    }
    let ghost acc_final = pair_views(acc@);
    let mut out: Vec<Declaration> = Vec::new();
    while acc.len() > 0
        invariant
            decl_views(out@) + pair_views(acc@).map_values(|p: (DeclView, Seq<u8>)| p.0)
                =~= acc_final.map_values(|p: (DeclView, Seq<u8>)| p.0),
        decreases acc@.len(),
    {
        let ghost acc_before = acc@;
        let ghost out_before = out@;
        let (d, _path) = acc.remove(0);
        out.push(d);
        proof {
            assert(acc@ =~= acc_before.drop_first());
            assert(decl_views(out@) =~= decl_views(out_before).push(pair_views(acc_before)[0].0));
            assert(decl_views(out@) + pair_views(acc@).map_values(
                |p: (DeclView, Seq<u8>)| p.0,
            ) =~= decl_views(out_before) + pair_views(acc_before).map_values(
                |p: (DeclView, Seq<u8>)| p.0,
            ));
        }
    }
    proof {
        assert(decl_views(out@) =~= decl_views(out@) + pair_views(acc@).map_values(
            |p: (DeclView, Seq<u8>)| p.0,
        ));
    }
    Ok(out)
}

} // verus!
