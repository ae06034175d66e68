//! The declaration grammar of one header.
//!
//! A header's exported-symbol block is a sequence of declarations
//!
//! ```text
//! type name ( params ) ;
//! ```
//!
//! where a type is one of the base-type keywords (`void`, `char`,
//! `short`, `int`, `long`, optionally preceded by `signed` or
//! `unsigned`) with at most one `*`, and `params` is empty, the single
//! keyword `void`, or a comma-separated list of typed parameters with
//! optional names.  Whitespace and `//` line comments may appear
//! between tokens.  Any identifier in type position that is not one of
//! the keywords is an unsupported construct and fails that declaration
//! with a precise error; anything that breaks the shape above is
//! malformed input and fails loudly.
//!
//! The grammar is defined by the spec functions below; every executable
//! parser function returns exactly what its spec function denotes, so
//! parsing is a pure function of the header text.

use vstd::prelude::*;
use crate::decl::{BaseType, CType, CallConv, Declaration, DeclView, decl_views};
use crate::scan::{
    skip, ident_end, is_ident_start, peek_ident, skip_ws, scan_ident_end, copy_range,
};

verus! {

/// The keywords of the type grammar, plus `Other` for every identifier
/// that is none of them.
#[derive(Clone, Copy, PartialEq, Eq, Structural, Debug)]
pub enum Word {
    Void,
    Char,
    Short,
    Int,
    Long,
    Unsigned,
    Signed,
    Other,
}

pub open spec fn kw_void() -> Seq<u8> {
    seq![118u8, 111u8, 105u8, 100u8]
}

pub open spec fn kw_char() -> Seq<u8> {
    seq![99u8, 104u8, 97u8, 114u8]
}

pub open spec fn kw_short() -> Seq<u8> {
    seq![115u8, 104u8, 111u8, 114u8, 116u8]
}

pub open spec fn kw_int() -> Seq<u8> {
    seq![105u8, 110u8, 116u8]
}

pub open spec fn kw_long() -> Seq<u8> {
    seq![108u8, 111u8, 110u8, 103u8]
}

pub open spec fn kw_unsigned() -> Seq<u8> {
    seq![117u8, 110u8, 115u8, 105u8, 103u8, 110u8, 101u8, 100u8]
}

pub open spec fn kw_signed() -> Seq<u8> {
    seq![115u8, 105u8, 103u8, 110u8, 101u8, 100u8]
}

/// Which keyword, if any, the identifier `w` is.
pub open spec fn spec_classify(w: Seq<u8>) -> Word {
    if w == kw_void() {
        Word::Void
    } else if w == kw_char() {
        Word::Char
    } else if w == kw_short() {
        Word::Short
    } else if w == kw_int() {
        Word::Int
    } else if w == kw_long() {
        Word::Long
    } else if w == kw_unsigned() {
        Word::Unsigned
    } else if w == kw_signed() {
        Word::Signed
    } else {
        Word::Other
    }
}

/// A failure while parsing one type.
pub enum TypeErr {
    /// An identifier in type position that the translator cannot
    /// represent; `next` is where scanning stopped, so the caller can
    /// look ahead for the symbol name when reporting.
    Unsupported { construct: Vec<u8>, next: usize },
    /// Input that does not follow the grammar at all.
    Malformed { pos: usize },
}

/// The mathematical model of a `TypeErr`.
pub enum TypeErrView {
    Unsupported { construct: Seq<u8>, next: int },
    Malformed { pos: int },
}

impl View for TypeErr {
    type V = TypeErrView;

    open spec fn view(&self) -> TypeErrView {
        match self {
            TypeErr::Unsupported { construct, next } => {
                TypeErrView::Unsupported { construct: construct@, next: *next as int }
            },
            TypeErr::Malformed { pos } => TypeErrView::Malformed { pos: *pos as int },
        }
    }
}

/// A failure while parsing one header's declarations.
pub enum ParseErr {
    /// A declaration uses a foreign-type construct the translator
    /// cannot represent.  `symbol` is the declared name when it could
    /// be read, empty otherwise.
    Unsupported { symbol: Vec<u8>, construct: Vec<u8> },
    /// Input that does not follow the grammar; `pos` is the byte
    /// offset of the first input the parser could not accept.
    Malformed { pos: usize },
}

/// The mathematical model of a `ParseErr`.
pub enum ParseErrView {
    Unsupported { symbol: Seq<u8>, construct: Seq<u8> },
    Malformed { pos: int },
}

impl View for ParseErr {
    type V = ParseErrView;

    open spec fn view(&self) -> ParseErrView {
        match self {
            ParseErr::Unsupported { symbol, construct } => {
                ParseErrView::Unsupported { symbol: symbol@, construct: construct@ }
            },
            ParseErr::Malformed { pos } => ParseErrView::Malformed { pos: *pos as int },
        }
    }
}

/// The optional `*` after a base type: at most one level of pointer.
pub open spec fn spec_finish_type(s: Seq<u8>, i: int, b: BaseType) -> Result<
    (CType, int),
    TypeErrView,
> {
    let j = skip(s, i);
    if j < s.len() && s[j] == 42 {
        let k = skip(s, j + 1);
        if k < s.len() && s[k] == 42 {
            Err(TypeErrView::Unsupported { construct: seq![42u8, 42u8], next: k + 1 })
        } else {
            Ok((CType::Ptr(b), j + 1))
        }
    } else {
        Ok((CType::Base(b), j))
    }
}

/// The base keyword that may follow `signed` or `unsigned`.  A plain
/// identifier here is not consumed: it is the declared name, and the
/// type is (`un`)`signed int`.
pub open spec fn spec_after_sign(s: Seq<u8>, i: int, signed: bool) -> Result<
    (CType, int),
    TypeErrView,
> {
    let j = skip(s, i);
    if j < s.len() && is_ident_start(s[j]) {
        let e = ident_end(s, j);
        let w = s.subrange(j, e);
        match spec_classify(w) {
            Word::Char => spec_finish_type(s, e, if signed { BaseType::Char } else { BaseType::UChar }),
            Word::Short => spec_finish_type(
                s,
                e,
                if signed { BaseType::Short } else { BaseType::UShort },
            ),
            Word::Int => spec_finish_type(s, e, if signed { BaseType::Int } else { BaseType::UInt }),
            Word::Long => spec_finish_type(s, e, if signed { BaseType::Long } else { BaseType::ULong }),
            Word::Other => spec_finish_type(s, i, if signed { BaseType::Int } else { BaseType::UInt }),
            _ => Err(TypeErrView::Unsupported { construct: w, next: e }),
        }
    } else {
        spec_finish_type(s, i, if signed { BaseType::Int } else { BaseType::UInt })
    }
}

/// One type, starting at `i`.
pub open spec fn spec_parse_type(s: Seq<u8>, i: int) -> Result<(CType, int), TypeErrView> {
    let j = skip(s, i);
    if j < s.len() && is_ident_start(s[j]) {
        let e = ident_end(s, j);
        let w = s.subrange(j, e);
        match spec_classify(w) {
            Word::Void => spec_finish_type(s, e, BaseType::Void),
            Word::Char => spec_finish_type(s, e, BaseType::Char),
            Word::Short => spec_finish_type(s, e, BaseType::Short),
            Word::Int => spec_finish_type(s, e, BaseType::Int),
            Word::Long => spec_finish_type(s, e, BaseType::Long),
            Word::Unsigned => spec_after_sign(s, e, false),
            Word::Signed => spec_after_sign(s, e, true),
            Word::Other => Err(TypeErrView::Unsupported { construct: w, next: e }),
        }
    } else {
        Err(TypeErrView::Malformed { pos: j })
    }
}

/// The position after a parameter's optional name.
pub open spec fn spec_after_name(s: Seq<u8>, i: int) -> int {
    let j = skip(s, i);
    if j < s.len() && is_ident_start(s[j]) {
        ident_end(s, j)
    } else {
        i
    }
}

/// The parameters after the first one that is not a lone `void`,
/// accumulated in `acc`, up to and past the closing parenthesis.
pub open spec fn spec_params_rest(s: Seq<u8>, i: int, acc: Seq<CType>) -> Result<
    (Seq<CType>, int),
    TypeErrView,
>
    decreases s.len() - i,
{
    if i >= 0 {
        match spec_parse_type(s, i) {
            Err(e) => Err(e),
            Ok((t, k)) => {
                if t == CType::Base(BaseType::Void) {
                    Err(TypeErrView::Unsupported { construct: kw_void(), next: k })
                } else {
                    let m = spec_after_name(s, k);
                    let j = skip(s, m);
                    if j < s.len() && s[j] == 44 {
                        if i < j + 1 {
                            spec_params_rest(s, j + 1, acc.push(t))
                        } else {
                            // never reached: scanning always advances; this branch
                            // keeps the recursion visibly well-founded
                            Err(TypeErrView::Malformed { pos: j })
                        }
                    } else if j < s.len() && s[j] == 41 {
                        Ok((acc.push(t), j + 1))
                    } else {
                        Err(TypeErrView::Malformed { pos: j })
                    }
                }
            },
        }
    } else {
        Err(TypeErrView::Malformed { pos: i })
    }
}

/// The parameter list after the opening parenthesis, up to and past
/// the closing one.  Empty parentheses and a lone `void` both mean no
/// parameters.
pub open spec fn spec_parse_params(s: Seq<u8>, i: int) -> Result<(Seq<CType>, int), TypeErrView> {
    let j = skip(s, i);
    if j < s.len() && s[j] == 41 {
        Ok((Seq::empty(), j + 1))
    } else {
        match spec_parse_type(s, j) {
            Err(e) => Err(e),
            Ok((t, k)) => {
                if t == CType::Base(BaseType::Void) {
                    let m = skip(s, k);
                    if m < s.len() && s[m] == 41 {
                        Ok((Seq::empty(), m + 1))
                    } else {
                        Err(TypeErrView::Malformed { pos: m })
                    }
                } else {
                    spec_params_rest(s, j, Seq::empty())
                }
            },
        }
    }
}

/// One declaration starting at `i`, or `None` when only skippable
/// input remains.  On success also yields the position just past the
/// terminating semicolon.
pub open spec fn spec_parse_decl(s: Seq<u8>, i: int) -> Result<
    Option<(DeclView, int)>,
    ParseErrView,
> {
    let j = skip(s, i);
    if j >= s.len() {
        Ok(None)
    } else {
        match spec_parse_type(s, j) {
            Err(TypeErrView::Unsupported { construct, next }) => {
                Err(ParseErrView::Unsupported { symbol: peek_ident(s, next), construct })
            },
            Err(TypeErrView::Malformed { pos }) => Err(ParseErrView::Malformed { pos }),
            Ok((ret, k)) => {
                let m = skip(s, k);
                if m < s.len() && is_ident_start(s[m]) {
                    let e = ident_end(s, m);
                    let name = s.subrange(m, e);
                    if spec_classify(name) != Word::Other {
                        Err(ParseErrView::Malformed { pos: m })
                    } else {
                        let p = skip(s, e);
                        if p < s.len() && s[p] == 40 {
                            match spec_parse_params(s, p + 1) {
                                Err(TypeErrView::Unsupported { construct, .. }) => {
                                    Err(ParseErrView::Unsupported { symbol: name, construct })
                                },
                                Err(TypeErrView::Malformed { pos }) => {
                                    Err(ParseErrView::Malformed { pos })
                                },
                                Ok((params, q)) => {
                                    let z = skip(s, q);
                                    if z < s.len() && s[z] == 59 {
                                        Ok(
                                            Some(
                                                (
                                                    DeclView {
                                                        name,
                                                        params,
                                                        ret,
                                                        conv: CallConv::C,
                                                    },
                                                    z + 1,
                                                ),
                                            ),
                                        )
                                    } else {
                                        Err(ParseErrView::Malformed { pos: z })
                                    }
                                },
                            }
                        } else {
                            Err(ParseErrView::Malformed { pos: p })
                        }
                    }
                } else {
                    Err(ParseErrView::Malformed { pos: m })
                }
            },
        }
    }
}

/// Every declaration of the header text from `i` on, in file order.
pub open spec fn spec_parse_header_from(s: Seq<u8>, i: int) -> Result<Seq<DeclView>, ParseErrView>
    decreases s.len() - i,
{
    match spec_parse_decl(s, i) {
        Err(e) => Err(e),
        Ok(None) => Ok(Seq::empty()),
        Ok(Some((d, n))) => {
            if i < n && n <= s.len() {
                match spec_parse_header_from(s, n) {
                    Err(e) => Err(e),
                    Ok(ds) => Ok(seq![d] + ds),
                }
            } else {
                // never reached: a parsed declaration always advances past
                // its semicolon; this branch keeps the recursion visibly
                // well-founded
                Err(ParseErrView::Malformed { pos: n })
            }
        },
    }
}

/// Every declaration of the header text, in file order.  This is what
/// one header translates to: a pure function of its text.
pub open spec fn spec_parse_header(s: Seq<u8>) -> Result<Seq<DeclView>, ParseErrView> {
    spec_parse_header_from(s, 0)
}

/// The model of an executable type-parse result.
pub open spec fn type_res_view(r: Result<(CType, usize), TypeErr>) -> Result<
    (CType, int),
    TypeErrView,
> {
    match r {
        Ok((t, n)) => Ok((t, n as int)),
        Err(e) => Err(e@),
    }
}

/// The model of an executable parameter-parse result.
pub open spec fn params_res_view(r: Result<(Vec<CType>, usize), TypeErr>) -> Result<
    (Seq<CType>, int),
    TypeErrView,
> {
    match r {
        Ok((v, n)) => Ok((v@, n as int)),
        Err(e) => Err(e@),
    }
}

/// The model of an executable declaration-parse result.
pub open spec fn decl_res_view(r: Result<Option<(Declaration, usize)>, ParseErr>) -> Result<
    Option<(DeclView, int)>,
    ParseErrView,
> {
    match r {
        Ok(None) => Ok(None),
        Ok(Some((d, n))) => Ok(Some((d@, n as int))),
        Err(e) => Err(e@),
    }
}

/// The model of an executable header-parse result.
pub open spec fn header_res_view(r: Result<Vec<Declaration>, ParseErr>) -> Result<
    Seq<DeclView>,
    ParseErrView,
> {
    match r {
        Ok(v) => Ok(decl_views(v@)),
        Err(e) => Err(e@),
    }
}

/// Which keyword, if any, the identifier between `lo` and `hi` is.
fn classify_range(s: &Vec<u8>, lo: usize, hi: usize) -> (k: Word)
    requires
        lo <= hi <= s@.len(),
    ensures
        k == spec_classify(s@.subrange(lo as int, hi as int)),
{
    let ghost w = s@.subrange(lo as int, hi as int);
    let n = hi - lo;
    if n == 3 && s[lo] == 105 && s[lo + 1] == 110 && s[lo + 2] == 116 {
        proof {
            assert(w =~= kw_int());
        }
        Word::Int
    } else if n == 4 && s[lo] == 118 && s[lo + 1] == 111 && s[lo + 2] == 105 && s[lo + 3] == 100 {
        proof {
            assert(w =~= kw_void());
        }
        Word::Void
    } else if n == 4 && s[lo] == 99 && s[lo + 1] == 104 && s[lo + 2] == 97 && s[lo + 3] == 114 {
        proof {
            assert(w =~= kw_char());
        }
        Word::Char
    } else if n == 4 && s[lo] == 108 && s[lo + 1] == 111 && s[lo + 2] == 110 && s[lo + 3] == 103 {
        proof {
            assert(w =~= kw_long());
        }
        Word::Long
    } else if n == 5 && s[lo] == 115 && s[lo + 1] == 104 && s[lo + 2] == 111 && s[lo + 3] == 114
        && s[lo + 4] == 116 {
        proof {
            assert(w =~= kw_short());
        }
        Word::Short
    } else if n == 6 && s[lo] == 115 && s[lo + 1] == 105 && s[lo + 2] == 103 && s[lo + 3] == 110
        && s[lo + 4] == 101 && s[lo + 5] == 100 {
        proof {
            assert(w =~= kw_signed());
        }
        Word::Signed
    } else if n == 8 && s[lo] == 117 && s[lo + 1] == 110 && s[lo + 2] == 115 && s[lo + 3] == 105
        && s[lo + 4] == 103 && s[lo + 5] == 110 && s[lo + 6] == 101 && s[lo + 7] == 100 {
        proof {
            assert(w =~= kw_unsigned());
        }
        Word::Unsigned
    } else {
        proof {
            assert(w.len() == n);
            assert(forall|q: int| 0 <= q < n ==> w[q] == s@[lo + q]);
            assert(w != kw_int());
            assert(w != kw_void());
            assert(w != kw_char());
            assert(w != kw_long());
            assert(w != kw_short());
            assert(w != kw_signed());
            assert(w != kw_unsigned());
        }
        Word::Other
    }
}

/// The optional `*` after a base type.
fn finish_type(s: &Vec<u8>, i: usize, b: BaseType) -> (r: Result<(CType, usize), TypeErr>)
    requires
        i <= s@.len(),
    ensures
        type_res_view(r) == spec_finish_type(s@, i as int, b),
        (r matches Ok((t, k)) ==> i <= k <= s@.len()),
        (r matches Err(TypeErr::Unsupported { next, .. }) ==> i <= next <= s@.len()),
{
    let j = skip_ws(s, i);
    if j < s.len() && s[j] == 42 {
        let k = skip_ws(s, j + 1);
        if k < s.len() && s[k] == 42 {
            let mut c: Vec<u8> = Vec::new();
            c.push(42);
            c.push(42);
            proof {
                assert(c@ =~= seq![42u8, 42u8]);
            }
            Err(TypeErr::Unsupported { construct: c, next: k + 1 })
        } else {
            Ok((CType::Ptr(b), j + 1))
        }
    } else {
        Ok((CType::Base(b), j))
    }
}

/// The base keyword that may follow `signed` or `unsigned`.
fn after_sign(s: &Vec<u8>, i: usize, signed: bool) -> (r: Result<(CType, usize), TypeErr>)
    requires
        i <= s@.len(),
    ensures
        type_res_view(r) == spec_after_sign(s@, i as int, signed),
        (r matches Ok((t, k)) ==> i <= k <= s@.len()),
        (r matches Err(TypeErr::Unsupported { next, .. }) ==> i <= next <= s@.len()),
{
    let j = skip_ws(s, i);
    if j < s.len() {
        let b = s[j];
        if (97 <= b && b <= 122) || (65 <= b && b <= 90) || b == 95 {
            let e = scan_ident_end(s, j);
            let k = classify_range(s, j, e);
            return match k {
                Word::Char => finish_type(s, e, if signed { BaseType::Char } else { BaseType::UChar }),
                Word::Short => finish_type(
                    s,
                    e,
                    if signed { BaseType::Short } else { BaseType::UShort },
                ),
                Word::Int => finish_type(s, e, if signed { BaseType::Int } else { BaseType::UInt }),
                Word::Long => finish_type(s, e, if signed { BaseType::Long } else { BaseType::ULong }),
                Word::Other => finish_type(s, i, if signed { BaseType::Int } else { BaseType::UInt }),
                _ => Err(TypeErr::Unsupported { construct: copy_range(s, j, e), next: e }),
            };
        }
    }
    finish_type(s, i, if signed { BaseType::Int } else { BaseType::UInt })
}

/// One type, starting at `i`.
fn parse_type(s: &Vec<u8>, i: usize) -> (r: Result<(CType, usize), TypeErr>)
    requires
        i <= s@.len(),
    ensures
        type_res_view(r) == spec_parse_type(s@, i as int),
        (r matches Ok((t, k)) ==> i <= k <= s@.len()),
        (r matches Err(TypeErr::Unsupported { next, .. }) ==> i <= next <= s@.len()),
{
    let j = skip_ws(s, i);
    if j < s.len() {
        let b = s[j];
        if (97 <= b && b <= 122) || (65 <= b && b <= 90) || b == 95 {
            let e = scan_ident_end(s, j);
            let k = classify_range(s, j, e);
            return match k {
                Word::Void => finish_type(s, e, BaseType::Void),
                Word::Char => finish_type(s, e, BaseType::Char),
                Word::Short => finish_type(s, e, BaseType::Short),
                Word::Int => finish_type(s, e, BaseType::Int),
                Word::Long => finish_type(s, e, BaseType::Long),
                Word::Unsigned => after_sign(s, e, false),
                Word::Signed => after_sign(s, e, true),
                Word::Other => Err(TypeErr::Unsupported { construct: copy_range(s, j, e), next: e }),
            };
        }
    }
    Err(TypeErr::Malformed { pos: j })
}

/// The position after a parameter's optional name.
fn after_name(s: &Vec<u8>, i: usize) -> (r: usize)
    requires
        i <= s@.len(),
    ensures
        r == spec_after_name(s@, i as int),
        i <= r <= s@.len(),
{
    let j = skip_ws(s, i);
    if j < s.len() {
        let b = s[j];
        if (97 <= b && b <= 122) || (65 <= b && b <= 90) || b == 95 {
            return scan_ident_end(s, j);
        }
    }
    i
}

/// The parameters after one that was not a lone `void`.
fn params_rest(s: &Vec<u8>, i: usize) -> (r: Result<(Vec<CType>, usize), TypeErr>)
    requires
        i <= s@.len(),
    ensures
        params_res_view(r) == spec_params_rest(s@, i as int, Seq::empty()),
        (r matches Ok((v, k)) ==> i < k <= s@.len()),
{
    let mut acc: Vec<CType> = Vec::new();
    let mut pos: usize = i;
    loop
        invariant
            i <= pos <= s@.len(),
            spec_params_rest(s@, i as int, Seq::empty()) == spec_params_rest(
                s@,
                pos as int,
                acc@,
            ),
        decreases s@.len() - pos,
    {
        match parse_type(s, pos) {
            Err(e) => {
                return Err(e);
            },
            Ok((t, k)) => {
                if t == CType::Base(BaseType::Void) {
                    let mut c: Vec<u8> = Vec::new();
                    c.push(118);
                    c.push(111);
                    c.push(105);
                    c.push(100);
                    proof {
                        assert(c@ =~= kw_void());
                    }
                    return Err(TypeErr::Unsupported { construct: c, next: k });
                }
                let m = after_name(s, k);
                let j = skip_ws(s, m);
                if j < s.len() && s[j] == 44 {
                    acc.push(t);
                    pos = j + 1;
                } else if j < s.len() && s[j] == 41 {
                    acc.push(t);
                    return Ok((acc, j + 1));
                } else {
                    return Err(TypeErr::Malformed { pos: j });
                }
            },
        }
    }
}

/// The parameter list after the opening parenthesis.
fn parse_params(s: &Vec<u8>, i: usize) -> (r: Result<(Vec<CType>, usize), TypeErr>)
    requires
        i <= s@.len(),
    ensures
        params_res_view(r) == spec_parse_params(s@, i as int),
        (r matches Ok((v, k)) ==> i < k <= s@.len()),
{
    let j = skip_ws(s, i);
    if j < s.len() && s[j] == 41 {
        return Ok((Vec::new(), j + 1));
    }
    match parse_type(s, j) {
        Err(e) => Err(e),
        Ok((t, k)) => {
            if t == CType::Base(BaseType::Void) {
                let m = skip_ws(s, k);
                if m < s.len() && s[m] == 41 {
                    Ok((Vec::new(), m + 1))
                } else {
                    Err(TypeErr::Malformed { pos: m })
                }
            } else {
                params_rest(s, j)
            }
        },
    }
}

/// The identifier after `i`, for naming the symbol in error reports.
fn peek_symbol(s: &Vec<u8>, i: usize) -> (r: Vec<u8>)
    requires
        i <= s@.len(),
    ensures
        r@ == peek_ident(s@, i as int),
{
    let j = skip_ws(s, i);
    if j < s.len() {
        let b = s[j];
        if (97 <= b && b <= 122) || (65 <= b && b <= 90) || b == 95 {
            let e = scan_ident_end(s, j);
            return copy_range(s, j, e);
        }
    }
    Vec::new()
}

/// One declaration starting at `i`, or `None` when only skippable
/// input remains.
pub fn parse_decl(s: &Vec<u8>, i: usize) -> (r: Result<Option<(Declaration, usize)>, ParseErr>)
    requires
        i <= s@.len(),
    ensures
        decl_res_view(r) == spec_parse_decl(s@, i as int),
        (r matches Ok(Some((d, n))) ==> i < n <= s@.len()),
{
    let j = skip_ws(s, i);
    if j >= s.len() {
        return Ok(None);
    }
    match parse_type(s, j) {
        Err(TypeErr::Unsupported { construct, next }) => {
            Err(ParseErr::Unsupported { symbol: peek_symbol(s, next), construct })
        },
        Err(TypeErr::Malformed { pos }) => Err(ParseErr::Malformed { pos }),
        Ok((ret, k)) => {
            let m = skip_ws(s, k);
            if m < s.len() {
                let b = s[m];
                if (97 <= b && b <= 122) || (65 <= b && b <= 90) || b == 95 {
                    let e = scan_ident_end(s, m);
                    if classify_range(s, m, e) != Word::Other {
                        return Err(ParseErr::Malformed { pos: m });
                    }
                    let name = copy_range(s, m, e);
                    let p = skip_ws(s, e);
                    if p < s.len() && s[p] == 40 {
                        match parse_params(s, p + 1) {
                            Err(TypeErr::Unsupported { construct, .. }) => {
                                Err(ParseErr::Unsupported { symbol: name, construct })
                            },
                            Err(TypeErr::Malformed { pos }) => Err(ParseErr::Malformed { pos }),
                            Ok((params, q)) => {
                                let z = skip_ws(s, q);
                                if z < s.len() && s[z] == 59 {
                                    Ok(
                                        Some(
                                            (
                                                Declaration {
                                                    name,
                                                    params,
                                                    ret,
                                                    conv: CallConv::C,
                                                },
                                                z + 1,
                                            ),
                                        ),
                                    )
                                } else {
                                    Err(ParseErr::Malformed { pos: z })
                                }
                            },
                        }
                    } else {
                        Err(ParseErr::Malformed { pos: p })
                    }
                } else {
                    Err(ParseErr::Malformed { pos: m })
                }
            } else {
                Err(ParseErr::Malformed { pos: m })
            }
        },
    }
}

/// Every declaration of the header text, in file order.
pub fn parse_header(s: &Vec<u8>) -> (r: Result<Vec<Declaration>, ParseErr>)
    ensures
        header_res_view(r) == spec_parse_header(s@),
{
    let mut out: Vec<Declaration> = Vec::new();
    let mut pos: usize = 0;
    loop
        invariant
            pos <= s@.len(),
            (match spec_parse_header_from(s@, pos as int) {
                Ok(rest) => spec_parse_header(s@) == Ok::<Seq<DeclView>, ParseErrView>(
                    decl_views(out@) + rest,
                ),
                Err(e) => spec_parse_header(s@) == Err::<Seq<DeclView>, ParseErrView>(e),
            }),
        decreases s@.len() - pos,
    {
        match parse_decl(s, pos) {
            Err(e) => {
                return Err(e);
            },
            Ok(None) => {
                proof {
                    assert(decl_views(out@) + Seq::<DeclView>::empty() =~= decl_views(out@));
                }
                return Ok(out);
            },
            Ok(Some((d, n))) => {
                let ghost old_out = out@;
                out.push(d);
                proof {
                    assert(decl_views(old_out.push(d)) =~= decl_views(old_out) + seq![d@]);
                    if spec_parse_header_from(s@, n as int) is Ok {
                        let rest = spec_parse_header_from(s@, n as int)->Ok_0;
                        assert(decl_views(old_out) + (seq![d@] + rest) =~= decl_views(out@) + rest);
                    }
                }
                pos = n;
            },
        }
    }
}

} // verus!
