//! Foreign types and translated declarations.
//!
//! A `Declaration` is one translated foreign symbol: its name, its
//! parameter types, its return type and a calling-convention tag.  The
//! translator produces declarations only for the type constructs listed
//! here; anything else in a header is reported as an unsupported
//! construct, never silently dropped.

use vstd::prelude::*;

verus! {

/// Base (non-pointer) foreign types the translator can represent.
#[derive(Clone, Copy, PartialEq, Eq, Structural, Debug)]
pub enum BaseType {
    Void,
    Char,
    UChar,
    Short,
    UShort,
    Int,
    UInt,
    Long,
    ULong,
}

/// A foreign type: a base type, or a single-level pointer to one.
#[derive(Clone, Copy, PartialEq, Eq, Structural, Debug)]
pub enum CType {
    Base(BaseType),
    Ptr(BaseType),
}

/// The calling convention of a translated symbol.  Every declaration a
/// C header exports uses the C convention; the tag is kept explicit so
/// a consumer never has to guess.
#[derive(Clone, Copy, PartialEq, Eq, Structural, Debug)]
pub enum CallConv {
    C,
}

/// One translated foreign symbol.
#[derive(Debug, PartialEq, Eq)]
pub struct Declaration {
    /// The symbol name, as spelled in the header.
    pub name: Vec<u8>,
    /// The parameter types, in order.  Parameter names in the header
    /// are parsed and discarded: only the types matter for a call.
    pub params: Vec<CType>,
    /// The return type.
    pub ret: CType,
    /// The calling convention tag.
    pub conv: CallConv,
}

/// The mathematical model of a `Declaration`.
pub struct DeclView {
    pub name: Seq<u8>,
    pub params: Seq<CType>,
    pub ret: CType,
    pub conv: CallConv,
}

impl View for Declaration {
    type V = DeclView;

    open spec fn view(&self) -> DeclView {
        DeclView { name: self.name@, params: self.params@, ret: self.ret, conv: self.conv }
    }
}

/// One header handed to the translator: the path it was read from (used
/// in error reports) and its text.  The caller reads the file; the
/// translator itself never touches the filesystem.
pub struct HeaderFile {
    pub path: Vec<u8>,
    pub text: Vec<u8>,
}

/// The mathematical model of a `HeaderFile`.
pub struct HeaderView {
    pub path: Seq<u8>,
    pub text: Seq<u8>,
}

impl View for HeaderFile {
    type V = HeaderView;

    open spec fn view(&self) -> HeaderView {
        HeaderView { path: self.path@, text: self.text@ }
    }
}

/// The views of a sequence of headers.
pub open spec fn header_views(hs: Seq<HeaderFile>) -> Seq<HeaderView> {
    hs.map_values(|h: HeaderFile| h@)
}

/// The views of a sequence of declarations.
pub open spec fn decl_views(ds: Seq<Declaration>) -> Seq<DeclView> {
    ds.map_values(|d: Declaration| d@)
}

} // verus!
