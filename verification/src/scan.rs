//! Low-level scanning over header text.
//!
//! The declaration grammar is defined directly over byte sequences by
//! the spec functions here: byte classes, skipping of whitespace and
//! line comments, and identifier scanning.  Each executable function
//! returns exactly what its spec function denotes, so the parser built
//! on top is a pure function of the header text.

use vstd::prelude::*;

verus! {

/// Whitespace bytes of the header grammar: space, tab, LF, CR.
pub open spec fn is_ws(b: u8) -> bool {
    b == 32 || b == 9 || b == 10 || b == 13
}

/// Bytes that may start an identifier: letters and underscore.
pub open spec fn is_ident_start(b: u8) -> bool {
    (97 <= b && b <= 122) || (65 <= b && b <= 90) || b == 95
}

/// Decimal digit bytes.
pub open spec fn is_digit(b: u8) -> bool {
    48 <= b && b <= 57
}

/// Bytes that may continue an identifier.
pub open spec fn is_ident_char(b: u8) -> bool {
    is_ident_start(b) || is_digit(b)
}

/// The index of the first byte at or after `i` that belongs to the
/// grammar proper: whitespace and `//` line comments are skipped.
/// `in_comment` records whether position `i` lies inside a comment.
pub open spec fn skip_from(s: Seq<u8>, i: int, in_comment: bool) -> int
    decreases s.len() - i,
{
    if i < 0 || i >= s.len() {
        s.len() as int
    } else if in_comment {
        skip_from(s, i + 1, s[i] != 10)
    } else if is_ws(s[i]) {
        skip_from(s, i + 1, false)
    } else if s[i] == 47 && i + 1 < s.len() && s[i + 1] == 47 {
        skip_from(s, i + 2, true)
    } else {
        i
    }
}

/// Skipping, started outside a comment.
pub open spec fn skip(s: Seq<u8>, i: int) -> int {
    skip_from(s, i, false)
}

pub proof fn lemma_skip_from_bounds(s: Seq<u8>, i: int, in_comment: bool)
    requires
        0 <= i <= s.len(),
    ensures
        i <= skip_from(s, i, in_comment) <= s.len(),
    decreases s.len() - i,
{
    if i < s.len() {
        if in_comment {
            lemma_skip_from_bounds(s, i + 1, s[i] != 10);
        } else if is_ws(s[i]) {
            lemma_skip_from_bounds(s, i + 1, false);
        } else if s[i] == 47 && i + 1 < s.len() && s[i + 1] == 47 {
            lemma_skip_from_bounds(s, i + 2, true);
        }
    }
}

/// The end of the identifier that starts at `i`: the first index at or
/// after `i` whose byte is not an identifier byte.
pub open spec fn ident_end(s: Seq<u8>, i: int) -> int
    decreases s.len() - i,
{
    if 0 <= i && i < s.len() && is_ident_char(s[i]) {
        ident_end(s, i + 1)
    } else {
        i
    }
}

pub proof fn lemma_ident_end_bounds(s: Seq<u8>, i: int)
    requires
        0 <= i <= s.len(),
    ensures
        i <= ident_end(s, i) <= s.len(),
    decreases s.len() - i,
{
    if i < s.len() && is_ident_char(s[i]) {
        lemma_ident_end_bounds(s, i + 1);
    }
}

/// The identifier found after skipping from `i`, or the empty sequence
/// when what follows is not an identifier.  Used to name the symbol in
/// error reports when a declaration's return type is already
/// unsupported.
pub open spec fn peek_ident(s: Seq<u8>, i: int) -> Seq<u8> {
    let j = skip(s, i);
    if 0 <= j && j < s.len() && is_ident_start(s[j]) {
        s.subrange(j, ident_end(s, j))
    } else {
        Seq::empty()
    }
}

/// Skips whitespace and line comments, starting at `from`.
pub fn skip_ws(s: &Vec<u8>, from: usize) -> (r: usize)
    requires
        from <= s@.len(),
    ensures
        r == skip(s@, from as int),
        from <= r <= s@.len(),
{
    let mut i: usize = from;
    let mut in_comment: bool = false;
    loop
        invariant
            from <= i && i <= s@.len(),
            skip(s@, from as int) == skip_from(s@, i as int, in_comment),
        ensures
            i == skip(s@, from as int),
        decreases s@.len() - i,
    {
        if i >= s.len() {
            break ;
        }
        let b = s[i];
        if in_comment {
            if b == 10 {
                in_comment = false;
            }
            i = i + 1;
        } else {
            if b == 32 || b == 9 || b == 10 || b == 13 {
                i = i + 1;
            } else if b == 47 && i + 1 < s.len() && s[i + 1] == 47 {
                i = i + 2;
                in_comment = true;
            } else {
                break ;
            }
        }
    }
    i
}

/// Scans to the end of the identifier starting at `from`.
pub fn scan_ident_end(s: &Vec<u8>, from: usize) -> (r: usize)
    requires
        from <= s@.len(),
    ensures
        r == ident_end(s@, from as int),
        from <= r <= s@.len(),
{
    let mut i: usize = from;
    loop
        invariant
            from <= i && i <= s@.len(),
            ident_end(s@, from as int) == ident_end(s@, i as int),
        ensures
            i == ident_end(s@, from as int),
        decreases s@.len() - i,
    {
        if i >= s.len() {
            break ;
        }
        let b = s[i];
        if (97 <= b && b <= 122) || (65 <= b && b <= 90) || b == 95 || (48 <= b && b <= 57) {
            i = i + 1;
        } else {
            break ;
        }
    }
    i
}

/// Copies the bytes of `s` between `lo` and `hi` into a fresh vector.
pub fn copy_range(s: &Vec<u8>, lo: usize, hi: usize) -> (r: Vec<u8>)
    requires
        lo <= hi <= s@.len(),
    ensures
        r@ == s@.subrange(lo as int, hi as int),
{
    let mut out: Vec<u8> = Vec::new();
    let mut i: usize = lo;
    while i < hi
        invariant
            lo <= i && i <= hi <= s@.len(),
            out@ == s@.subrange(lo as int, i as int),
        decreases hi - i,
    {
        out.push(s[i]);
        proof {
            assert(s@.subrange(lo as int, i as int + 1) =~= s@.subrange(lo as int, i as int).push(
                s@[i as int],
            ));
        }
        i = i + 1;
    }
    out
}

} // verus!
