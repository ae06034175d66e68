//! Toolchain requests and results.
//!
//! A `ToolchainRequest` describes one compiler invocation, derived
//! from the build unit: the exact argument list is implied by the
//! request, with no hidden flag injection beyond the documented
//! policy.  Launching the process is the caller's job; it reports back
//! a `ToolchainResult`, and every failure is a value — the invoker
//! never throws past its boundary.

use vstd::prelude::*;
use crate::artifact::ArtifactKind;
use crate::bytes::{copy_bytes, push_bytes, views};
use crate::config::{BuildSpec, BuildSpecView, FlagPolicy};

verus! {

/// `-c`: compile only.
pub open spec fn flag_compile_only() -> Seq<u8> {
    seq![45u8, 99u8]
}

/// `-v`: verbose diagnostics.
pub open spec fn flag_verbose() -> Seq<u8> {
    seq![45u8, 118u8]
}

/// `-fPIC`: position-independent code.
pub open spec fn flag_pic() -> Seq<u8> {
    seq![45u8, 102u8, 80u8, 73u8, 67u8]
}

/// `-Wall`: every warning on.
pub open spec fn flag_all_warnings() -> Seq<u8> {
    seq![45u8, 87u8, 97u8, 108u8, 108u8]
}

/// `-Werror`: warnings escalated to errors.
pub open spec fn flag_warnings_as_errors() -> Seq<u8> {
    seq![45u8, 87u8, 101u8, 114u8, 114u8, 111u8, 114u8]
}

/// `-Wno-error=`: the prefix that suppresses one warning's escalation.
pub open spec fn no_error_prefix() -> Seq<u8> {
    seq![45u8, 87u8, 110u8, 111u8, 45u8, 101u8, 114u8, 114u8, 111u8, 114u8, 61u8]
}

/// The suppression flag for one allow-listed warning.
pub open spec fn suppression_flag(w: Seq<u8>) -> Seq<u8> {
    no_error_prefix() + w
}

/// `-shared`: produce a dynamic object.
pub open spec fn flag_shared() -> Seq<u8> {
    seq![45u8, 115u8, 104u8, 97u8, 114u8, 101u8, 100u8]
}

/// The full, fixed flag list of one compilation under the policy:
/// compile-only, verbose, position-independent code, all warnings as
/// errors, then one suppression per allow-listed warning, in list
/// order.  Nothing else is ever injected.
pub open spec fn spec_policy_flags(allowed: Seq<Seq<u8>>) -> Seq<Seq<u8>> {
    seq![
        flag_compile_only(),
        flag_verbose(),
        flag_pic(),
        flag_all_warnings(),
        flag_warnings_as_errors(),
    ] + allowed.map_values(|w: Seq<u8>| suppression_flag(w))
}

/// Builds the policy's flag list.
pub fn build_policy_flags(p: &FlagPolicy) -> (r: Vec<Vec<u8>>)
    ensures
        views(r@) == spec_policy_flags(p@),
{
    let mut r: Vec<Vec<u8>> = Vec::new();
    let mut f: Vec<u8> = Vec::new();
    f.push(45);
    f.push(99);
    proof {
        assert(f@ =~= flag_compile_only());
    }
    r.push(f);
    let mut f: Vec<u8> = Vec::new();
    f.push(45);
    f.push(118);
    proof {
        assert(f@ =~= flag_verbose());
    }
    r.push(f);
    let mut f: Vec<u8> = Vec::new();
    f.push(45);
    f.push(102);
    f.push(80);
    f.push(73);
    f.push(67);
    proof {
        assert(f@ =~= flag_pic());
    }
    r.push(f);
    let mut f: Vec<u8> = Vec::new();
    f.push(45);
    f.push(87);
    f.push(97);
    f.push(108);
    f.push(108);
    proof {
        assert(f@ =~= flag_all_warnings());
    }
    r.push(f);
    let mut f: Vec<u8> = Vec::new();
    f.push(45);
    f.push(87);
    f.push(101);
    f.push(114);
    f.push(114);
    f.push(111);
    f.push(114);
    proof {
        assert(f@ =~= flag_warnings_as_errors());
    }
    r.push(f);
    proof {
        assert(views(r@) =~= spec_policy_flags(p@.subrange(0, 0)));
    }
    let mut i: usize = 0;
    while i < p.allowed_warnings.len()
        invariant
            i <= p.allowed_warnings@.len(),
            views(r@) == spec_policy_flags(p@.subrange(0, i as int)),
        decreases p.allowed_warnings@.len() - i,
    {
        let mut f: Vec<u8> = Vec::new();
        f.push(45);
        f.push(87);
        f.push(110);
        f.push(111);
        f.push(45);
        f.push(101);
        f.push(114);
        f.push(114);
        f.push(111);
        f.push(114);
        f.push(61);
        proof {
            assert(f@ =~= no_error_prefix());
        }
        push_bytes(&mut f, p.allowed_warnings[i].as_slice());
        proof {
            assert(p@[i as int] == p.allowed_warnings@[i as int]@);
            assert(f@ == suppression_flag(p@[i as int]));
        }
        let ghost before = r@;
        let ghost fv = f@;
        r.push(f);
        proof {
            let lhs = views(r@);
            let rhs = spec_policy_flags(p@.subrange(0, i as int + 1));
            assert(r@.len() == before.len() + 1);
            assert(views(before).len() == before.len());
            assert(views(before) == spec_policy_flags(p@.subrange(0, i as int)));
            assert(spec_policy_flags(p@.subrange(0, i as int)).len() == 5 + i);
            assert(rhs.len() == 5 + p@.subrange(0, i as int + 1).len());
            assert(lhs.len() == rhs.len());
            assert forall|k: int| 0 <= k < lhs.len() implies lhs[k] == rhs[k] by {
                if k < 5 + i {
                    assert(lhs[k] == views(before)[k]);
                    assert(views(before)[k] == spec_policy_flags(p@.subrange(0, i as int))[k]);
                    if k >= 5 {
                        assert(p@.subrange(0, i as int + 1)[k - 5] == p@.subrange(
                            0,
                            i as int,
                        )[k - 5]);
                    }
                } else {
                    assert(lhs[k] == fv);
                    assert(p@.subrange(0, i as int + 1)[k - 5] == p@[i as int]);
                }
            }
            assert(lhs =~= rhs);
        }
        i = i + 1;
    }
    proof {
        assert(p@.subrange(0, p@.len() as int) =~= p@);
    }
    r
}

/// `file` under directory `dir`, separated by a slash.
pub open spec fn joined(dir: Seq<u8>, file: Seq<u8>) -> Seq<u8> {
    dir + seq![47u8] + file
}

/// Joins a directory and a file name.
pub fn join_path(dir: &Vec<u8>, file: &Vec<u8>) -> (r: Vec<u8>)
    ensures
        r@ == joined(dir@, file@),
{
    let mut r = copy_bytes(dir);
    r.push(47);
    push_bytes(&mut r, file.as_slice());
    proof {
        assert(r@ =~= joined(dir@, file@));
    }
    r
}

/// The decimal digits of `n`, most significant first.
pub open spec fn dec_digits(n: nat) -> Seq<u8>
    decreases n,
{
    if n < 10 {
        seq![(48 + n) as u8]
    } else {
        dec_digits(n / 10) + seq![(48 + n % 10) as u8]
    }
}

/// Appends the decimal digits of `n`.
pub fn push_dec(out: &mut Vec<u8>, n: usize)
    ensures
        final(out)@ == old(out)@ + dec_digits(n as nat),
    decreases n,
{
    if n < 10 {
        out.push(48 + n as u8);
        proof {
            assert(out@ =~= old(out)@ + dec_digits(n as nat));
        }
    } else {
        push_dec(out, n / 10);
        out.push(48 + (n % 10) as u8);
        proof {
            assert(out@ =~= old(out)@ + dec_digits(n as nat));
        }
    }
}

/// The file name of the `i`-th intermediate object: the artifact name,
/// an underscore, the source index, and `.o`.
pub open spec fn object_file(name: Seq<u8>, i: int) -> Seq<u8> {
    name + seq![95u8] + dec_digits(i as nat) + seq![46u8, 111u8]
}

/// Where the `i`-th intermediate object is placed.
pub open spec fn spec_object_path(b: BuildSpecView, i: int) -> Seq<u8> {
    joined(b.out_dir, object_file(b.name, i))
}

/// Every intermediate object path, in source order.
pub open spec fn spec_object_paths(b: BuildSpecView) -> Seq<Seq<u8>> {
    Seq::new(b.sources.len(), |i: int| spec_object_path(b, i))
}

/// The file name of the artifact: `lib`, the name, and the extension
/// of the kind actually built.
pub open spec fn artifact_file(name: Seq<u8>, kind: ArtifactKind) -> Seq<u8> {
    seq![108u8, 105u8, 98u8] + name + (match kind {
        ArtifactKind::Static => seq![46u8, 97u8],
        ArtifactKind::Dynamic => seq![46u8, 115u8, 111u8],
    })
}

/// Where the artifact is placed.
pub open spec fn spec_artifact_path(b: BuildSpecView) -> Seq<u8> {
    joined(b.out_dir, artifact_file(b.name, b.kind))
}

/// What one invocation is asked to do.
#[derive(Clone, Copy, PartialEq, Eq, Structural, Debug)]
pub enum RequestKind {
    /// Compile one source file to an object file.
    CompileObject,
    /// Collect the object files into a static archive.
    ArchiveStatic,
    /// Link the object files into a dynamic object.
    LinkDynamic,
}

/// One compiler invocation: inputs, output path and flags.  Owned by
/// the compiling stage for the duration of one invocation; the
/// launcher must pass exactly this argument list and may write only to
/// the declared output path.
#[derive(Debug, PartialEq, Eq)]
pub struct ToolchainRequest {
    pub kind: RequestKind,
    pub inputs: Vec<Vec<u8>>,
    pub output: Vec<u8>,
    pub flags: Vec<Vec<u8>>,
}

/// The mathematical model of a `ToolchainRequest`.
pub struct ToolchainRequestView {
    pub kind: RequestKind,
    pub inputs: Seq<Seq<u8>>,
    pub output: Seq<u8>,
    pub flags: Seq<Seq<u8>>,
}

impl View for ToolchainRequest {
    type V = ToolchainRequestView;

    open spec fn view(&self) -> ToolchainRequestView {
        ToolchainRequestView {
            kind: self.kind,
            inputs: views(self.inputs@),
            output: self.output@,
            flags: views(self.flags@),
        }
    }
}

/// What one invocation came to.  A non-zero exit status carries the
/// full diagnostic text and no artifact; a launch that failed outright
/// carries the launcher's message.  All failures are values.
pub enum ToolchainResult {
    Ran { status: i32, diagnostics: Vec<u8> },
    NotLaunched { message: Vec<u8> },
}

/// The mathematical model of a `ToolchainResult`.
pub enum ToolchainResultView {
    Ran { status: i32, diagnostics: Seq<u8> },
    NotLaunched { message: Seq<u8> },
}

impl View for ToolchainResult {
    type V = ToolchainResultView;

    open spec fn view(&self) -> ToolchainResultView {
        match self {
            ToolchainResult::Ran { status, diagnostics } => {
                ToolchainResultView::Ran { status: *status, diagnostics: diagnostics@ }
            },
            ToolchainResult::NotLaunched { message } => {
                ToolchainResultView::NotLaunched { message: message@ }
            },
        }
    }
}

/// The request that compiles source `i`: that one source, the object
/// output path, and the policy's fixed flag list.
pub open spec fn spec_object_request(b: BuildSpecView, i: int) -> ToolchainRequestView {
    ToolchainRequestView {
        kind: RequestKind::CompileObject,
        inputs: seq![b.sources[i]],
        output: spec_object_path(b, i),
        flags: spec_policy_flags(b.allowed_warnings),
    }
}

/// The request that turns all objects into the one artifact of the
/// requested kind.
pub open spec fn spec_link_request(b: BuildSpecView) -> ToolchainRequestView {
    ToolchainRequestView {
        kind: match b.kind {
            ArtifactKind::Static => RequestKind::ArchiveStatic,
            ArtifactKind::Dynamic => RequestKind::LinkDynamic,
        },
        inputs: spec_object_paths(b),
        output: spec_artifact_path(b),
        flags: match b.kind {
            ArtifactKind::Static => Seq::empty(),
            ArtifactKind::Dynamic => seq![flag_shared()],
        },
    }
}

/// Builds the object file name for source `i`.
fn object_file_name(b: &BuildSpec, i: usize) -> (r: Vec<u8>)
    ensures
        r@ == object_file(b@.name, i as int),
{
    let mut f = copy_bytes(&b.name);
    f.push(95);
    push_dec(&mut f, i);
    f.push(46);
    f.push(111);
    proof {
        assert(f@ =~= object_file(b@.name, i as int));
    }
    f
}

/// Builds the request that compiles source `i`.
pub fn object_request(b: &BuildSpec, i: usize) -> (r: ToolchainRequest)
    requires
        i < b.sources@.len(),
    ensures
        r@ == spec_object_request(b@, i as int),
{
    let mut inputs: Vec<Vec<u8>> = Vec::new();
    inputs.push(copy_bytes(&b.sources[i]));
    proof {
        assert(views(inputs@) =~= seq![b@.sources[i as int]]);
    }
    let file = object_file_name(b, i);
    let output = join_path(&b.out_dir, &file);
    let flags = build_policy_flags(&b.policy);
    let r = ToolchainRequest { kind: RequestKind::CompileObject, inputs, output, flags };
    proof {
        assert(r@ == spec_object_request(b@, i as int));
    }
    r
}

/// Builds the artifact's file name for the requested kind.
pub fn artifact_file_name(b: &BuildSpec) -> (r: Vec<u8>)
    ensures
        r@ == artifact_file(b@.name, b@.kind),
{
    let mut file: Vec<u8> = Vec::new();
    file.push(108);
    file.push(105);
    file.push(98);
    push_bytes(&mut file, b.name.as_slice());
    match b.kind {
        ArtifactKind::Static => {
            file.push(46);
            file.push(97);
        },
        ArtifactKind::Dynamic => {
            file.push(46);
            file.push(115);
            file.push(111);
        },
    }
    proof {
        assert(file@ =~= artifact_file(b@.name, b@.kind));
    }
    file
}

/// Builds the artifact's full output path.
pub fn artifact_path_of(b: &BuildSpec) -> (r: Vec<u8>)
    ensures
        r@ == spec_artifact_path(b@),
{
    let file = artifact_file_name(b);
    join_path(&b.out_dir, &file)
}

/// Builds the request that produces the artifact from the objects.
pub fn link_request(b: &BuildSpec) -> (r: ToolchainRequest)
    ensures
        r@ == spec_link_request(b@),
{
    let mut inputs: Vec<Vec<u8>> = Vec::new();
    let mut i: usize = 0;
    while i < b.sources.len()
        invariant
            i <= b.sources@.len(),
            views(inputs@).len() == i,
            forall|k: int| 0 <= k < i ==> views(inputs@)[k] == spec_object_path(b@, k),
        decreases b.sources@.len() - i,
    {
        let file = object_file_name(b, i);
        inputs.push(join_path(&b.out_dir, &file));
        i = i + 1;
    }
    proof {
        assert(views(inputs@) =~= spec_object_paths(b@));
    }
    let kind: RequestKind;
    let mut flags: Vec<Vec<u8>> = Vec::new();
    match b.kind {
        ArtifactKind::Static => {
            kind = RequestKind::ArchiveStatic;
        },
        ArtifactKind::Dynamic => {
            kind = RequestKind::LinkDynamic;
            let mut f: Vec<u8> = Vec::new();
            f.push(45);
            f.push(115);
            f.push(104);
            f.push(97);
            f.push(114);
            f.push(101);
            f.push(100);
            proof {
                assert(f@ =~= flag_shared());
            }
            flags.push(f);
        },
    }
    proof {
        assert(views(flags@) =~= spec_link_request(b@).flags);
    }
    let output = artifact_path_of(b);
    let r = ToolchainRequest { kind, inputs, output, flags };
    proof {
        assert(r@ == spec_link_request(b@));
    }
    r
}

} // verus!
