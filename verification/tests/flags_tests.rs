use bindpipe::artifact::{Artifact, ArtifactKind};
use bindpipe::config::{BuildSpec, Fingerprint, FlagPolicy, object_reusable, warning_is_fatal};
use bindpipe::emit::{LinkDirective, emit, render_directives};
use bindpipe::error::BuildError;
use bindpipe::toolchain::{RequestKind, build_policy_flags, link_request, push_dec};

fn bv(s: &str) -> Vec<u8> {
    s.as_bytes().to_vec()
}

fn dyn_spec() -> BuildSpec {
    BuildSpec {
        sources: vec![bv("a.c"), bv("b.c")],
        headers: vec![bv("a.h")],
        name: bv("mid"),
        out_dir: bv("out"),
        kind: ArtifactKind::Dynamic,
        policy: FlagPolicy { allowed_warnings: vec![] },
        aux_search_roots: vec![bv("aux")],
        allow_any_link_kind: true,
    }
}

#[test]
fn allow_listed_warning_is_not_fatal() {
    let p = FlagPolicy { allowed_warnings: vec![bv("div-by-zero")] };
    assert!(!warning_is_fatal(&p, &bv("div-by-zero")));
}

#[test]
fn unlisted_warning_is_fatal() {
    let p = FlagPolicy { allowed_warnings: vec![bv("div-by-zero")] };
    assert!(warning_is_fatal(&p, &bv("unused-variable")));
}

#[test]
fn empty_allow_list_escalates_everything() {
    let p = FlagPolicy { allowed_warnings: vec![] };
    assert!(warning_is_fatal(&p, &bv("div-by-zero")));
}

#[test]
fn policy_flag_list_is_fixed_and_ordered() {
    let p = FlagPolicy { allowed_warnings: vec![bv("div-by-zero"), bv("unused-value")] };
    assert_eq!(
        build_policy_flags(&p),
        vec![
            bv("-c"),
            bv("-v"),
            bv("-fPIC"),
            bv("-Wall"),
            bv("-Werror"),
            bv("-Wno-error=div-by-zero"),
            bv("-Wno-error=unused-value"),
        ]
    );
}

#[test]
fn dynamic_link_request_uses_shared_flag() {
    let req = link_request(&dyn_spec());
    assert_eq!(req.kind, RequestKind::LinkDynamic);
    assert_eq!(req.inputs, vec![bv("out/mid_0.o"), bv("out/mid_1.o")]);
    assert_eq!(req.output, bv("out/libmid.so"));
    assert_eq!(req.flags, vec![bv("-shared")]);
}

#[test]
fn emit_orders_roots_kind_then_fallback() {
    let spec = dyn_spec();
    let a = Artifact { path: bv("out/libmid.so"), kind: ArtifactKind::Dynamic };
    let ds = emit(&a, &spec).unwrap();
    assert_eq!(
        ds,
        vec![
            LinkDirective::SearchNative { path: bv("out") },
            LinkDirective::Search { path: bv("aux") },
            LinkDirective::LinkDynamic { name: bv("mid") },
            LinkDirective::LinkAny { name: bv("mid") },
        ]
    );
}

#[test]
fn emit_refuses_kind_that_was_not_built() {
    let spec = dyn_spec();
    let a = Artifact { path: bv("out/libmid.a"), kind: ArtifactKind::Static };
    let e = emit(&a, &spec).unwrap_err();
    assert_eq!(
        e,
        BuildError::LinkPolicy {
            requested: ArtifactKind::Dynamic,
            produced: ArtifactKind::Static,
        }
    );
}

#[test]
fn rendered_directives_exact_bytes() {
    let ds = vec![
        LinkDirective::SearchNative { path: bv("out") },
        LinkDirective::Search { path: bv("aux") },
        LinkDirective::LinkStatic { name: bv("mid") },
        LinkDirective::LinkDynamic { name: bv("mid") },
        LinkDirective::LinkAny { name: bv("mid") },
    ];
    let text = String::from_utf8(render_directives(&ds)).unwrap();
    assert_eq!(
        text,
        "cargo:rustc-link-search=native=out\n\
         cargo:rustc-link-search=aux\n\
         cargo:rustc-link-lib=static=mid\n\
         cargo:rustc-link-lib=dylib=mid\n\
         cargo:rustc-link-lib=mid\n"
    );
}

#[test]
fn decimal_rendering_multi_digit() {
    let mut v = Vec::new();
    push_dec(&mut v, 305);
    assert_eq!(v, bv("305"));
    let mut v = Vec::new();
    push_dec(&mut v, 0);
    assert_eq!(v, bv("0"));
}

#[test]
fn matching_fingerprints_allow_reuse() {
    let a = Fingerprint { source: 7, headers: vec![1, 2] };
    let b = Fingerprint { source: 7, headers: vec![1, 2] };
    assert!(object_reusable(&a, &b));
}

#[test]
fn changed_header_hash_forces_rebuild() {
    let a = Fingerprint { source: 7, headers: vec![1, 2] };
    let b = Fingerprint { source: 7, headers: vec![1, 3] };
    assert!(!object_reusable(&a, &b));
}

#[test]
fn changed_source_hash_forces_rebuild() {
    let a = Fingerprint { source: 7, headers: vec![1, 2] };
    let b = Fingerprint { source: 8, headers: vec![1, 2] };
    assert!(!object_reusable(&a, &b));
}
