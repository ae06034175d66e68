use bindpipe::artifact::ArtifactKind;
use bindpipe::config::{BuildSpec, FlagPolicy};
use bindpipe::decl::{BaseType, CType, HeaderFile};
use bindpipe::emit::LinkDirective;
use bindpipe::error::{BuildError, Stage, stage_of};
use bindpipe::pipeline::{Phase, Pipeline};
use bindpipe::toolchain::{RequestKind, ToolchainResult};

fn bv(s: &str) -> Vec<u8> {
    s.as_bytes().to_vec()
}

fn mid_spec() -> BuildSpec {
    BuildSpec {
        sources: vec![bv("lib.c")],
        headers: vec![bv("lib.h")],
        name: bv("mid"),
        out_dir: bv("out"),
        kind: ArtifactKind::Static,
        policy: FlagPolicy { allowed_warnings: vec![bv("div-by-zero")] },
        aux_search_roots: vec![],
        allow_any_link_kind: false,
    }
}

fn ok_result() -> ToolchainResult {
    ToolchainResult::Ran { status: 0, diagnostics: Vec::new() }
}

#[test]
fn end_to_end_static_build() {
    let mut p = Pipeline::new(mid_spec());
    assert_eq!(p.phase, Phase::Init);
    p.start();

    let req = p.next_request();
    assert_eq!(req.kind, RequestKind::CompileObject);
    assert_eq!(req.inputs, vec![bv("lib.c")]);
    assert_eq!(req.output, bv("out/mid_0.o"));
    assert_eq!(
        req.flags,
        vec![bv("-c"), bv("-v"), bv("-fPIC"), bv("-Wall"), bv("-Werror"), bv(
            "-Wno-error=div-by-zero"
        )]
    );
    p.on_result(ok_result());
    assert_eq!(p.phase, Phase::Compiling);

    let req = p.next_request();
    assert_eq!(req.kind, RequestKind::ArchiveStatic);
    assert_eq!(req.inputs, vec![bv("out/mid_0.o")]);
    assert_eq!(req.output, bv("out/libmid.a"));
    assert_eq!(req.flags, Vec::<Vec<u8>>::new());
    p.on_result(ok_result());
    assert_eq!(p.phase, Phase::Linking);
    let a = p.artifact.as_ref().unwrap();
    assert_eq!(a.path, bv("out/libmid.a"));
    assert_eq!(a.kind, ArtifactKind::Static);

    p.compute_directives();
    assert_eq!(p.phase, Phase::Translating);
    assert_eq!(
        *p.link_directives(),
        vec![
            LinkDirective::SearchNative { path: bv("out") },
            LinkDirective::LinkStatic { name: bv("mid") },
        ]
    );

    let headers = vec![HeaderFile { path: bv("lib.h"), text: bv("int mid_exit(int status);") }];
    p.translate_headers(&headers);
    assert_eq!(p.phase, Phase::Done);
    let ds = p.decls.as_ref().unwrap();
    assert_eq!(ds.len(), 1);
    assert_eq!(ds[0].name, bv("mid_exit"));
    assert_eq!(ds[0].params, vec![CType::Base(BaseType::Int)]);
    assert_eq!(ds[0].ret, CType::Base(BaseType::Int));
    assert_eq!(p.generated_output(), bv("mid_exit(i32) -> i32;\n"));
}

#[test]
fn failed_compile_registers_no_artifact() {
    let mut spec = mid_spec();
    spec.sources = vec![bv("good.c"), bv("bad.c")];
    let mut p = Pipeline::new(spec);
    p.start();
    p.on_result(ok_result());
    assert_eq!(p.phase, Phase::Compiling);
    p.on_result(ToolchainResult::Ran { status: 1, diagnostics: bv("boom") });
    assert_eq!(p.phase, Phase::Failed);
    assert_eq!(
        p.error,
        Some(BuildError::Compile { file: bv("bad.c"), diagnostics: bv("boom") })
    );
    assert!(p.artifact.is_none());
    assert!(p.directives.is_none());
    assert!(p.decls.is_none());
}

#[test]
fn failed_link_registers_no_artifact() {
    let mut p = Pipeline::new(mid_spec());
    p.start();
    p.on_result(ok_result());
    p.on_result(ToolchainResult::Ran { status: 2, diagnostics: bv("ar: no such file") });
    assert_eq!(p.phase, Phase::Failed);
    assert_eq!(
        p.error,
        Some(BuildError::Compile { file: bv("out/libmid.a"), diagnostics: bv("ar: no such file") })
    );
    assert!(p.artifact.is_none());
    assert!(p.directives.is_none());
}

#[test]
fn launch_failure_is_tool_invocation_error() {
    let mut p = Pipeline::new(mid_spec());
    p.start();
    p.on_result(ToolchainResult::NotLaunched { message: bv("missing toolchain") });
    assert_eq!(p.phase, Phase::Failed);
    assert_eq!(p.error, Some(BuildError::ToolInvocation { message: bv("missing toolchain") }));
    assert!(p.artifact.is_none());
    assert!(p.directives.is_none());
}

#[test]
fn translation_failure_is_terminal() {
    let mut p = Pipeline::new(mid_spec());
    p.start();
    p.on_result(ok_result());
    p.on_result(ok_result());
    p.compute_directives();
    let headers = vec![HeaderFile { path: bv("lib.h"), text: bv("double bad();") }];
    p.translate_headers(&headers);
    assert_eq!(p.phase, Phase::Failed);
    match p.error.as_ref().unwrap() {
        BuildError::Translate { inner } => {
            assert_eq!(
                *inner,
                bindpipe::error::TranslateError::Unsupported {
                    header: bv("lib.h"),
                    symbol: bv("bad"),
                    construct: bv("double"),
                }
            );
        },
        other => panic!("unexpected error {:?}", other),
    }
    assert!(p.decls.is_none());
}

#[test]
fn watch_paths_are_sources_then_headers() {
    let mut spec = mid_spec();
    spec.sources = vec![bv("a.c"), bv("b.c")];
    spec.headers = vec![bv("a.h")];
    let p = Pipeline::new(spec);
    assert_eq!(p.watch_paths(), vec![bv("a.c"), bv("b.c"), bv("a.h")]);
}

#[test]
fn stage_of_each_error() {
    assert_eq!(stage_of(&BuildError::ToolInvocation { message: bv("m") }), Stage::Compiling);
    assert_eq!(
        stage_of(&BuildError::Compile { file: bv("f"), diagnostics: bv("d") }),
        Stage::Compiling
    );
    assert_eq!(
        stage_of(&BuildError::Translate {
            inner: bindpipe::error::TranslateError::Malformed { header: bv("h"), pos: 0 },
        }),
        Stage::Translating
    );
    assert_eq!(
        stage_of(&BuildError::LinkPolicy {
            requested: ArtifactKind::Static,
            produced: ArtifactKind::Dynamic,
        }),
        Stage::Linking
    );
}

#[test]
fn test_my_macro1() {
}

#[test]
fn repeated_runs_give_identical_generated_output() {
    let run = || {
        let mut p = Pipeline::new(mid_spec());
        p.start();
        p.on_result(ok_result());
        p.on_result(ok_result());
        p.compute_directives();
        let headers = vec![
            HeaderFile { path: bv("lib.h"), text: bv("int mid_exit(int status);") },
        ];
        p.translate_headers(&headers);
        p.generated_output()
    };
    assert_eq!(run(), run());
}
