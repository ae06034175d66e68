use bindpipe::decl::{BaseType, CType, CallConv, HeaderFile};
use bindpipe::error::TranslateError;
use bindpipe::render::render_decls;
use bindpipe::translate::translate;

fn bv(s: &str) -> Vec<u8> {
    s.as_bytes().to_vec()
}

fn header(path: &str, text: &str) -> HeaderFile {
    HeaderFile { path: bv(path), text: bv(text) }
}

#[test]
fn translates_single_declaration() {
    let hs = vec![header("lib.h", "int mid_exit(int status);")];
    let ds = translate(&hs).unwrap();
    assert_eq!(ds.len(), 1);
    assert_eq!(ds[0].name, bv("mid_exit"));
    assert_eq!(ds[0].params, vec![CType::Base(BaseType::Int)]);
    assert_eq!(ds[0].ret, CType::Base(BaseType::Int));
    assert_eq!(ds[0].conv, CallConv::C);
}

#[test]
fn two_headers_same_symbol_different_signatures_ambiguous() {
    let hs = vec![header("a.h", "int foo(int);"), header("b.h", "int foo(int, int);")];
    let e = translate(&hs).unwrap_err();
    assert_eq!(
        e,
        TranslateError::Ambiguous {
            symbol: bv("foo"),
            first_header: bv("a.h"),
            second_header: bv("b.h"),
        }
    );
}

#[test]
fn duplicate_symbol_same_signature_still_ambiguous() {
    let hs = vec![header("a.h", "int foo(int);"), header("b.h", "int foo(int);")];
    let e = translate(&hs).unwrap_err();
    assert_eq!(
        e,
        TranslateError::Ambiguous {
            symbol: bv("foo"),
            first_header: bv("a.h"),
            second_header: bv("b.h"),
        }
    );
}

#[test]
fn unsupported_return_construct_names_symbol() {
    let hs = vec![header("h.h", "double half(int x);")];
    let e = translate(&hs).unwrap_err();
    assert_eq!(
        e,
        TranslateError::Unsupported {
            header: bv("h.h"),
            symbol: bv("half"),
            construct: bv("double"),
        }
    );
}

#[test]
fn unsupported_parameter_construct_names_symbol() {
    let hs = vec![header("h.h", "int f(float x);")];
    let e = translate(&hs).unwrap_err();
    assert_eq!(
        e,
        TranslateError::Unsupported { header: bv("h.h"), symbol: bv("f"), construct: bv("float") }
    );
}

#[test]
fn double_pointer_is_unsupported() {
    let hs = vec![header("h.h", "int **p();")];
    let e = translate(&hs).unwrap_err();
    assert_eq!(
        e,
        TranslateError::Unsupported { header: bv("h.h"), symbol: bv("p"), construct: bv("**") }
    );
}

#[test]
fn malformed_header_reports_position() {
    let hs = vec![header("h.h", "int ;")];
    let e = translate(&hs).unwrap_err();
    assert_eq!(e, TranslateError::Malformed { header: bv("h.h"), pos: 4 });
}

#[test]
fn skips_whitespace_and_line_comments() {
    let hs = vec![header("h.h", "// exported entry\nint a(char c, short s);")];
    let ds = translate(&hs).unwrap();
    assert_eq!(ds.len(), 1);
    assert_eq!(ds[0].name, bv("a"));
    assert_eq!(ds[0].params, vec![CType::Base(BaseType::Char), CType::Base(BaseType::Short)]);
}

#[test]
fn lone_void_means_no_parameters() {
    let hs = vec![header("h.h", "void stop(void);")];
    let ds = translate(&hs).unwrap();
    assert_eq!(ds[0].params, Vec::<CType>::new());
    assert_eq!(ds[0].ret, CType::Base(BaseType::Void));
}

#[test]
fn pointer_and_unsigned_types() {
    let hs = vec![header("h.h", "unsigned long *mk();")];
    let ds = translate(&hs).unwrap();
    assert_eq!(ds[0].name, bv("mk"));
    assert_eq!(ds[0].params, Vec::<CType>::new());
    assert_eq!(ds[0].ret, CType::Ptr(BaseType::ULong));
}

#[test]
fn signed_and_unsigned_base_types() {
    let hs = vec![header("h.h", "int g(signed char c, unsigned x, unsigned short u);")];
    let ds = translate(&hs).unwrap();
    assert_eq!(
        ds[0].params,
        vec![
            CType::Base(BaseType::Char),
            CType::Base(BaseType::UInt),
            CType::Base(BaseType::UShort),
        ]
    );
}

#[test]
fn empty_header_translates_to_nothing() {
    let hs = vec![header("h.h", "  // nothing exported\n")];
    let ds = translate(&hs).unwrap();
    assert_eq!(ds.len(), 0);
}

#[test]
fn several_declarations_in_file_order() {
    let hs = vec![header("h.h", "int first(void);\nchar second(int a);\nvoid third();")];
    let ds = translate(&hs).unwrap();
    assert_eq!(ds.len(), 3);
    assert_eq!(ds[0].name, bv("first"));
    assert_eq!(ds[1].name, bv("second"));
    assert_eq!(ds[2].name, bv("third"));
}

#[test]
fn repeated_translation_renders_byte_identical_output() {
    let text = "int mid_exit(int status);\nchar *greet(unsigned n);";
    let first = render_decls(&translate(&vec![header("lib.h", text)]).unwrap());
    let second = render_decls(&translate(&vec![header("lib.h", text)]).unwrap());
    assert_eq!(first, second);
}

#[test]
fn rendered_declarations_exact_bytes() {
    let hs = vec![header("lib.h", "char *greet(unsigned n, long k);")];
    let out = render_decls(&translate(&hs).unwrap());
    assert_eq!(out, bv("greet(u32, i64) -> *i8;\n"));
}
