use bridge_check::check::{typecheck, Check};
use bridge_check::ident::{
    check, check_all, check_cxx_ident, check_rust_ident, contains_double_underscore,
    text_starts_with, CXXBRIDGE_RESERVED, DOUBLE_UNDERSCORE,
};
use bridge_check::report::Errors;
use bridge_check::syntax::{
    Api, Enum, ExternFn, ExternType, Generics, Ident, Impl, Lang, Loc, NamedType, Pair,
    Signature, Struct, Type, TypeAlias, Var, Variant,
};
use bridge_check::types::Types;

fn loc(a: u32, b: u32) -> Loc<u32> {
    Loc { start: a, end: b }
}

fn ident(name: &str, span: u32) -> Ident<u32> {
    Ident { name: name.to_string(), span }
}

fn pair(name: &str, span: u32) -> Pair<u32> {
    Pair { namespace: Vec::new(), cxx: ident(name, span), rust: ident(name, span) }
}

fn u8_type(span: u32) -> Type<u32> {
    Type::Ident(NamedType { rust: ident("u8", span), loc: loc(span, span) })
}

fn var(name: &str, at: u32) -> Var<u32> {
    Var { name: pair(name, at), ty: u8_type(at + 1), loc: loc(at, at + 1) }
}

fn no_types() -> Types<u32> {
    Types {
        all: Vec::new(),
        structs: Vec::new(),
        enums: Vec::new(),
        cxx: Vec::new(),
        rust: Vec::new(),
        aliases: Vec::new(),
        untrusted: Vec::new(),
        required_trivial: Vec::new(),
    }
}

fn msgs(errors: &Errors<u32>) -> Vec<(Loc<u32>, String)> {
    errors.diagnostics.iter().map(|d| (d.loc, d.msg.clone())).collect()
}

fn run<F: FnOnce(&mut Check<u32>)>(f: F) -> Vec<(Loc<u32>, String)> {
    let types = no_types();
    let mut cx = Check { apis: &[], types: &types, errors: Errors::new() };
    f(&mut cx);
    msgs(&cx.errors)
}

fn dunder(at: u32) -> (Loc<u32>, String) {
    (loc(at, at), DOUBLE_UNDERSCORE.to_string())
}

fn reserved(at: u32) -> (Loc<u32>, String) {
    (loc(at, at), CXXBRIDGE_RESERVED.to_string())
}

#[test]
fn messages() {
    assert_eq!(DOUBLE_UNDERSCORE, "identifiers containing double underscore are reserved in C++");
    assert_eq!(CXXBRIDGE_RESERVED, "identifiers starting with cxxbridge are reserved");
}

#[test]
fn text_helpers() {
    assert!(contains_double_underscore("a__b"));
    assert!(contains_double_underscore("__a"));
    assert!(contains_double_underscore("a__"));
    assert!(!contains_double_underscore("a_b_c"));
    assert!(!contains_double_underscore("_"));
    assert!(!contains_double_underscore(""));
    assert!(text_starts_with("cxxbridge1", "cxxbridge"));
    assert!(text_starts_with("cxxbridge", "cxxbridge"));
    assert!(!text_starts_with("cxxbridg", "cxxbridge"));
    assert!(!text_starts_with("my_cxxbridge", "cxxbridge"));
}

#[test]
fn cxx_and_rust_idents() {
    assert_eq!(run(|cx| check_cxx_ident(cx, &ident("a__b", 4))), vec![dunder(4)]);
    assert!(run(|cx| check_cxx_ident(cx, &ident("cxxbridge_x", 4))).is_empty());
    assert_eq!(run(|cx| check_rust_ident(cx, &ident("cxxbridge_x", 4))), vec![reserved(4)]);
    assert!(run(|cx| check_rust_ident(cx, &ident("a__b", 4))).is_empty());
}

#[test]
fn pair_checks_namespace_then_cxx_then_rust() {
    let name = Pair {
        namespace: vec![ident("ok", 1), ident("bad__ns", 2), ident("__x", 3)],
        cxx: ident("c__name", 4),
        rust: ident("cxxbridgeThing", 5),
    };
    assert_eq!(run(|cx| check(cx, &name)), vec![dunder(2), dunder(3), dunder(4), reserved(5)]);
    assert!(run(|cx| check(cx, &pair("Fine", 6))).is_empty());
}

fn sig(args: Vec<Var<u32>>) -> Signature<u32> {
    Signature {
        unsafety: None,
        fn_token: 60,
        generics: Generics { has_params: false, gt_token: 60 },
        receiver: None,
        args,
        ret: None,
        throws: false,
        loc: loc(60, 69),
    }
}

#[test]
fn struct_named_with_double_underscore() {
    let apis = vec![Api::Struct(Struct {
        derives: Vec::new(),
        struct_token: 1,
        name: pair("a__b", 2),
        brace_token: 9,
        fields: vec![var("x", 3)],
    })];
    let mut errors = Errors::new();
    typecheck(&mut errors, &apis, &no_types());
    assert_eq!(msgs(&errors), vec![dunder(2)]);
}

#[test]
fn every_declared_name_is_checked_in_order() {
    // Each name here is both the C++ and the Rust name: a double underscore
    // is reported once, for the C++ side.
    let apis = vec![
        Api::Include(loc(0, 0)),
        Api::Struct(Struct {
            derives: Vec::new(),
            struct_token: 1,
            name: pair("S", 2),
            brace_token: 9,
            fields: vec![var("f__1", 3), var("cxxbridge_f", 5)],
        }),
        Api::Enum(Enum {
            derives: Vec::new(),
            enum_token: 11,
            name: pair("E__", 12),
            brace_token: 19,
            variants: vec![Variant { name: pair("V__", 13) }],
            explicit_repr: false,
        }),
        Api::CxxType(ExternType {
            lang: Lang::Cxx,
            derives: Vec::new(),
            name: pair("cxxbridge_T", 21),
            bounds: Vec::new(),
            trusted: true,
            loc: loc(20, 22),
        }),
        Api::RustFunction(ExternFn {
            lang: Lang::Rust,
            name: pair("f", 31),
            sig: sig(vec![var("a__", 32)]),
            trusted: false,
            loc: loc(30, 40),
        }),
        Api::TypeAlias(TypeAlias { derives: Vec::new(), name: pair("A__", 41), loc: loc(40, 42) }),
        Api::Impl(Impl { negative_token: None, ty: u8_type(50), loc: loc(50, 51) }),
    ];
    let types = no_types();
    let mut cx = Check { apis: &apis, types: &types, errors: Errors::new() };
    check_all(&mut cx, &apis);
    assert_eq!(
        msgs(&cx.errors),
        vec![
            dunder(3),
            reserved(5),
            dunder(12),
            dunder(13),
            reserved(21),
            dunder(32),
            dunder(41),
        ]
    );
}

#[test]
fn identifier_errors_come_before_the_other_passes() {
    let apis = vec![Api::Struct(Struct {
        derives: Vec::new(),
        struct_token: 1,
        name: Pair { namespace: Vec::new(), cxx: ident("Ok", 2), rust: ident("cxxbridge1", 3) },
        brace_token: 9,
        fields: Vec::new(),
    })];
    let mut types = no_types();
    types.all = vec![Type::Ident(NamedType { rust: ident("Mystery", 7), loc: loc(7, 7) })];
    let mut errors = Errors::new();
    typecheck(&mut errors, &apis, &types);
    assert_eq!(
        msgs(&errors),
        vec![
            reserved(3),
            (loc(7, 7), "unsupported type: Mystery".to_string()),
            (loc(1, 9), "structs without any fields are not supported".to_string()),
        ]
    );
}

#[test]
fn plain_types_and_includes_add_nothing() {
    let mut types = no_types();
    types.all = vec![Type::Ident(NamedType { rust: ident("Mystery", 7), loc: loc(7, 7) })];
    let apis = vec![Api::TypeAlias(TypeAlias { derives: Vec::new(), name: pair("A__", 41), loc: loc(40, 42) })];
    let mut plain = no_types();
    plain.all = vec![
        Type::Str(loc(1, 2)),
        Type::Ident(NamedType { rust: ident("Mystery", 7), loc: loc(7, 7) }),
        Type::Void(3),
    ];
    let with_includes = vec![
        Api::Include(loc(0, 0)),
        Api::TypeAlias(TypeAlias { derives: Vec::new(), name: pair("A__", 41), loc: loc(40, 42) }),
        Api::Include(loc(5, 5)),
    ];
    let mut a = Errors::new();
    typecheck(&mut a, &apis, &types);
    let mut b = Errors::new();
    typecheck(&mut b, &with_includes, &plain);
    assert_eq!(msgs(&a), msgs(&b));
    assert_eq!(msgs(&a), vec![dunder(41), (loc(7, 7), "unsupported type: Mystery".to_string())]);
}
