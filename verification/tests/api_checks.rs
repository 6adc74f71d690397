use bridge_check::atom::Atom;
use bridge_check::check::{
    check_api_enum, check_api_fn, check_api_impl, check_api_struct, check_api_type,
    check_api_type_alias, check_multiple_arg_lifetimes, check_mut_return_restriction,
    check_reserved_name, span_for_enum_error, span_for_generics_error, span_for_receiver_error,
    span_for_struct_error, typecheck, Check,
};
use bridge_check::report::{Diagnostic, Errors};
use bridge_check::syntax::{
    Api, Derive, Enum, ExternFn, ExternType, Generics, Ident, Impl, Lang, Loc, NamedType, Pair,
    Receiver, Ref, Signature, Struct, Trait, Ty1, Type, TypeAlias, Var, Variant,
};
use bridge_check::types::{TrivialReason, Types};

fn loc(a: u32, b: u32) -> Loc<u32> {
    Loc { start: a, end: b }
}

fn ident(name: &str, span: u32) -> Ident<u32> {
    Ident { name: name.to_string(), span }
}

fn pair(name: &str, span: u32) -> Pair<u32> {
    Pair { namespace: Vec::new(), cxx: ident(name, span), rust: ident(name, span) }
}

fn named(name: &str, span: u32) -> Type<u32> {
    Type::Ident(NamedType { rust: ident(name, span), loc: loc(span, span + 1) })
}

fn reference(mutable: bool, inner: Type<u32>, at: u32) -> Type<u32> {
    Type::Ref(Box::new(Ref { pinned: false, mutable, inner, loc: loc(at, at + 2) }))
}

fn var(name: &str, ty: Type<u32>, at: u32) -> Var<u32> {
    Var { name: pair(name, at), ty, loc: loc(at, at + 5) }
}

fn derive(what: Trait, span: u32) -> Derive<u32> {
    Derive { what, span }
}

fn types() -> Types<u32> {
    Types {
        all: Vec::new(),
        structs: vec!["Shared".to_string()],
        enums: vec!["Color".to_string()],
        cxx: vec!["Opaque".to_string(), "Shared".to_string()],
        rust: vec!["RustThing".to_string()],
        aliases: Vec::new(),
        untrusted: vec![("Shared".to_string(), loc(90, 95))],
        required_trivial: Vec::new(),
    }
}

fn msgs(errors: &Errors<u32>) -> Vec<(Loc<u32>, String)> {
    errors.diagnostics.iter().map(|d| (d.loc, d.msg.clone())).collect()
}

fn run_with<F: FnOnce(&mut Check<u32>)>(types: &Types<u32>, f: F) -> Vec<(Loc<u32>, String)> {
    let mut cx = Check { apis: &[], types, errors: Errors::new() };
    f(&mut cx);
    msgs(&cx.errors)
}

fn run<F: FnOnce(&mut Check<u32>)>(f: F) -> Vec<(Loc<u32>, String)> {
    run_with(&types(), f)
}

fn sig(args: Vec<Var<u32>>, ret: Option<Type<u32>>) -> Signature<u32> {
    Signature {
        unsafety: None,
        fn_token: 60,
        generics: Generics { has_params: false, gt_token: 62 },
        receiver: None,
        args,
        ret,
        throws: false,
        loc: loc(60, 79),
    }
}

fn efn(lang: Lang, trusted: bool, sig: Signature<u32>) -> ExternFn<u32> {
    ExternFn { lang, name: pair("work", 61), sig, trusted, loc: loc(59, 80) }
}

fn receiver(ty: &str, mutable: bool, pinned: bool, shorthand: bool) -> Receiver<u32> {
    Receiver {
        pinned,
        mutable,
        shorthand,
        ampersand: 64,
        var: 66,
        ty: NamedType { rust: ident(ty, 67), loc: loc(67, 68) },
    }
}

#[test]
fn reserved_names() {
    for n in ["Box", "UniquePtr", "SharedPtr", "Vec", "CxxVector", "str", "u8", "String", "CxxString", "c_char"] {
        let got = run(|cx| check_reserved_name(cx, &ident(n, 5)));
        assert_eq!(got, vec![(loc(5, 5), "reserved name".to_string())], "{}", n);
    }
    assert!(run(|cx| check_reserved_name(cx, &ident("Boxed", 5))).is_empty());
    assert!(run(|cx| check_reserved_name(cx, &ident("char", 5))).is_empty());
}

fn strct(name: &str, derives: Vec<Derive<u32>>, fields: Vec<Var<u32>>) -> Struct<u32> {
    Struct { derives, struct_token: 1, name: pair(name, 2), brace_token: 9, fields }
}

#[test]
fn struct_without_fields_and_reserved_name() {
    let s = strct("Vec", vec![], vec![]);
    assert_eq!(span_for_struct_error(&s), loc(1, 9));
    let got = run(|cx| check_api_struct(cx, &s));
    assert_eq!(
        got,
        vec![
            (loc(2, 2), "reserved name".to_string()),
            (loc(1, 9), "structs without any fields are not supported".to_string()),
        ]
    );
}

#[test]
fn struct_shadowing_untrusted_extern_type() {
    let s = strct("Shared", vec![], vec![var("x", named("u8", 20), 20)]);
    let got = run(|cx| check_api_struct(cx, &s));
    assert_eq!(
        got,
        vec![(loc(90, 95), "extern shared struct must be declared in an `unsafe extern` block".to_string())]
    );
}

#[test]
fn struct_derives_and_fields() {
    let s = strct(
        "Point",
        vec![derive(Trait::Clone, 3), derive(Trait::ExternType, 4)],
        vec![
            var("f", Type::Fn(Box::new(sig(vec![], None))), 20),
            var("o", named("Opaque", 30), 30),
            var("s", named("CxxString", 40), 40),
            var("v", Type::Void(50), 50),
            var("n", named("i32", 55), 55),
        ],
    );
    let got = run(|cx| check_api_struct(cx, &s));
    assert_eq!(
        got,
        vec![
            (loc(4, 4), "derive(ExternType) on shared struct is not supported".to_string()),
            (loc(20, 25), "function pointers in a struct field are not implemented yet".to_string()),
            (loc(30, 35), "using opaque C++ type by value is not supported".to_string()),
            (loc(40, 45), "using C++ string by value is not supported".to_string()),
            (loc(50, 55), "using () by value is not supported".to_string()),
        ]
    );
}

fn enm(name: &str, derives: Vec<Derive<u32>>, variants: usize, explicit_repr: bool) -> Enum<u32> {
    let variants = (0..variants).map(|i| Variant { name: pair("V", 20 + i as u32) }).collect();
    Enum { derives, enum_token: 11, name: pair(name, 12), brace_token: 19, variants, explicit_repr }
}

#[test]
fn enum_checks() {
    let e = enm("Empty", vec![derive(Trait::Default, 3), derive(Trait::Debug, 4), derive(Trait::ExternType, 5)], 0, false);
    assert_eq!(span_for_enum_error(&e), loc(11, 19));
    let got = run(|cx| check_api_enum(cx, &e));
    assert_eq!(
        got,
        vec![
            (loc(11, 19), "explicit #[repr(...)] is required for enum without any variants".to_string()),
            (loc(3, 3), "derive(Default) on shared enum is not supported".to_string()),
            (loc(5, 5), "derive(ExternType) on shared enum is not supported".to_string()),
        ]
    );
    assert!(run(|cx| check_api_enum(cx, &enm("Empty", vec![], 0, true))).is_empty());
    assert!(run(|cx| check_api_enum(cx, &enm("Color", vec![derive(Trait::Hash, 3)], 2, false))).is_empty());
}

fn ety(lang: Lang, name: &str, derives: Vec<Derive<u32>>, bounds: Vec<Derive<u32>>) -> ExternType<u32> {
    ExternType { lang, derives, name: pair(name, 71), bounds, trusted: true, loc: loc(70, 79) }
}

#[test]
fn extern_type_derives_and_bounds() {
    let e = ety(Lang::Rust, "Thing", vec![derive(Trait::ExternType, 3), derive(Trait::Clone, 4)], vec![derive(Trait::Copy, 5), derive(Trait::Eq, 7)]);
    let got = run(|cx| check_api_type(cx, &e));
    assert_eq!(
        got,
        vec![
            (loc(4, 4), "derive(Clone) on opaque Rust type is not supported yet".to_string()),
            (loc(5, 7), "extern type bounds are not implemented yet".to_string()),
        ]
    );
    let e = ety(Lang::Cxx, "Thing", vec![derive(Trait::ExternType, 3)], vec![]);
    let got = run(|cx| check_api_type(cx, &e));
    assert_eq!(got, vec![(loc(3, 3), "derive(ExternType) on opaque C++ type is not supported yet".to_string())]);
}

#[test]
fn extern_type_required_trivial() {
    let cases = vec![
        (TrivialReason::StructField("Holder".to_string()), "a field of `Holder`"),
        (TrivialReason::FunctionArgument("take".to_string()), "an argument of `take`"),
        (TrivialReason::FunctionReturn("make".to_string()), "a return value of `make`"),
        (TrivialReason::BoxTarget, "Box<Thing>"),
        (TrivialReason::VecElement, "a vector element in Vec<Thing>"),
    ];
    for (reason, what) in cases {
        let types = Types { required_trivial: vec![("Thing".to_string(), reason)], ..types() };
        let got = run_with(&types, |cx| check_api_type(cx, &ety(Lang::Cxx, "Thing", vec![], vec![])));
        assert_eq!(got, vec![(loc(70, 79), format!("needs a cxx::ExternType impl in order to be used as {}", what))]);
    }
}

#[test]
fn extern_type_alias_derives() {
    let alias = TypeAlias { derives: vec![derive(Trait::Copy, 3), derive(Trait::Debug, 4)], name: pair("A", 5), loc: loc(1, 9) };
    let got = run(|cx| check_api_type_alias(cx, &alias));
    assert_eq!(
        got,
        vec![
            (loc(3, 3), "derive(Copy) on extern type alias is not supported".to_string()),
            (loc(4, 4), "derive(Debug) on extern type alias is not supported".to_string()),
        ]
    );
}

fn imp(negative: Option<u32>, ty: Type<u32>) -> Impl<u32> {
    Impl { negative_token: negative, ty, loc: loc(100, 110) }
}

fn ty1(name: &str, inner: Type<u32>) -> Ty1<u32> {
    Ty1 { name: ident(name, 102), inner, loc: loc(102, 108) }
}

#[test]
fn explicit_impls() {
    let boxed = Type::RustBox(Box::new(ty1("Box", named("Thing", 104))));
    assert!(run(|cx| check_api_impl(cx, &imp(None, boxed))).is_empty());
    let boxed = Type::UniquePtr(Box::new(ty1("UniquePtr", named("Thing", 104))));
    let got = run(|cx| check_api_impl(cx, &imp(Some(101), boxed)));
    assert_eq!(got, vec![(loc(101, 108), "negative impl is not supported yet".to_string())]);
    let of_builtin = Type::RustVec(Box::new(ty1("Vec", named("u8", 104))));
    let got = run(|cx| check_api_impl(cx, &imp(None, of_builtin)));
    assert_eq!(got, vec![(loc(100, 110), "unsupported Self type of explicit impl".to_string())]);
    let got = run(|cx| check_api_impl(cx, &imp(None, named("Thing", 104))));
    assert_eq!(got, vec![(loc(100, 110), "unsupported Self type of explicit impl".to_string())]);
}

#[test]
fn fn_generics() {
    let mut s = sig(vec![], None);
    s.generics.has_params = true;
    let f = efn(Lang::Cxx, false, s);
    assert_eq!(span_for_generics_error(&f), loc(60, 62));
    let got = run(|cx| check_api_fn(cx, &f));
    assert_eq!(got, vec![(loc(60, 62), "extern C++ function with lifetimes must be declared in `unsafe extern \"C++\"` block".to_string())]);
    let mut s = sig(vec![], None);
    s.generics.has_params = true;
    assert!(run(|cx| check_api_fn(cx, &efn(Lang::Cxx, true, s))).is_empty());
    let mut s = sig(vec![], None);
    s.generics.has_params = true;
    let got = run(|cx| check_api_fn(cx, &efn(Lang::Rust, false, s)));
    assert_eq!(got, vec![(loc(60, 62), "must be `unsafe fn work` in order to expose explicit lifetimes to C++".to_string())]);
    let mut s = sig(vec![], None);
    s.generics.has_params = true;
    s.unsafety = Some(58);
    let f = efn(Lang::Rust, false, s);
    assert_eq!(span_for_generics_error(&f), loc(58, 62));
    assert!(run(|cx| check_api_fn(cx, &f)).is_empty());
}

#[test]
fn fn_receivers() {
    let with = |r: Receiver<u32>| {
        let mut s = sig(vec![], None);
        s.receiver = Some(r);
        efn(Lang::Cxx, true, s)
    };
    let r = receiver("Self", true, false, true);
    assert_eq!(span_for_receiver_error(&r), loc(64, 66));
    let got = run(|cx| check_api_fn(cx, &with(r)));
    assert_eq!(got, vec![(loc(64, 66), "unnamed receiver type is only allowed if the surrounding extern block contains exactly one extern type; use `self: &mut TheType`".to_string())]);
    let got = run(|cx| check_api_fn(cx, &with(receiver("Self", false, false, true))));
    assert_eq!(got, vec![(loc(64, 66), "unnamed receiver type is only allowed if the surrounding extern block contains exactly one extern type; use `self: &TheType`".to_string())]);
    let r = receiver("Nobody", false, false, false);
    assert_eq!(span_for_receiver_error(&r), loc(64, 68));
    let got = run(|cx| check_api_fn(cx, &with(r)));
    assert_eq!(got, vec![(loc(64, 68), "unrecognized receiver type".to_string())]);
    let got = run(|cx| check_api_fn(cx, &with(receiver("Opaque", true, false, false))));
    assert_eq!(got, vec![(loc(64, 68), "mutable reference to C++ type requires a pin -- use `self: Pin<&mut Opaque>`".to_string())]);
    assert!(run(|cx| check_api_fn(cx, &with(receiver("Opaque", true, true, false)))).is_empty());
    assert!(run(|cx| check_api_fn(cx, &with(receiver("RustThing", true, false, true)))).is_empty());
}

#[test]
fn fn_arguments_and_return() {
    let fn_ptr = Type::Fn(Box::new(sig(vec![], None)));
    let args = vec![var("cb", fn_ptr.clone_fn(), 20), var("o", named("Opaque", 30), 30), var("n", named("u8", 40), 40)];
    let f = efn(Lang::Rust, false, sig(args, Some(named("RustThing", 50))));
    let got = run(|cx| check_api_fn(cx, &f));
    assert_eq!(
        got,
        vec![
            (loc(20, 25), "passing a function pointer from C++ to Rust is not implemented yet".to_string()),
            (loc(30, 35), "passing opaque C++ type by value is not supported".to_string()),
            (loc(50, 51), "returning opaque Rust type by value is not supported".to_string()),
        ]
    );
    let args = vec![var("cb", Type::Fn(Box::new(sig(vec![], None))), 20)];
    let f = efn(Lang::Cxx, true, sig(args, Some(Type::Fn(Box::new(sig(vec![], None))))));
    let got = run(|cx| check_api_fn(cx, &f));
    assert_eq!(got, vec![(loc(60, 79), "returning a function pointer is not implemented yet".to_string())]);
}

trait CloneFn {
    fn clone_fn(&self) -> Type<u32>;
}

impl CloneFn for Type<u32> {
    fn clone_fn(&self) -> Type<u32> {
        match self {
            Type::Fn(s) => Type::Fn(Box::new(Signature {
                unsafety: s.unsafety,
                fn_token: s.fn_token,
                generics: s.generics,
                receiver: None,
                args: Vec::new(),
                ret: None,
                throws: s.throws,
                loc: s.loc,
            })),
            _ => panic!("not a function pointer"),
        }
    }
}

#[test]
fn mut_return_restriction() {
    let f = efn(Lang::Cxx, true, sig(vec![var("a", reference(false, named("u8", 21), 20), 20)], Some(reference(true, named("u8", 51), 50))));
    let got = run(|cx| check_mut_return_restriction(cx, &f));
    assert_eq!(got, vec![(loc(59, 80), "&mut return type is not allowed unless there is a &mut argument".to_string())]);
    let got = run(|cx| check_api_fn(cx, &f));
    assert_eq!(got, vec![(loc(59, 80), "&mut return type is not allowed unless there is a &mut argument".to_string())]);
    let f = efn(Lang::Cxx, true, sig(vec![var("a", reference(true, named("u8", 21), 20), 20)], Some(reference(true, named("u8", 51), 50))));
    assert!(run(|cx| check_mut_return_restriction(cx, &f)).is_empty());
    // The rule is for C++ functions only.
    let f = efn(Lang::Rust, false, sig(vec![var("a", reference(false, named("u8", 21), 20), 20)], Some(reference(true, named("u8", 51), 50))));
    assert!(run(|cx| check_api_fn(cx, &f)).is_empty());
}

#[test]
fn multiple_arg_lifetimes() {
    let msg = "functions that return a reference must take exactly one input reference".to_string();
    let two = vec![var("a", reference(false, named("u8", 21), 20), 20), var("b", reference(false, named("u8", 31), 30), 30)];
    let f = efn(Lang::Rust, false, sig(two, Some(reference(false, named("u8", 51), 50))));
    assert_eq!(run(|cx| check_multiple_arg_lifetimes(cx, &f)), vec![(loc(59, 80), msg.clone())]);
    let f = efn(Lang::Rust, false, sig(vec![], Some(reference(false, named("u8", 51), 50))));
    assert_eq!(run(|cx| check_multiple_arg_lifetimes(cx, &f)), vec![(loc(59, 80), msg.clone())]);
    let mut s = sig(vec![var("a", reference(false, named("u8", 21), 20), 20)], Some(reference(false, named("u8", 51), 50)));
    s.receiver = Some(receiver("RustThing", false, false, true));
    let f = efn(Lang::Rust, false, s);
    assert_eq!(run(|cx| check_multiple_arg_lifetimes(cx, &f)), vec![(loc(59, 80), msg.clone())]);
    let mut s = sig(vec![var("a", named("u8", 21), 20)], Some(reference(false, named("u8", 51), 50)));
    s.receiver = Some(receiver("RustThing", false, false, true));
    assert!(run(|cx| check_multiple_arg_lifetimes(cx, &efn(Lang::Rust, false, s))).is_empty());
    let one = vec![var("a", reference(false, named("u8", 21), 20), 20)];
    assert!(run(|cx| check_multiple_arg_lifetimes(cx, &efn(Lang::Cxx, false, sig(one, Some(reference(false, named("u8", 51), 50)))))).is_empty());
    let two = vec![var("a", reference(false, named("u8", 21), 20), 20), var("b", reference(false, named("u8", 31), 30), 30)];
    assert!(run(|cx| check_multiple_arg_lifetimes(cx, &efn(Lang::Cxx, true, sig(two, Some(reference(false, named("u8", 51), 50)))))).is_empty());
    assert!(run(|cx| check_multiple_arg_lifetimes(cx, &efn(Lang::Rust, false, sig(vec![], Some(named("u8", 51)))))).is_empty());
}

#[test]
fn typecheck_whole_bridge_in_order() {
    let mut types = types();
    types.all = vec![named("Mystery", 1), Type::Void(2), named("u8", 3)];
    let apis = vec![
        Api::Include(loc(0, 0)),
        Api::Struct(strct("Point", vec![], vec![])),
        Api::TypeAlias(TypeAlias { derives: vec![derive(Trait::Copy, 7)], name: pair("A", 8), loc: loc(6, 9) }),
        Api::RustType(ety(Lang::Rust, "Vec", vec![], vec![])),
    ];
    let mut errors = Errors { diagnostics: vec![Diagnostic { loc: loc(0, 0), msg: "earlier".to_string() }] };
    typecheck(&mut errors, &apis, &types);
    assert_eq!(
        msgs(&errors),
        vec![
            (loc(0, 0), "earlier".to_string()),
            (loc(1, 1), "unsupported type: Mystery".to_string()),
            (loc(1, 9), "structs without any fields are not supported".to_string()),
            (loc(7, 7), "derive(Copy) on extern type alias is not supported".to_string()),
            (loc(71, 71), "reserved name".to_string()),
        ]
    );
}

#[test]
fn typecheck_empty_bridge_adds_nothing() {
    let types = Types::<u32> {
        all: Vec::new(),
        structs: Vec::new(),
        enums: Vec::new(),
        cxx: Vec::new(),
        rust: Vec::new(),
        aliases: Vec::new(),
        untrusted: Vec::new(),
        required_trivial: Vec::new(),
    };
    let mut errors = Errors::new();
    typecheck(&mut errors, &[], &types);
    assert!(errors.diagnostics.is_empty());
}

#[test]
fn items_checked_independently() {
    let types = types();
    let a = vec![Api::Struct(strct("Point", vec![], vec![]))];
    let b = vec![Api::Enum(enm("Empty", vec![], 0, false))];
    let both = vec![Api::Struct(strct("Point", vec![], vec![])), Api::Enum(enm("Empty", vec![], 0, false))];
    let mut ea = Errors::new();
    typecheck(&mut ea, &a, &types);
    let mut eb = Errors::new();
    let no_types = Types { all: Vec::new(), ..types };
    typecheck(&mut eb, &b, &no_types);
    let mut eab = Errors::new();
    typecheck(&mut eab, &both, &no_types);
    let mut joined = msgs(&ea);
    joined.extend(msgs(&eb));
    assert_eq!(msgs(&eab), joined);
}

#[test]
fn builtin_names_round_trip() {
    let all = [
        Atom::Bool, Atom::Char, Atom::U8, Atom::U16, Atom::U32, Atom::U64, Atom::Usize, Atom::I8,
        Atom::I16, Atom::I32, Atom::I64, Atom::Isize, Atom::F32, Atom::F64, Atom::CxxString,
        Atom::RustString,
    ];
    for a in all {
        assert_eq!(Atom::from(&a.as_str().to_string()), Some(a));
        let got = run(|cx| check_reserved_name(cx, &ident(a.as_str(), 1)));
        assert_eq!(got.len(), 1);
    }
    assert_eq!(Atom::from(&"char".to_string()), None);
}
