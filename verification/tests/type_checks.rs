use bridge_check::check::{
    check_type_array, check_type_box, check_type_cxx_vector, check_type_fn, check_type_ident,
    check_type_ref, check_type_rust_vec, check_type_shared_ptr, check_type_slice_ref,
    check_type_unique_ptr, describe, is_opaque_cxx, is_unsized, Check, BOX_CXX_TYPE,
};
use bridge_check::report::Errors;
use bridge_check::syntax::{
    Array, Generics, Ident, Loc, NamedType, Ref, Signature, SliceRef, Ty1, Type,
};
use bridge_check::types::{TrivialReason, Types};

fn loc(a: u32, b: u32) -> Loc<u32> {
    Loc { start: a, end: b }
}

fn ident(name: &str, span: u32) -> Ident<u32> {
    Ident { name: name.to_string(), span }
}

fn named(name: &str, span: u32) -> Type<u32> {
    Type::Ident(NamedType { rust: ident(name, span), loc: loc(span, span + 1) })
}

fn ty1(name: &str, inner: Type<u32>) -> Ty1<u32> {
    Ty1 { name: ident(name, 10), inner, loc: loc(10, 19) }
}

fn sig(throws: bool) -> Signature<u32> {
    Signature {
        unsafety: None,
        fn_token: 30,
        generics: Generics { has_params: false, gt_token: 31 },
        receiver: None,
        args: Vec::new(),
        ret: None,
        throws,
        loc: loc(30, 39),
    }
}

fn types() -> Types<u32> {
    Types {
        all: Vec::new(),
        structs: vec!["Shared".to_string()],
        enums: vec!["Color".to_string()],
        cxx: vec!["Opaque".to_string(), "Aliased".to_string(), "Trivial".to_string()],
        rust: vec!["RustThing".to_string()],
        aliases: vec!["Aliased".to_string(), "Trivial".to_string()],
        untrusted: Vec::new(),
        required_trivial: vec![("Trivial".to_string(), TrivialReason::BoxTarget)],
    }
}

fn msgs(errors: &Errors<u32>) -> Vec<(Loc<u32>, String)> {
    errors.diagnostics.iter().map(|d| (d.loc, d.msg.clone())).collect()
}

fn with_check<F: FnOnce(&mut Check<u32>)>(f: F) -> Vec<(Loc<u32>, String)> {
    let types = types();
    let mut cx = Check { apis: &[], types: &types, errors: Errors::new() };
    f(&mut cx);
    msgs(&cx.errors)
}

#[test]
fn ident_unknown_is_unsupported() {
    let got = with_check(|cx| check_type_ident(cx, &ident("Mystery", 3)));
    assert_eq!(got, vec![(loc(3, 3), "unsupported type: Mystery".to_string())]);
}

#[test]
fn ident_declared_or_builtin_is_fine() {
    for n in ["Shared", "Color", "Opaque", "RustThing", "u8", "c_char", "CxxString", "String"] {
        let got = with_check(|cx| check_type_ident(cx, &ident(n, 3)));
        assert!(got.is_empty(), "{}", n);
    }
}

#[test]
fn box_of_opaque_cxx() {
    let got = with_check(|cx| check_type_box(cx, &ty1("Box", named("Opaque", 12))));
    assert_eq!(got, vec![(loc(10, 19), BOX_CXX_TYPE.to_string())]);
    assert_eq!(BOX_CXX_TYPE, "Box of a C++ type is not supported yet");
}

#[test]
fn box_of_builtin_or_non_ident() {
    let got = with_check(|cx| check_type_box(cx, &ty1("Box", named("u8", 12))));
    assert_eq!(got, vec![(loc(10, 19), "unsupported target type of Box".to_string())]);
    let got = with_check(|cx| check_type_box(cx, &ty1("Box", Type::Void(12))));
    assert_eq!(got, vec![(loc(10, 19), "unsupported target type of Box".to_string())]);
}

#[test]
fn box_of_rust_type_or_alias_is_fine() {
    assert!(with_check(|cx| check_type_box(cx, &ty1("Box", named("RustThing", 12)))).is_empty());
    assert!(with_check(|cx| check_type_box(cx, &ty1("Box", named("Aliased", 12)))).is_empty());
    assert!(with_check(|cx| check_type_box(cx, &ty1("Box", named("Shared", 12)))).is_empty());
}

#[test]
fn box_of_cxx_builtin_name_gives_both_errors() {
    let types = Types { cxx: vec!["u8".to_string()], ..types() };
    let mut cx = Check { apis: &[], types: &types, errors: Errors::new() };
    check_type_box(&mut cx, &ty1("Box", named("u8", 12)));
    assert_eq!(
        msgs(&cx.errors),
        vec![
            (loc(10, 19), BOX_CXX_TYPE.to_string()),
            (loc(10, 19), "unsupported target type of Box".to_string()),
        ]
    );
}

#[test]
fn rust_vec_elements() {
    let got = with_check(|cx| check_type_rust_vec(cx, &ty1("Vec", named("Opaque", 12))));
    assert_eq!(got, vec![(loc(10, 19), "Rust Vec containing C++ type is not supported yet".to_string())]);
    for n in ["bool", "CxxString"] {
        let got = with_check(|cx| check_type_rust_vec(cx, &ty1("Vec", named(n, 12))));
        assert_eq!(got, vec![(loc(10, 19), "unsupported element type of Vec".to_string())]);
    }
    let got = with_check(|cx| check_type_rust_vec(cx, &ty1("Vec", Type::Str(loc(12, 13)))));
    assert_eq!(got, vec![(loc(10, 19), "unsupported element type of Vec".to_string())]);
    for n in ["u8", "f64", "String", "c_char", "Shared", "RustThing"] {
        assert!(with_check(|cx| check_type_rust_vec(cx, &ty1("Vec", named(n, 12)))).is_empty(), "{}", n);
    }
}

#[test]
fn unique_ptr_targets() {
    let got = with_check(|cx| check_type_unique_ptr(cx, &ty1("UniquePtr", named("RustThing", 12))));
    assert_eq!(got, vec![(loc(10, 19), "unique_ptr of a Rust type is not supported yet".to_string())]);
    let got = with_check(|cx| check_type_unique_ptr(cx, &ty1("UniquePtr", named("u32", 12))));
    assert_eq!(got, vec![(loc(10, 19), "unsupported unique_ptr target type".to_string())]);
    let got = with_check(|cx| check_type_unique_ptr(cx, &ty1("UniquePtr", Type::Void(12))));
    assert_eq!(got, vec![(loc(10, 19), "unsupported unique_ptr target type".to_string())]);
    assert!(with_check(|cx| check_type_unique_ptr(cx, &ty1("UniquePtr", named("Opaque", 12)))).is_empty());
    assert!(with_check(|cx| check_type_unique_ptr(cx, &ty1("UniquePtr", named("CxxString", 12)))).is_empty());
    let vector = Type::CxxVector(Box::new(ty1("CxxVector", named("u8", 14))));
    assert!(with_check(|cx| check_type_unique_ptr(cx, &ty1("UniquePtr", vector))).is_empty());
}

#[test]
fn shared_ptr_targets() {
    let got = with_check(|cx| check_type_shared_ptr(cx, &ty1("SharedPtr", named("RustThing", 12))));
    assert_eq!(got, vec![(loc(10, 19), "shared_ptr of a Rust type is not supported yet".to_string())]);
    let got = with_check(|cx| check_type_shared_ptr(cx, &ty1("SharedPtr", named("CxxString", 12))));
    assert_eq!(got, vec![(loc(10, 19), "std::shared_ptr<std::string> is not supported yet".to_string())]);
    let vector = Type::CxxVector(Box::new(ty1("CxxVector", named("u8", 14))));
    let got = with_check(|cx| check_type_shared_ptr(cx, &ty1("SharedPtr", vector)));
    assert_eq!(got, vec![(loc(10, 19), "std::shared_ptr<std::vector> is not supported yet".to_string())]);
    let got = with_check(|cx| check_type_shared_ptr(cx, &ty1("SharedPtr", named("i64", 12))));
    assert_eq!(got, vec![(loc(10, 19), "unsupported shared_ptr target type".to_string())]);
    assert!(with_check(|cx| check_type_shared_ptr(cx, &ty1("SharedPtr", named("Opaque", 12)))).is_empty());
}

#[test]
fn cxx_vector_elements() {
    let got = with_check(|cx| check_type_cxx_vector(cx, &ty1("CxxVector", named("RustThing", 12))));
    assert_eq!(got, vec![(loc(10, 19), "C++ vector containing a Rust type is not supported yet".to_string())]);
    for n in ["c_char", "bool", "String"] {
        let got = with_check(|cx| check_type_cxx_vector(cx, &ty1("CxxVector", named(n, 12))));
        assert_eq!(got, vec![(loc(10, 19), "unsupported vector target type".to_string())], "{}", n);
    }
    for n in ["u8", "usize", "f32", "CxxString", "Opaque"] {
        assert!(with_check(|cx| check_type_cxx_vector(cx, &ty1("CxxVector", named(n, 12)))).is_empty(), "{}", n);
    }
}

fn reference(pinned: bool, mutable: bool, inner: Type<u32>) -> Ref<u32> {
    Ref { pinned, mutable, inner, loc: loc(20, 29) }
}

#[test]
fn mutable_reference_to_cxx_needs_pin() {
    let got = with_check(|cx| check_type_ref(cx, &reference(false, true, named("Opaque", 22))));
    assert_eq!(got, vec![(loc(20, 29), "mutable reference to C++ type requires a pin -- use Pin<&mut Opaque>".to_string())]);
    let got = with_check(|cx| check_type_ref(cx, &reference(false, true, named("CxxString", 22))));
    assert_eq!(got, vec![(loc(20, 29), "mutable reference to C++ type requires a pin -- use Pin<&mut CxxString>".to_string())]);
    let vector = Type::CxxVector(Box::new(ty1("CxxVector", named("u8", 24))));
    let got = with_check(|cx| check_type_ref(cx, &reference(false, true, vector)));
    assert_eq!(got, vec![(loc(20, 29), "mutable reference to C++ type requires a pin -- use Pin<&mut CxxVector<...>>".to_string())]);
    assert!(with_check(|cx| check_type_ref(cx, &reference(true, true, named("Opaque", 22)))).is_empty());
    assert!(with_check(|cx| check_type_ref(cx, &reference(false, false, named("Opaque", 22)))).is_empty());
    assert!(with_check(|cx| check_type_ref(cx, &reference(false, true, named("Shared", 22)))).is_empty());
}

#[test]
fn reference_targets() {
    let got = with_check(|cx| check_type_ref(cx, &reference(false, false, Type::Void(22))));
    assert_eq!(got, vec![(loc(20, 29), "unsupported reference type".to_string())]);
    let got = with_check(|cx| check_type_ref(cx, &reference(false, false, Type::Fn(Box::new(sig(false))))));
    assert_eq!(got, vec![(loc(20, 29), "unsupported reference type".to_string())]);
    let inner = Type::Ref(Box::new(reference(false, false, named("u8", 25))));
    let got = with_check(|cx| check_type_ref(cx, &reference(false, false, inner)));
    assert_eq!(got, vec![(loc(20, 29), "C++ does not allow references to references".to_string())]);
}

#[test]
fn slice_elements() {
    let slice = |mutable, inner| SliceRef { mutable, inner, loc: loc(40, 49) };
    let got = with_check(|cx| check_type_slice_ref(cx, &slice(true, Type::Str(loc(41, 42)))));
    assert_eq!(got, vec![(loc(40, 49), "unsupported &mut [T] element type".to_string())]);
    let got = with_check(|cx| check_type_slice_ref(cx, &slice(false, named("RustThing", 41))));
    assert_eq!(got, vec![(loc(40, 49), "unsupported &[T] element type: opaque Rust type is not supported yet".to_string())]);
    let got = with_check(|cx| check_type_slice_ref(cx, &slice(false, named("Opaque", 41))));
    assert_eq!(got, vec![(loc(40, 49), "unsupported &[T] element type: opaque C++ type is not supported yet".to_string())]);
    let got = with_check(|cx| check_type_slice_ref(cx, &slice(false, named("CxxString", 41))));
    assert_eq!(got, vec![(loc(40, 49), "unsupported &[T] element type".to_string())]);
    assert!(with_check(|cx| check_type_slice_ref(cx, &slice(false, named("u8", 41)))).is_empty());
    assert!(with_check(|cx| check_type_slice_ref(cx, &slice(true, named("Trivial", 41)))).is_empty());
}

#[test]
fn array_elements() {
    let array = |inner| Array { inner, len: 4, loc: loc(50, 59) };
    let got = with_check(|cx| check_type_array(cx, &array(named("Opaque", 51))));
    assert_eq!(got, vec![(loc(50, 59), "unsupported array element type".to_string())]);
    let nested = Type::Array(Box::new(array(named("RustThing", 52))));
    let got = with_check(|cx| check_type_array(cx, &array(nested)));
    assert_eq!(got, vec![(loc(50, 59), "unsupported array element type".to_string())]);
    assert!(with_check(|cx| check_type_array(cx, &array(named("i32", 51)))).is_empty());
}

#[test]
fn function_pointer_returning_result() {
    let got = with_check(|cx| check_type_fn(cx, &sig(true)));
    assert_eq!(got, vec![(loc(30, 39), "function pointer returning Result is not supported yet".to_string())]);
    assert!(with_check(|cx| check_type_fn(cx, &sig(false))).is_empty());
}

#[test]
fn opaque_and_unsized_and_describe() {
    let types = types();
    let mut cx = Check { apis: &[], types: &types, errors: Errors::new() };
    assert!(is_opaque_cxx(&mut cx, &ident("Opaque", 0)));
    assert!(is_opaque_cxx(&mut cx, &ident("Aliased", 0)));
    assert!(!is_opaque_cxx(&mut cx, &ident("Trivial", 0)));
    assert!(!is_opaque_cxx(&mut cx, &ident("RustThing", 0)));
    assert!(is_unsized(&mut cx, &named("CxxString", 0)));
    assert!(is_unsized(&mut cx, &named("RustThing", 0)));
    assert!(!is_unsized(&mut cx, &named("Trivial", 0)));
    assert!(is_unsized(&mut cx, &Type::Void(0)));
    assert!(!is_unsized(&mut cx, &Type::Str(loc(0, 0))));
    assert_eq!(describe(&mut cx, &named("Shared", 0)), "struct");
    assert_eq!(describe(&mut cx, &named("Color", 0)), "enum");
    assert_eq!(describe(&mut cx, &named("Aliased", 0)), "C++ type");
    assert_eq!(describe(&mut cx, &named("Opaque", 0)), "opaque C++ type");
    assert_eq!(describe(&mut cx, &named("RustThing", 0)), "opaque Rust type");
    assert_eq!(describe(&mut cx, &named("CxxString", 0)), "C++ string");
    assert_eq!(describe(&mut cx, &named("c_char", 0)), "C char");
    assert_eq!(describe(&mut cx, &named("u8", 0)), "u8");
    assert_eq!(describe(&mut cx, &Type::Void(0)), "()");
    assert_eq!(describe(&mut cx, &Type::Str(loc(0, 0))), "&str");
    assert_eq!(describe(&mut cx, &Type::Fn(Box::new(sig(false)))), "function pointer");
    assert!(cx.errors.diagnostics.is_empty());
}
