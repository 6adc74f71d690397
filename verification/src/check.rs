//! The checks that a bridge's declarations must pass.
//!
//! Each check appends to the errors of a [`Check`] the diagnostics that its
//! specification (`spec_check_*`) lists for its input, in that order, and
//! changes nothing else.
use vstd::prelude::*;

use crate::atom::{atom_of, text_is, Atom};
use crate::report::{flat_map, lemma_flat_map_step, one, Errors};
use crate::syntax::{
    derive_loc, ident_loc, trait_name, type_loc, Api, Array, Derive, Enum, ExternFn, ExternType,
    Ident, Impl, Lang, Loc, Receiver, Ref, Signature, SliceRef, Struct, Trait, Ty1, Type,
    TypeAlias, Var,
};
use crate::ident::{check_all, spec_check_all};
use crate::types::{contains_name, lookup_entry, TrivialReason, Types};

verus! {

/// The state of one run of the checks: the bridge being checked, what is
/// known of its names, and the errors found so far.
pub struct Check<'a, S> {
    pub apis: &'a [Api<S>],
    pub types: &'a Types<S>,
    pub errors: Errors<S>,
}

/// `after` is `before` with the diagnostics `new` appended, and nothing else changed.
pub open spec fn appends<S>(
    before: Check<S>,
    after: Check<S>,
    new: Seq<(Loc<S>, Seq<char>)>,
) -> bool {
    &&& after.apis == before.apis
    &&& after.types == before.types
    &&& after.errors@ == before.errors@ + new
}

/// The message of an error about a `Box` of a C++ type.
pub const BOX_CXX_TYPE: &'static str = "Box of a C++ type is not supported yet";

impl<'a, S> Check<'a, S> {
    /// Records an error at a location.
    pub fn error(&mut self, sp: Loc<S>, msg: String)
        ensures
            appends(*old(self), *final(self), one(sp, msg@)),
    {
        let ghost m = msg@;
        self.errors.error(sp, msg);
        assert(self.errors@ =~= old(self).errors@ + one(sp, m));
    }
}

// ---------------------------------------------------------------------------
// What the checks ask of names and types.

/// A type declared on the C++ side whose layout the bridge does not know.
pub open spec fn spec_is_opaque_cxx<S>(types: Types<S>, n: Seq<char>) -> bool {
    &&& types.is_cxx(n)
    &&& !types.is_struct(n)
    &&& !types.is_enum(n)
    &&& !(types.is_alias(n) && types.trivial_reason(n) is Some)
}

/// A type that cannot be passed or held by value across the bridge.
pub open spec fn spec_is_unsized<S>(types: Types<S>, ty: Type<S>) -> bool
    decreases ty,
{
    match ty {
        Type::Ident(t) => {
            let n = t.rust.name@;
            n == "CxxString"@ || spec_is_opaque_cxx(types, n) || types.is_rust(n)
        },
        Type::Array(a) => spec_is_unsized(types, a.inner),
        Type::CxxVector(_) => true,
        Type::Fn(_) => true,
        Type::Void(_) => true,
        _ => false,
    }
}

/// How a type is named in diagnostics.
pub open spec fn spec_describe<S>(types: Types<S>, ty: Type<S>) -> Seq<char> {
    match ty {
        Type::Ident(t) => {
            let n = t.rust.name@;
            if types.is_struct(n) {
                "struct"@
            } else if types.is_enum(n) {
                "enum"@
            } else if types.is_alias(n) {
                "C++ type"@
            } else if types.is_cxx(n) {
                "opaque C++ type"@
            } else if types.is_rust(n) {
                "opaque Rust type"@
            } else if atom_of(n) == Some(Atom::CxxString) {
                "C++ string"@
            } else if atom_of(n) == Some(Atom::Char) {
                "C char"@
            } else {
                n
            }
        },
        Type::RustBox(_) => "Box"@,
        Type::RustVec(_) => "Vec"@,
        Type::UniquePtr(_) => "unique_ptr"@,
        Type::SharedPtr(_) => "shared_ptr"@,
        Type::Ref(_) => "reference"@,
        Type::Str(_) => "&str"@,
        Type::CxxVector(_) => "C++ vector"@,
        Type::SliceRef(_) => "slice"@,
        Type::Fn(_) => "function pointer"@,
        Type::Void(_) => "()"@,
        Type::Array(_) => "array"@,
    }
}

pub fn is_opaque_cxx<S>(cx: &mut Check<S>, ty: &Ident<S>) -> (r: bool)
    ensures
        r == spec_is_opaque_cxx(*old(cx).types, ty.name@),
        *final(cx) == *old(cx),
{
    contains_name(&cx.types.cxx, &ty.name) && !contains_name(&cx.types.structs, &ty.name)
        && !contains_name(&cx.types.enums, &ty.name) && !(contains_name(
        &cx.types.aliases,
        &ty.name,
    ) && lookup_entry(&cx.types.required_trivial, &ty.name).is_some())
}

pub fn is_unsized<S>(cx: &mut Check<S>, ty: &Type<S>) -> (r: bool)
    ensures
        r == spec_is_unsized(*old(cx).types, *ty),
        *final(cx) == *old(cx),
    decreases ty,
{
    match ty {
        Type::Ident(ident) => {
            let ident = &ident.rust;
            text_is(&ident.name, "CxxString") || is_opaque_cxx(cx, ident) || contains_name(
                &cx.types.rust,
                &ident.name,
            )
        },
        Type::Array(array) => is_unsized(cx, &array.inner),
        Type::CxxVector(_) | Type::Fn(_) | Type::Void(_) => true,
        Type::RustBox(_)
        | Type::RustVec(_)
        | Type::UniquePtr(_)
        | Type::SharedPtr(_)
        | Type::Ref(_)
        | Type::Str(_)
        | Type::SliceRef(_) => false,
    }
}

pub fn describe<S>(cx: &mut Check<S>, ty: &Type<S>) -> (r: String)
    ensures
        r@ == spec_describe(*old(cx).types, *ty),
        *final(cx) == *old(cx),
{
    match ty {
        Type::Ident(ident) => {
            let n = &ident.rust.name;
            if contains_name(&cx.types.structs, n) {
                String::from_str("struct")
            } else if contains_name(&cx.types.enums, n) {
                String::from_str("enum")
            } else if contains_name(&cx.types.aliases, n) {
                String::from_str("C++ type")
            } else if contains_name(&cx.types.cxx, n) {
                String::from_str("opaque C++ type")
            } else if contains_name(&cx.types.rust, n) {
                String::from_str("opaque Rust type")
            } else if Atom::from(n) == Some(Atom::CxxString) {
                String::from_str("C++ string")
            } else if Atom::from(n) == Some(Atom::Char) {
                String::from_str("C char")
            } else {
                n.clone()
            }
        },
        Type::RustBox(_) => String::from_str("Box"),
        Type::RustVec(_) => String::from_str("Vec"),
        Type::UniquePtr(_) => String::from_str("unique_ptr"),
        Type::SharedPtr(_) => String::from_str("shared_ptr"),
        Type::Ref(_) => String::from_str("reference"),
        Type::Str(_) => String::from_str("&str"),
        Type::CxxVector(_) => String::from_str("C++ vector"),
        Type::SliceRef(_) => String::from_str("slice"),
        Type::Fn(_) => String::from_str("function pointer"),
        Type::Void(_) => String::from_str("()"),
        Type::Array(_) => String::from_str("array"),
    }
}


// ---------------------------------------------------------------------------
// Checks of the types written in the bridge.

/// A name declared on the C++ side whose layout is not known here.
pub open spec fn cxx_not_shared<S>(types: Types<S>, n: Seq<char>) -> bool {
    types.is_cxx(n) && !types.is_alias(n) && !types.is_struct(n) && !types.is_enum(n)
}

/// A named type must be a builtin or declared in the bridge.
pub open spec fn spec_check_type_ident<S>(types: Types<S>, ident: Ident<S>) -> Seq<(Loc<S>, Seq<char>)> {
    let n = ident.name@;
    if atom_of(n) is None && !types.is_struct(n) && !types.is_enum(n) && !types.is_cxx(n)
        && !types.is_rust(n) {
        one(ident_loc(ident), "unsupported type: "@ + n)
    } else {
        seq![]
    }
}

/// `Box<T>` needs a named `T` that is not a builtin, and not a C++ type
/// of unknown layout.
pub open spec fn spec_check_type_box<S>(types: Types<S>, ptr: Ty1<S>) -> Seq<(Loc<S>, Seq<char>)> {
    let unsupported = one(ptr.loc, "unsupported target type of Box"@);
    match ptr.inner {
        Type::Ident(t) => {
            let n = t.rust.name@;
            let cxx = if cxx_not_shared(types, n) {
                one(ptr.loc, BOX_CXX_TYPE@)
            } else {
                seq![]
            };
            if atom_of(n) is None {
                cxx
            } else {
                cxx + unsupported
            }
        },
        _ => unsupported,
    }
}

/// The builtins that a Rust `Vec` may hold.
pub open spec fn rust_vec_element_ok(a: Option<Atom>) -> bool {
    match a {
        Some(Atom::Bool) => false,
        Some(Atom::CxxString) => false,
        _ => true,
    }
}

/// `Vec<T>` needs a named `T` that is not a C++ type of unknown layout, nor
/// `bool` or `CxxString`.
pub open spec fn spec_check_type_rust_vec<S>(types: Types<S>, ty: Ty1<S>) -> Seq<(Loc<S>, Seq<char>)> {
    let unsupported = one(ty.loc, "unsupported element type of Vec"@);
    match ty.inner {
        Type::Ident(t) => {
            let n = t.rust.name@;
            if cxx_not_shared(types, n) {
                one(ty.loc, "Rust Vec containing C++ type is not supported yet"@)
            } else if rust_vec_element_ok(atom_of(n)) {
                seq![]
            } else {
                unsupported
            }
        },
        _ => unsupported,
    }
}

/// `UniquePtr<T>` needs a C++ `T`: a declared non-Rust name, `CxxString`, or
/// a `CxxVector`.
pub open spec fn spec_check_type_unique_ptr<S>(types: Types<S>, ptr: Ty1<S>) -> Seq<(Loc<S>, Seq<char>)> {
    let unsupported = one(ptr.loc, "unsupported unique_ptr target type"@);
    match ptr.inner {
        Type::Ident(t) => {
            let n = t.rust.name@;
            if types.is_rust(n) {
                one(ptr.loc, "unique_ptr of a Rust type is not supported yet"@)
            } else {
                match atom_of(n) {
                    None => seq![],
                    Some(Atom::CxxString) => seq![],
                    _ => unsupported,
                }
            }
        },
        Type::CxxVector(_) => seq![],
        _ => unsupported,
    }
}

/// `SharedPtr<T>` needs a declared non-Rust named `T`.
pub open spec fn spec_check_type_shared_ptr<S>(types: Types<S>, ptr: Ty1<S>) -> Seq<(Loc<S>, Seq<char>)> {
    let unsupported = one(ptr.loc, "unsupported shared_ptr target type"@);
    match ptr.inner {
        Type::Ident(t) => {
            let n = t.rust.name@;
            if types.is_rust(n) {
                one(ptr.loc, "shared_ptr of a Rust type is not supported yet"@)
            } else {
                match atom_of(n) {
                    None => seq![],
                    Some(Atom::CxxString) => one(
                        ptr.loc,
                        "std::shared_ptr<std::string> is not supported yet"@,
                    ),
                    _ => unsupported,
                }
            }
        },
        Type::CxxVector(_) => one(ptr.loc, "std::shared_ptr<std::vector> is not supported yet"@),
        _ => unsupported,
    }
}

/// The builtins that a `CxxVector` may hold.
pub open spec fn cxx_vector_element_ok(a: Option<Atom>) -> bool {
    match a {
        Some(Atom::Char) => false,
        Some(Atom::Bool) => false,
        Some(Atom::RustString) => false,
        _ => true,
    }
}

/// `CxxVector<T>` needs a named `T` that is not a Rust type, nor `c_char`,
/// `bool` or `String`.
pub open spec fn spec_check_type_cxx_vector<S>(types: Types<S>, ptr: Ty1<S>) -> Seq<(Loc<S>, Seq<char>)> {
    let unsupported = one(ptr.loc, "unsupported vector target type"@);
    match ptr.inner {
        Type::Ident(t) => {
            let n = t.rust.name@;
            if types.is_rust(n) {
                one(ptr.loc, "C++ vector containing a Rust type is not supported yet"@)
            } else if cxx_vector_element_ok(atom_of(n)) {
                seq![]
            } else {
                unsupported
            }
        },
        _ => unsupported,
    }
}

/// The message asking for a pinned mutable reference to a C++ type.
pub open spec fn pin_message(target: Seq<char>) -> Seq<char> {
    "mutable reference to C++ type requires a pin -- use Pin<&mut "@ + target + ">"@
}

/// The error asking to pin an unpinned `&mut` to a C++ string, an opaque
/// C++ type or a C++ vector.
pub open spec fn spec_ref_pin_errors<S>(types: Types<S>, ty: Ref<S>) -> Seq<(Loc<S>, Seq<char>)> {
    if ty.mutable && !ty.pinned {
        match ty.inner {
            Type::Ident(t) => {
                let n = t.rust.name@;
                if n == "CxxString"@ || spec_is_opaque_cxx(types, n) {
                    one(ty.loc, pin_message(n))
                } else {
                    seq![]
                }
            },
            Type::CxxVector(_) => one(ty.loc, pin_message("CxxVector<...>"@)),
            _ => seq![],
        }
    } else {
        seq![]
    }
}

/// An unpinned `&mut` to a C++ string, an opaque C++ type or a C++ vector
/// must be pinned; a reference to a reference, a function or `()` is not
/// supported.
pub open spec fn spec_check_type_ref<S>(types: Types<S>, ty: Ref<S>) -> Seq<(Loc<S>, Seq<char>)> {
    let pin = spec_ref_pin_errors(types, ty);
    let target = match ty.inner {
        Type::Fn(_) => one(ty.loc, "unsupported reference type"@),
        Type::Void(_) => one(ty.loc, "unsupported reference type"@),
        Type::Ref(_) => one(ty.loc, "C++ does not allow references to references"@),
        _ => seq![],
    };
    pin + target
}

/// Whether a type may be the element of a slice or an array.
pub open spec fn element_supported<S>(types: Types<S>, ty: Type<S>) -> bool {
    match ty {
        Type::Str(_) => false,
        Type::SliceRef(_) => false,
        _ => !spec_is_unsized(types, ty),
    }
}

/// A slice needs a sized element that is neither `&str` nor a slice.
pub open spec fn spec_check_type_slice_ref<S>(types: Types<S>, ty: SliceRef<S>) -> Seq<(Loc<S>, Seq<char>)> {
    if element_supported(types, ty.inner) {
        seq![]
    } else {
        let mutable = if ty.mutable {
            "mut "@
        } else {
            ""@
        };
        let base = "unsupported &"@ + mutable + "[T] element type"@;
        let msg = match ty.inner {
            Type::Ident(t) => {
                let n = t.rust.name@;
                if types.is_rust(n) {
                    base + ": opaque Rust type is not supported yet"@
                } else if spec_is_opaque_cxx(types, n) {
                    base + ": opaque C++ type is not supported yet"@
                } else {
                    base
                }
            },
            _ => base,
        };
        one(ty.loc, msg)
    }
}

/// An array needs a sized element that is neither `&str` nor a slice.
pub open spec fn spec_check_type_array<S>(types: Types<S>, ty: Array<S>) -> Seq<(Loc<S>, Seq<char>)> {
    if element_supported(types, ty.inner) {
        seq![]
    } else {
        one(ty.loc, "unsupported array element type"@)
    }
}

/// A function pointer may not return a `Result`.
pub open spec fn spec_check_type_fn<S>(ty: Signature<S>) -> Seq<(Loc<S>, Seq<char>)> {
    if ty.throws {
        one(ty.loc, "function pointer returning Result is not supported yet"@)
    } else {
        seq![]
    }
}

/// The errors about one type written in the bridge.
pub open spec fn spec_check_type<S>(types: Types<S>, ty: Type<S>) -> Seq<(Loc<S>, Seq<char>)> {
    match ty {
        Type::Ident(t) => spec_check_type_ident(types, t.rust),
        Type::RustBox(p) => spec_check_type_box(types, *p),
        Type::RustVec(p) => spec_check_type_rust_vec(types, *p),
        Type::UniquePtr(p) => spec_check_type_unique_ptr(types, *p),
        Type::SharedPtr(p) => spec_check_type_shared_ptr(types, *p),
        Type::CxxVector(p) => spec_check_type_cxx_vector(types, *p),
        Type::Ref(r) => spec_check_type_ref(types, *r),
        Type::Array(a) => spec_check_type_array(types, *a),
        Type::Fn(f) => spec_check_type_fn(*f),
        Type::SliceRef(s) => spec_check_type_slice_ref(types, *s),
        Type::Str(_) => seq![],
        Type::Void(_) => seq![],
    }
}

pub fn check_type_ident<S: Copy>(cx: &mut Check<S>, ident: &Ident<S>)
    ensures
        appends(*old(cx), *final(cx), spec_check_type_ident(*old(cx).types, *ident)),
{
    if Atom::from(&ident.name).is_none() && !contains_name(&cx.types.structs, &ident.name)
        && !contains_name(&cx.types.enums, &ident.name) && !contains_name(
        &cx.types.cxx,
        &ident.name,
    ) && !contains_name(&cx.types.rust, &ident.name) {
        let msg = String::from_str("unsupported type: ").concat(ident.name.as_str());
        cx.error(ident.loc(), msg);
    } else {
        assert(cx.errors@ =~= old(cx).errors@ + seq![]);
    }
}

/// Whether a name is declared on the C++ side with a layout not known here.
fn cxx_not_shared_exec<S>(cx: &Check<S>, n: &String) -> (r: bool)
    ensures
        r == cxx_not_shared(*cx.types, n@),
{
    contains_name(&cx.types.cxx, n) && !contains_name(&cx.types.aliases, n) && !contains_name(
        &cx.types.structs,
        n,
    ) && !contains_name(&cx.types.enums, n)
}

pub fn check_type_box<S: Copy>(cx: &mut Check<S>, ptr: &Ty1<S>)
    ensures
        appends(*old(cx), *final(cx), spec_check_type_box(*old(cx).types, *ptr)),
{
    if let Type::Ident(ident) = &ptr.inner {
        if cxx_not_shared_exec(cx, &ident.rust.name) {
            cx.error(ptr.loc, String::from_str(BOX_CXX_TYPE));
        } else {
            assert(cx.errors@ =~= old(cx).errors@ + seq![]);
        }
        if Atom::from(&ident.rust.name).is_none() {
            return;
        }
    }
    let ghost mid = cx.errors@;
    cx.error(ptr.loc, String::from_str("unsupported target type of Box"));
    assert(cx.errors@ =~= mid + one(ptr.loc, "unsupported target type of Box"@));
    assert(cx.errors@ =~= old(cx).errors@ + spec_check_type_box(*old(cx).types, *ptr));
}

pub fn check_type_rust_vec<S: Copy>(cx: &mut Check<S>, ty: &Ty1<S>)
    ensures
        appends(*old(cx), *final(cx), spec_check_type_rust_vec(*old(cx).types, *ty)),
{
    if let Type::Ident(ident) = &ty.inner {
        if cxx_not_shared_exec(cx, &ident.rust.name) {
            cx.error(ty.loc, String::from_str("Rust Vec containing C++ type is not supported yet"));
            return;
        }
        match Atom::from(&ident.rust.name) {
            None | Some(Atom::Char) | Some(Atom::U8) | Some(Atom::U16) | Some(Atom::U32) | Some(
                Atom::U64,
            )
            | Some(Atom::Usize) | Some(Atom::I8) | Some(Atom::I16) | Some(Atom::I32) | Some(
                Atom::I64,
            )
            | Some(Atom::Isize) | Some(Atom::F32) | Some(Atom::F64) | Some(Atom::RustString) => {
                assert(cx.errors@ =~= old(cx).errors@ + seq![]);
                return;
            },
            Some(Atom::Bool) => {},
            Some(Atom::CxxString) => {},
        }
    }
    cx.error(ty.loc, String::from_str("unsupported element type of Vec"));
}

pub fn check_type_unique_ptr<S: Copy>(cx: &mut Check<S>, ptr: &Ty1<S>)
    ensures
        appends(*old(cx), *final(cx), spec_check_type_unique_ptr(*old(cx).types, *ptr)),
{
    if let Type::Ident(ident) = &ptr.inner {
        if contains_name(&cx.types.rust, &ident.rust.name) {
            cx.error(ptr.loc, String::from_str("unique_ptr of a Rust type is not supported yet"));
            return;
        }
        match Atom::from(&ident.rust.name) {
            None | Some(Atom::CxxString) => {
                assert(cx.errors@ =~= old(cx).errors@ + seq![]);
                return;
            },
            _ => {},
        }
    } else if let Type::CxxVector(_) = &ptr.inner {
        assert(cx.errors@ =~= old(cx).errors@ + seq![]);
        return;
    }
    cx.error(ptr.loc, String::from_str("unsupported unique_ptr target type"));
}

pub fn check_type_shared_ptr<S: Copy>(cx: &mut Check<S>, ptr: &Ty1<S>)
    ensures
        appends(*old(cx), *final(cx), spec_check_type_shared_ptr(*old(cx).types, *ptr)),
{
    if let Type::Ident(ident) = &ptr.inner {
        if contains_name(&cx.types.rust, &ident.rust.name) {
            cx.error(ptr.loc, String::from_str("shared_ptr of a Rust type is not supported yet"));
            return;
        }
        match Atom::from(&ident.rust.name) {
            None => {
                assert(cx.errors@ =~= old(cx).errors@ + seq![]);
                return;
            },
            Some(Atom::CxxString) => {
                cx.error(
                    ptr.loc,
                    String::from_str("std::shared_ptr<std::string> is not supported yet"),
                );
                return;
            },
            _ => {},
        }
    } else if let Type::CxxVector(_) = &ptr.inner {
        cx.error(ptr.loc, String::from_str("std::shared_ptr<std::vector> is not supported yet"));
        return;
    }
    cx.error(ptr.loc, String::from_str("unsupported shared_ptr target type"));
}

pub fn check_type_cxx_vector<S: Copy>(cx: &mut Check<S>, ptr: &Ty1<S>)
    ensures
        appends(*old(cx), *final(cx), spec_check_type_cxx_vector(*old(cx).types, *ptr)),
{
    if let Type::Ident(ident) = &ptr.inner {
        if contains_name(&cx.types.rust, &ident.rust.name) {
            cx.error(
                ptr.loc,
                String::from_str("C++ vector containing a Rust type is not supported yet"),
            );
            return;
        }
        match Atom::from(&ident.rust.name) {
            None | Some(Atom::U8) | Some(Atom::U16) | Some(Atom::U32) | Some(Atom::U64) | Some(
                Atom::Usize,
            )
            | Some(Atom::I8) | Some(Atom::I16) | Some(Atom::I32) | Some(Atom::I64) | Some(
                Atom::Isize,
            )
            | Some(Atom::F32) | Some(Atom::F64) | Some(Atom::CxxString) => {
                assert(cx.errors@ =~= old(cx).errors@ + seq![]);
                return;
            },
            Some(Atom::Char) => {},
            Some(Atom::Bool) | Some(Atom::RustString) => {},
        }
    }
    cx.error(ptr.loc, String::from_str("unsupported vector target type"));
}

pub fn check_type_ref<S: Copy>(cx: &mut Check<S>, ty: &Ref<S>)
    ensures
        appends(*old(cx), *final(cx), spec_check_type_ref(*old(cx).types, *ty)),
{
    let ghost pin = spec_ref_pin_errors(*cx.types, *ty);
    if ty.mutable && !ty.pinned {
        let requires_pin: Option<String> = match &ty.inner {
            Type::Ident(ident) => {
                if text_is(&ident.rust.name, "CxxString") || is_opaque_cxx(cx, &ident.rust) {
                    Some(ident.rust.name.clone())
                } else {
                    None
                }
            },
            Type::CxxVector(_) => Some(String::from_str("CxxVector<...>")),
            _ => None,
        };
        if let Some(requires_pin) = requires_pin {
            let msg = String::from_str(
                "mutable reference to C++ type requires a pin -- use Pin<&mut ",
            ).concat(requires_pin.as_str()).concat(">");
            cx.error(ty.loc, msg);
        } else {
            assert(cx.errors@ =~= old(cx).errors@ + seq![]);
        }
    } else {
        assert(cx.errors@ =~= old(cx).errors@ + seq![]);
    }
    assert(cx.errors@ == old(cx).errors@ + pin);
    match &ty.inner {
        Type::Fn(_) | Type::Void(_) => {},
        Type::Ref(_) => {
            cx.error(ty.loc, String::from_str("C++ does not allow references to references"));
            return;
        },
        _ => {
            assert(cx.errors@ =~= old(cx).errors@ + pin + seq![]);
            return;
        },
    }
    cx.error(ty.loc, String::from_str("unsupported reference type"));
}

pub fn check_type_slice_ref<S: Copy>(cx: &mut Check<S>, ty: &SliceRef<S>)
    ensures
        appends(*old(cx), *final(cx), spec_check_type_slice_ref(*old(cx).types, *ty)),
{
    let supported = match &ty.inner {
        Type::Str(_) | Type::SliceRef(_) => false,
        element => !is_unsized(cx, element),
    };
    if !supported {
        let mutable = if ty.mutable {
            "mut "
        } else {
            ""
        };
        let mut msg = String::from_str("unsupported &").concat(mutable).concat(
            "[T] element type",
        );
        if let Type::Ident(ident) = &ty.inner {
            if contains_name(&cx.types.rust, &ident.rust.name) {
                msg.append(": opaque Rust type is not supported yet");
            } else if is_opaque_cxx(cx, &ident.rust) {
                msg.append(": opaque C++ type is not supported yet");
            }
        }
        cx.error(ty.loc, msg);
    } else {
        assert(cx.errors@ =~= old(cx).errors@ + seq![]);
    }
}

pub fn check_type_array<S: Copy>(cx: &mut Check<S>, ty: &Array<S>)
    ensures
        appends(*old(cx), *final(cx), spec_check_type_array(*old(cx).types, *ty)),
{
    let supported = match &ty.inner {
        Type::Str(_) | Type::SliceRef(_) => false,
        element => !is_unsized(cx, element),
    };
    if !supported {
        cx.error(ty.loc, String::from_str("unsupported array element type"));
    } else {
        assert(cx.errors@ =~= old(cx).errors@ + seq![]);
    }
}

pub fn check_type_fn<S: Copy>(cx: &mut Check<S>, ty: &Signature<S>)
    ensures
        appends(*old(cx), *final(cx), spec_check_type_fn(*ty)),
{
    if ty.throws {
        cx.error(ty.loc, String::from_str("function pointer returning Result is not supported yet"));
    } else {
        assert(cx.errors@ =~= old(cx).errors@ + seq![]);
    }
}


// ---------------------------------------------------------------------------
// Checks of the items of the bridge.

/// The names that a declaration may not take.
pub open spec fn is_reserved_name(n: Seq<char>) -> bool {
    ||| n == "Box"@
    ||| n == "UniquePtr"@
    ||| n == "SharedPtr"@
    ||| n == "Vec"@
    ||| n == "CxxVector"@
    ||| n == "str"@
    ||| atom_of(n) is Some
}

/// A declaration may not take the name of a builtin or a standard wrapper.
pub open spec fn spec_check_reserved_name<S>(ident: Ident<S>) -> Seq<(Loc<S>, Seq<char>)> {
    if is_reserved_name(ident.name@) {
        one(ident_loc(ident), "reserved name"@)
    } else {
        seq![]
    }
}

/// The location of a struct's `struct` keyword through its braces.
pub open spec fn spec_span_for_struct_error<S>(strct: Struct<S>) -> Loc<S> {
    Loc { start: strct.struct_token, end: strct.brace_token }
}

/// The location of an enum's `enum` keyword through its braces.
pub open spec fn spec_span_for_enum_error<S>(enm: Enum<S>) -> Loc<S> {
    Loc { start: enm.enum_token, end: enm.brace_token }
}

/// The error about one derive on a shared struct.
pub open spec fn struct_derive_error<S>(d: Derive<S>) -> Seq<(Loc<S>, Seq<char>)> {
    if d.what == Trait::ExternType {
        one(derive_loc(d), "derive("@ + trait_name(d.what) + ") on shared struct is not supported"@)
    } else {
        seq![]
    }
}

pub open spec fn struct_derive_errors<S>() -> spec_fn(Derive<S>) -> Seq<(Loc<S>, Seq<char>)> {
    |d: Derive<S>| struct_derive_error(d)
}

/// The error about one field of a shared struct.
pub open spec fn struct_field_error<S>(types: Types<S>, f: Var<S>) -> Seq<(Loc<S>, Seq<char>)> {
    match f.ty {
        Type::Fn(_) => one(f.loc, "function pointers in a struct field are not implemented yet"@),
        _ => if spec_is_unsized(types, f.ty) {
            one(f.loc, "using "@ + spec_describe(types, f.ty) + " by value is not supported"@)
        } else {
            seq![]
        },
    }
}

pub open spec fn struct_field_errors<S>(types: Types<S>) -> spec_fn(Var<S>) -> Seq<(Loc<S>, Seq<char>)> {
    |f: Var<S>| struct_field_error(types, f)
}

/// A shared struct needs a free name and at least one field; if its name is
/// also an extern C++ type, that type must be declared in an `unsafe extern`
/// block; it may not derive `ExternType`; and its fields must be sized and
/// not function pointers.
pub open spec fn spec_check_api_struct<S>(types: Types<S>, strct: Struct<S>) -> Seq<(Loc<S>, Seq<char>)> {
    let n = strct.name.rust.name@;
    let empty = if strct.fields@.len() == 0 {
        one(spec_span_for_struct_error(strct), "structs without any fields are not supported"@)
    } else {
        seq![]
    };
    let untrusted = if types.is_cxx(n) && types.untrusted_at(n) is Some {
        one(
            types.untrusted_at(n)->0,
            "extern shared struct must be declared in an `unsafe extern` block"@,
        )
    } else {
        seq![]
    };
    spec_check_reserved_name(strct.name.rust) + empty + untrusted + flat_map(
        strct.derives@,
        struct_derive_errors::<S>(),
    ) + flat_map(strct.fields@, struct_field_errors(types))
}

/// The error about one derive on a shared enum.
pub open spec fn enum_derive_error<S>(d: Derive<S>) -> Seq<(Loc<S>, Seq<char>)> {
    if d.what == Trait::Default || d.what == Trait::ExternType {
        one(derive_loc(d), "derive("@ + trait_name(d.what) + ") on shared enum is not supported"@)
    } else {
        seq![]
    }
}

pub open spec fn enum_derive_errors<S>() -> spec_fn(Derive<S>) -> Seq<(Loc<S>, Seq<char>)> {
    |d: Derive<S>| enum_derive_error(d)
}

/// A shared enum needs a free name, variants or an explicit `#[repr]`, and
/// may not derive `Default` or `ExternType`.
pub open spec fn spec_check_api_enum<S>(enm: Enum<S>) -> Seq<(Loc<S>, Seq<char>)> {
    let empty = if enm.variants@.len() == 0 && !enm.explicit_repr {
        one(
            spec_span_for_enum_error(enm),
            "explicit #[repr(...)] is required for enum without any variants"@,
        )
    } else {
        seq![]
    };
    spec_check_reserved_name(enm.name.rust) + empty + flat_map(enm.derives@, enum_derive_errors::<S>())
}

/// How a side of the bridge is named in diagnostics.
pub open spec fn lang_name(lang: Lang) -> Seq<char> {
    match lang {
        Lang::Rust => "Rust"@,
        Lang::Cxx => "C++"@,
    }
}

/// The error about one derive on an opaque extern type.
pub open spec fn extern_type_derive_error<S>(lang: Lang, d: Derive<S>) -> Seq<(Loc<S>, Seq<char>)> {
    if d.what == Trait::ExternType && lang == Lang::Rust {
        seq![]
    } else {
        one(
            derive_loc(d),
            "derive("@ + trait_name(d.what) + ") on opaque "@ + lang_name(lang)
                + " type is not supported yet"@,
        )
    }
}

pub open spec fn extern_type_derive_errors<S>(lang: Lang) -> spec_fn(Derive<S>) -> Seq<(Loc<S>, Seq<char>)> {
    |d: Derive<S>| extern_type_derive_error(lang, d)
}

/// The use of a type that makes it need to be trivially movable.
pub open spec fn trivial_use(reason: TrivialReason, n: Seq<char>) -> Seq<char> {
    match reason {
        TrivialReason::StructField(s) => "a field of `"@ + s@ + "`"@,
        TrivialReason::FunctionArgument(f) => "an argument of `"@ + f@ + "`"@,
        TrivialReason::FunctionReturn(f) => "a return value of `"@ + f@ + "`"@,
        TrivialReason::BoxTarget => "Box<"@ + n + ">"@,
        TrivialReason::VecElement => "a vector element in Vec<"@ + n + ">"@,
    }
}

/// The location of a list of derives, from the first to the last.
pub open spec fn derives_loc<S>(ds: Seq<Derive<S>>) -> Loc<S> {
    Loc { start: ds[0].span, end: ds.last().span }
}

/// An opaque extern type needs a free name, derives only `ExternType` and
/// only on the Rust side, has no bounds, and is not used where a trivially
/// movable type is required.
pub open spec fn spec_check_api_type<S>(types: Types<S>, ety: ExternType<S>) -> Seq<(Loc<S>, Seq<char>)> {
    let n = ety.name.rust.name@;
    let bounds = if ety.bounds@.len() != 0 {
        one(derives_loc(ety.bounds@), "extern type bounds are not implemented yet"@)
    } else {
        seq![]
    };
    let trivial = match types.trivial_reason(n) {
        Some(reason) => one(
            ety.loc,
            "needs a cxx::ExternType impl in order to be used as "@ + trivial_use(reason, n),
        ),
        None => seq![],
    };
    spec_check_reserved_name(ety.name.rust) + flat_map(
        ety.derives@,
        extern_type_derive_errors::<S>(ety.lang),
    ) + bounds + trivial
}

/// The error about one derive on an extern type alias.
pub open spec fn alias_derive_error<S>(d: Derive<S>) -> Seq<(Loc<S>, Seq<char>)> {
    one(derive_loc(d), "derive("@ + trait_name(d.what) + ") on extern type alias is not supported"@)
}

pub open spec fn alias_derive_errors<S>() -> spec_fn(Derive<S>) -> Seq<(Loc<S>, Seq<char>)> {
    |d: Derive<S>| alias_derive_error(d)
}

/// An extern type alias may not derive anything.
pub open spec fn spec_check_api_type_alias<S>(alias: TypeAlias<S>) -> Seq<(Loc<S>, Seq<char>)> {
    flat_map(alias.derives@, alias_derive_errors::<S>())
}

/// Whether an explicit impl is for one of the generic wrappers of a named,
/// non-builtin type.
pub open spec fn impl_target_ok<S>(ty: Type<S>) -> bool {
    let inner_ok = |t: Ty1<S>|
        t.inner matches Type::Ident(i) && atom_of(i.rust.name@) is None;
    match ty {
        Type::RustBox(t) => inner_ok(*t),
        Type::RustVec(t) => inner_ok(*t),
        Type::UniquePtr(t) => inner_ok(*t),
        Type::SharedPtr(t) => inner_ok(*t),
        Type::CxxVector(t) => inner_ok(*t),
        _ => false,
    }
}

/// An explicit impl may not be negative and must be for `Box`, `Vec`,
/// `UniquePtr`, `SharedPtr` or `CxxVector` of a named non-builtin type.
pub open spec fn spec_check_api_impl<S>(imp: Impl<S>) -> Seq<(Loc<S>, Seq<char>)> {
    match imp.negative_token {
        Some(negative) => one(
            Loc { start: negative, end: type_loc(imp.ty).end },
            "negative impl is not supported yet"@,
        ),
        None => if impl_target_ok(imp.ty) {
            seq![]
        } else {
            one(imp.loc, "unsupported Self type of explicit impl"@)
        },
    }
}

pub fn check_reserved_name<S: Copy>(cx: &mut Check<S>, ident: &Ident<S>)
    ensures
        appends(*old(cx), *final(cx), spec_check_reserved_name(*ident)),
{
    let n = &ident.name;
    if text_is(n, "Box") || text_is(n, "UniquePtr") || text_is(n, "SharedPtr") || text_is(n, "Vec")
        || text_is(n, "CxxVector") || text_is(n, "str") || Atom::from(n).is_some() {
        cx.error(ident.loc(), String::from_str("reserved name"));
    } else {
        assert(cx.errors@ =~= old(cx).errors@ + seq![]);
    }
}

pub fn span_for_struct_error<S: Copy>(strct: &Struct<S>) -> (r: Loc<S>)
    ensures
        r == spec_span_for_struct_error(*strct),
{
    Loc { start: strct.struct_token, end: strct.brace_token }
}

pub fn span_for_enum_error<S: Copy>(enm: &Enum<S>) -> (r: Loc<S>)
    ensures
        r == spec_span_for_enum_error(*enm),
{
    Loc { start: enm.enum_token, end: enm.brace_token }
}

pub fn check_api_struct<S: Copy>(cx: &mut Check<S>, strct: &Struct<S>)
    ensures
        appends(*old(cx), *final(cx), spec_check_api_struct(*old(cx).types, *strct)),
{
    let ghost types = *cx.types;
    let name = &strct.name.rust;
    check_reserved_name(cx, name);
    let ghost e1 = cx.errors@;

    if strct.fields.len() == 0 {
        let span = span_for_struct_error(strct);
        cx.error(span, String::from_str("structs without any fields are not supported"));
    }
    let ghost e2 = cx.errors@;

    if contains_name(&cx.types.cxx, &name.name) {
        if let Some(ety) = lookup_entry(&cx.types.untrusted, &name.name) {
            let msg = String::from_str(
                "extern shared struct must be declared in an `unsafe extern` block",
            );
            cx.error(*ety, msg);
        }
    }
    let ghost e3 = cx.errors@;
    let mut i: usize = 0;
    assert(strct.derives@.take(0) =~= Seq::<Derive<S>>::empty());
    while i < strct.derives.len()
        invariant
            i <= strct.derives@.len(),
            cx.types == old(cx).types,
            cx.apis == old(cx).apis,
            cx.errors@ == e3 + flat_map(strct.derives@.take(i as int), struct_derive_errors::<S>()),
        decreases strct.derives@.len() - i,
    {
        proof {
            lemma_flat_map_step(strct.derives@, struct_derive_errors::<S>(), i as int);
        }
        let derive = &strct.derives[i];
        if derive.what == Trait::ExternType {
            let msg = String::from_str("derive(").concat(derive.what.as_str()).concat(
                ") on shared struct is not supported",
            );
            cx.error(derive.loc(), msg);
        }
        assert(cx.errors@ =~= e3 + flat_map(
            strct.derives@.take(i + 1),
            struct_derive_errors::<S>(),
        ));
        i = i + 1;
    }
    assert(strct.derives@.take(strct.derives@.len() as int) =~= strct.derives@);
    let ghost e4 = cx.errors@;

    let mut i: usize = 0;
    assert(strct.fields@.take(0) =~= Seq::<Var<S>>::empty());
    while i < strct.fields.len()
        invariant
            i <= strct.fields@.len(),
            cx.types == old(cx).types,
            cx.apis == old(cx).apis,
            types == *cx.types,
            cx.errors@ == e4 + flat_map(strct.fields@.take(i as int), struct_field_errors(types)),
        decreases strct.fields@.len() - i,
    {
        proof {
            lemma_flat_map_step(strct.fields@, struct_field_errors(types), i as int);
        }
        let field = &strct.fields[i];
        if let Type::Fn(_) = field.ty {
            cx.error(
                field.loc,
                String::from_str("function pointers in a struct field are not implemented yet"),
            );
        } else if is_unsized(cx, &field.ty) {
            let desc = describe(cx, &field.ty);
            let msg = String::from_str("using ").concat(desc.as_str()).concat(
                " by value is not supported",
            );
            cx.error(field.loc, msg);
        }
        assert(cx.errors@ =~= e4 + flat_map(strct.fields@.take(i + 1), struct_field_errors(types)));
        i = i + 1;
    }
    assert(strct.fields@.take(strct.fields@.len() as int) =~= strct.fields@);
    assert(cx.errors@ =~= old(cx).errors@ + spec_check_api_struct(types, *strct));
}


pub fn check_api_enum<S: Copy>(cx: &mut Check<S>, enm: &Enum<S>)
    ensures
        appends(*old(cx), *final(cx), spec_check_api_enum(*enm)),
{
    check_reserved_name(cx, &enm.name.rust);

    if enm.variants.len() == 0 && !enm.explicit_repr {
        let span = span_for_enum_error(enm);
        cx.error(
            span,
            String::from_str("explicit #[repr(...)] is required for enum without any variants"),
        );
    }
    let ghost e1 = cx.errors@;

    let mut i: usize = 0;
    assert(enm.derives@.take(0) =~= Seq::<Derive<S>>::empty());
    while i < enm.derives.len()
        invariant
            i <= enm.derives@.len(),
            cx.types == old(cx).types,
            cx.apis == old(cx).apis,
            cx.errors@ == e1 + flat_map(enm.derives@.take(i as int), enum_derive_errors::<S>()),
        decreases enm.derives@.len() - i,
    {
        proof {
            lemma_flat_map_step(enm.derives@, enum_derive_errors::<S>(), i as int);
        }
        let derive = &enm.derives[i];
        if derive.what == Trait::Default || derive.what == Trait::ExternType {
            let msg = String::from_str("derive(").concat(derive.what.as_str()).concat(
                ") on shared enum is not supported",
            );
            cx.error(derive.loc(), msg);
        }
        assert(cx.errors@ =~= e1 + flat_map(enm.derives@.take(i + 1), enum_derive_errors::<S>()));
        i = i + 1;
    }
    assert(enm.derives@.take(enm.derives@.len() as int) =~= enm.derives@);
    assert(cx.errors@ =~= old(cx).errors@ + spec_check_api_enum(*enm));
}

pub fn check_api_type<S: Copy>(cx: &mut Check<S>, ety: &ExternType<S>)
    ensures
        appends(*old(cx), *final(cx), spec_check_api_type(*old(cx).types, *ety)),
{
    check_reserved_name(cx, &ety.name.rust);
    let ghost e1 = cx.errors@;

    let mut i: usize = 0;
    assert(ety.derives@.take(0) =~= Seq::<Derive<S>>::empty());
    while i < ety.derives.len()
        invariant
            i <= ety.derives@.len(),
            cx.types == old(cx).types,
            cx.apis == old(cx).apis,
            cx.errors@ == e1 + flat_map(
                ety.derives@.take(i as int),
                extern_type_derive_errors::<S>(ety.lang),
            ),
        decreases ety.derives@.len() - i,
    {
        proof {
            lemma_flat_map_step(ety.derives@, extern_type_derive_errors::<S>(ety.lang), i as int);
        }
        let derive = &ety.derives[i];
        if derive.what == Trait::ExternType && ety.lang == Lang::Rust {
        } else {
            let lang = match ety.lang {
                Lang::Rust => "Rust",
                Lang::Cxx => "C++",
            };
            let msg = String::from_str("derive(").concat(derive.what.as_str()).concat(
                ") on opaque ",
            ).concat(lang).concat(" type is not supported yet");
            cx.error(derive.loc(), msg);
        }
        assert(cx.errors@ =~= e1 + flat_map(
            ety.derives@.take(i + 1),
            extern_type_derive_errors::<S>(ety.lang),
        ));
        i = i + 1;
    }
    assert(ety.derives@.take(ety.derives@.len() as int) =~= ety.derives@);
    let ghost e2 = cx.errors@;

    if ety.bounds.len() != 0 {
        let bounds = &ety.bounds;
        let span = Loc { start: bounds[0].span, end: bounds[bounds.len() - 1].span };
        cx.error(span, String::from_str("extern type bounds are not implemented yet"));
    }
    let ghost e3 = cx.errors@;

    if let Some(reason) = lookup_entry(&cx.types.required_trivial, &ety.name.rust.name) {
        let n = ety.name.rust.name.as_str();
        let what = match reason {
            TrivialReason::StructField(strct) => String::from_str("a field of `").concat(
                strct.as_str(),
            ).concat("`"),
            TrivialReason::FunctionArgument(efn) => String::from_str("an argument of `").concat(
                efn.as_str(),
            ).concat("`"),
            TrivialReason::FunctionReturn(efn) => String::from_str("a return value of `").concat(
                efn.as_str(),
            ).concat("`"),
            TrivialReason::BoxTarget => String::from_str("Box<").concat(n).concat(">"),
            TrivialReason::VecElement => String::from_str("a vector element in Vec<").concat(
                n,
            ).concat(">"),
        };
        let msg = String::from_str("needs a cxx::ExternType impl in order to be used as ").concat(
            what.as_str(),
        );
        cx.error(ety.loc, msg);
    }
    assert(cx.errors@ =~= old(cx).errors@ + spec_check_api_type(*old(cx).types, *ety));
}

pub fn check_api_type_alias<S: Copy>(cx: &mut Check<S>, alias: &TypeAlias<S>)
    ensures
        appends(*old(cx), *final(cx), spec_check_api_type_alias(*alias)),
{
    let mut i: usize = 0;
    assert(alias.derives@.take(0) =~= Seq::<Derive<S>>::empty());
    assert(cx.errors@ =~= old(cx).errors@ + Seq::<(Loc<S>, Seq<char>)>::empty());
    while i < alias.derives.len()
        invariant
            i <= alias.derives@.len(),
            cx.types == old(cx).types,
            cx.apis == old(cx).apis,
            cx.errors@ == old(cx).errors@ + flat_map(
                alias.derives@.take(i as int),
                alias_derive_errors::<S>(),
            ),
        decreases alias.derives@.len() - i,
    {
        proof {
            lemma_flat_map_step(alias.derives@, alias_derive_errors::<S>(), i as int);
        }
        let derive = &alias.derives[i];
        let msg = String::from_str("derive(").concat(derive.what.as_str()).concat(
            ") on extern type alias is not supported",
        );
        cx.error(derive.loc(), msg);
        assert(cx.errors@ =~= old(cx).errors@ + flat_map(
            alias.derives@.take(i + 1),
            alias_derive_errors::<S>(),
        ));
        i = i + 1;
    }
    assert(alias.derives@.take(alias.derives@.len() as int) =~= alias.derives@);
}

pub fn check_api_impl<S: Copy>(cx: &mut Check<S>, imp: &Impl<S>)
    ensures
        appends(*old(cx), *final(cx), spec_check_api_impl(*imp)),
{
    let ty = &imp.ty;

    if let Some(negative) = imp.negative_token {
        let span = Loc { start: negative, end: ty.loc().end };
        cx.error(span, String::from_str("negative impl is not supported yet"));
        return;
    }
    match ty {
        Type::RustBox(ty)
        | Type::RustVec(ty)
        | Type::UniquePtr(ty)
        | Type::SharedPtr(ty)
        | Type::CxxVector(ty) => {
            if let Type::Ident(inner) = &ty.inner {
                if Atom::from(&inner.rust.name).is_none() {
                    assert(cx.errors@ =~= old(cx).errors@ + seq![]);
                    return;
                }
            }
        },
        _ => {},
    }
    cx.error(imp.loc, String::from_str("unsupported Self type of explicit impl"));
}


/// The location of an extern function's `unsafe fn <...>`.
pub open spec fn spec_span_for_generics_error<S>(efn: ExternFn<S>) -> Loc<S> {
    Loc {
        start: match efn.sig.unsafety {
            Some(u) => u,
            None => efn.sig.fn_token,
        },
        end: efn.sig.generics.gt_token,
    }
}

/// The location of a receiver, from its `&` through `self` or its type.
pub open spec fn spec_span_for_receiver_error<S>(receiver: Receiver<S>) -> Loc<S> {
    Loc {
        start: receiver.ampersand,
        end: if receiver.shorthand {
            receiver.var
        } else {
            receiver.ty.loc.end
        },
    }
}

/// A function with lifetime parameters must be declared in an `unsafe
/// extern "C++"` block on the C++ side, or be an `unsafe fn` on the Rust side.
pub open spec fn generics_errors<S>(efn: ExternFn<S>) -> Seq<(Loc<S>, Seq<char>)> {
    let span = spec_span_for_generics_error(efn);
    match efn.lang {
        Lang::Cxx => if efn.sig.generics.has_params && !efn.trusted {
            one(
                span,
                "extern C++ function with lifetimes must be declared in `unsafe extern \"C++\"` block"@,
            )
        } else {
            seq![]
        },
        Lang::Rust => if efn.sig.generics.has_params && efn.sig.unsafety is None {
            one(
                span,
                "must be `unsafe fn "@ + efn.name.rust.name@
                    + "` in order to expose explicit lifetimes to C++"@,
            )
        } else {
            seq![]
        },
    }
}

/// The message about a receiver written as `&self` whose type is not known.
pub open spec fn unnamed_receiver_message(mutable: bool) -> Seq<char> {
    "unnamed receiver type is only allowed if the surrounding extern block contains exactly one extern type; use `self: &"@
        + (if mutable {
        "mut "@
    } else {
        ""@
    }) + "TheType`"@
}

/// A receiver needs a named type declared in the bridge, and an unpinned
/// `&mut` receiver may not be an opaque C++ type.
pub open spec fn receiver_errors<S>(types: Types<S>, receiver: Receiver<S>) -> Seq<(Loc<S>, Seq<char>)> {
    let span = spec_span_for_receiver_error(receiver);
    let t = receiver.ty.rust.name@;
    if t == "Self"@ {
        one(span, unnamed_receiver_message(receiver.mutable))
    } else if !types.is_struct(t) && !types.is_cxx(t) && !types.is_rust(t) {
        one(span, "unrecognized receiver type"@)
    } else if receiver.mutable && !receiver.pinned && spec_is_opaque_cxx(types, t) {
        one(
            span,
            "mutable reference to C++ type requires a pin -- use `self: Pin<&mut "@ + t + ">`"@,
        )
    } else {
        seq![]
    }
}

/// The errors about a function's receiver, if it has one.
pub open spec fn opt_receiver_errors<S>(types: Types<S>, receiver: Option<Receiver<S>>) -> Seq<(Loc<S>, Seq<char>)> {
    match receiver {
        Some(r) => receiver_errors(types, r),
        None => seq![],
    }
}

/// The error about one argument of an extern function.
pub open spec fn arg_error<S>(types: Types<S>, lang: Lang, arg: Var<S>) -> Seq<(Loc<S>, Seq<char>)> {
    match arg.ty {
        Type::Fn(_) => if lang == Lang::Rust {
            one(arg.loc, "passing a function pointer from C++ to Rust is not implemented yet"@)
        } else {
            seq![]
        },
        _ => if spec_is_unsized(types, arg.ty) {
            one(arg.loc, "passing "@ + spec_describe(types, arg.ty) + " by value is not supported"@)
        } else {
            seq![]
        },
    }
}

pub open spec fn arg_errors<S>(types: Types<S>, lang: Lang) -> spec_fn(Var<S>) -> Seq<(Loc<S>, Seq<char>)> {
    |arg: Var<S>| arg_error(types, lang, arg)
}

/// The error about the return type of an extern function.
pub open spec fn ret_errors<S>(types: Types<S>, ret: Option<Type<S>>) -> Seq<(Loc<S>, Seq<char>)> {
    match ret {
        Some(ty) => match ty {
            Type::Fn(_) => one(type_loc(ty), "returning a function pointer is not implemented yet"@),
            _ => if spec_is_unsized(types, ty) {
                one(
                    type_loc(ty),
                    "returning "@ + spec_describe(types, ty) + " by value is not supported"@,
                )
            } else {
                seq![]
            },
        },
        None => seq![],
    }
}

/// Whether a type is `&mut T`.
pub open spec fn is_mut_ref<S>(ty: Type<S>) -> bool {
    ty matches Type::Ref(r) && r.mutable
}

/// Whether some argument is a `&mut` reference.
pub open spec fn has_mut_ref_arg<S>(args: Seq<Var<S>>) -> bool {
    exists|i: int| 0 <= i < args.len() && is_mut_ref(#[trigger] args[i].ty)
}

/// A C++ function may return `&mut` only if it takes a `&mut` argument.
pub open spec fn spec_check_mut_return_restriction<S>(efn: ExternFn<S>) -> Seq<(Loc<S>, Seq<char>)> {
    match efn.sig.ret {
        Some(ty) => if is_mut_ref(ty) && !has_mut_ref_arg(efn.sig.args@) {
            one(efn.loc, "&mut return type is not allowed unless there is a &mut argument"@)
        } else {
            seq![]
        },
        None => seq![],
    }
}

/// The number of arguments that are references.
pub open spec fn count_ref_args<S>(args: Seq<Var<S>>) -> nat
    decreases args.len(),
{
    if args.len() == 0 {
        0
    } else {
        count_ref_args(args.drop_last()) + if args.last().ty is Ref {
            1nat
        } else {
            0nat
        }
    }
}

/// A function returning a reference, unless it is a C++ function from an
/// `unsafe extern` block, must take exactly one reference input, counting
/// its receiver.
pub open spec fn spec_check_multiple_arg_lifetimes<S>(efn: ExternFn<S>) -> Seq<(Loc<S>, Seq<char>)> {
    if efn.lang == Lang::Cxx && efn.trusted {
        seq![]
    } else {
        match efn.sig.ret {
            Some(ty) => if ty is Ref && count_ref_args(efn.sig.args@) + (if efn.sig.receiver is Some {
                1nat
            } else {
                0nat
            }) != 1 {
                one(efn.loc, "functions that return a reference must take exactly one input reference"@)
            } else {
                seq![]
            },
            None => seq![],
        }
    }
}

/// An extern function's errors: its lifetimes, its receiver, each argument,
/// its return type, the `&mut` return rule for C++ functions, and the
/// one-reference-input rule.
pub open spec fn spec_check_api_fn<S>(types: Types<S>, efn: ExternFn<S>) -> Seq<(Loc<S>, Seq<char>)> {
    let receiver = opt_receiver_errors(types, efn.sig.receiver);
    let mut_return = if efn.lang == Lang::Cxx {
        spec_check_mut_return_restriction(efn)
    } else {
        seq![]
    };
    generics_errors(efn) + receiver + flat_map(efn.sig.args@, arg_errors(types, efn.lang))
        + ret_errors(types, efn.sig.ret) + mut_return + spec_check_multiple_arg_lifetimes(efn)
}

pub fn span_for_generics_error<S: Copy>(efn: &ExternFn<S>) -> (r: Loc<S>)
    ensures
        r == spec_span_for_generics_error(*efn),
{
    let start = match efn.sig.unsafety {
        Some(u) => u,
        None => efn.sig.fn_token,
    };
    Loc { start, end: efn.sig.generics.gt_token }
}

pub fn span_for_receiver_error<S: Copy>(receiver: &Receiver<S>) -> (r: Loc<S>)
    ensures
        r == spec_span_for_receiver_error(*receiver),
{
    if receiver.shorthand {
        Loc { start: receiver.ampersand, end: receiver.var }
    } else {
        Loc { start: receiver.ampersand, end: receiver.ty.loc.end }
    }
}

pub fn check_mut_return_restriction<S: Copy>(cx: &mut Check<S>, efn: &ExternFn<S>)
    ensures
        appends(*old(cx), *final(cx), spec_check_mut_return_restriction(*efn)),
{
    let returns_mut = match &efn.sig.ret {
        Some(Type::Ref(ty)) => ty.mutable,
        _ => false,
    };
    if !returns_mut {
        assert(cx.errors@ =~= old(cx).errors@ + seq![]);
        return;
    }

    let mut i: usize = 0;
    while i < efn.sig.args.len()
        invariant
            i <= efn.sig.args@.len(),
            *cx == *old(cx),
            forall|j: int| 0 <= j < i ==> !is_mut_ref(#[trigger] efn.sig.args@[j].ty),
        decreases efn.sig.args@.len() - i,
    {
        if let Type::Ref(ty) = &efn.sig.args[i].ty {
            if ty.mutable {
                assert(is_mut_ref(efn.sig.args@[i as int].ty));
                assert(cx.errors@ =~= old(cx).errors@ + seq![]);
                return;
            }
        }
        i = i + 1;
    }

    cx.error(
        efn.loc,
        String::from_str("&mut return type is not allowed unless there is a &mut argument"),
    );
}

pub fn check_multiple_arg_lifetimes<S: Copy>(cx: &mut Check<S>, efn: &ExternFn<S>)
    ensures
        appends(*old(cx), *final(cx), spec_check_multiple_arg_lifetimes(*efn)),
{
    if efn.lang == Lang::Cxx && efn.trusted {
        assert(cx.errors@ =~= old(cx).errors@ + seq![]);
        return;
    }
    match &efn.sig.ret {
        Some(Type::Ref(_)) => {},
        _ => {
            assert(cx.errors@ =~= old(cx).errors@ + seq![]);
            return;
        },
    }

    let mut reference_args: usize = 0;
    let mut i: usize = 0;
    assert(efn.sig.args@.take(0) =~= Seq::<Var<S>>::empty());
    while i < efn.sig.args.len()
        invariant
            i <= efn.sig.args@.len(),
            reference_args <= i,
            reference_args == count_ref_args(efn.sig.args@.take(i as int)),
        decreases efn.sig.args@.len() - i,
    {
        assert(efn.sig.args@.take(i + 1).drop_last() =~= efn.sig.args@.take(i as int));
        if let Type::Ref(_) = &efn.sig.args[i].ty {
            reference_args = reference_args + 1;
        }
        i = i + 1;
    }
    assert(efn.sig.args@.take(efn.sig.args@.len() as int) =~= efn.sig.args@);

    // Counting the receiver as one more reference input.
    let exactly_one = if efn.sig.receiver.is_some() {
        reference_args == 0
    } else {
        reference_args == 1
    };
    if !exactly_one {
        cx.error(
            efn.loc,
            String::from_str("functions that return a reference must take exactly one input reference"),
        );
    } else {
        assert(cx.errors@ =~= old(cx).errors@ + seq![]);
    }
}

#[verifier::rlimit(60)]
pub fn check_api_fn<S: Copy>(cx: &mut Check<S>, efn: &ExternFn<S>)
    ensures
        appends(*old(cx), *final(cx), spec_check_api_fn(*old(cx).types, *efn)),
{
    let ghost types = *cx.types;
    match efn.lang {
        Lang::Cxx => {
            if efn.sig.generics.has_params && !efn.trusted {
                let span = span_for_generics_error(efn);
                cx.error(
                    span,
                    String::from_str(
                        "extern C++ function with lifetimes must be declared in `unsafe extern \"C++\"` block",
                    ),
                );
            }
        },
        Lang::Rust => {
            if efn.sig.generics.has_params && efn.sig.unsafety.is_none() {
                let span = span_for_generics_error(efn);
                let message = String::from_str("must be `unsafe fn ").concat(
                    efn.name.rust.name.as_str(),
                ).concat("` in order to expose explicit lifetimes to C++");
                cx.error(span, message);
            }
        },
    }
    assert(cx.errors@ =~= old(cx).errors@ + generics_errors(*efn));
    let ghost e1 = cx.errors@;

    if let Some(receiver) = &efn.sig.receiver {
        let span = span_for_receiver_error(receiver);

        if receiver.ty.is_self() {
            let mutability = if receiver.mutable {
                "mut "
            } else {
                ""
            };
            let msg = String::from_str(
                "unnamed receiver type is only allowed if the surrounding extern block contains exactly one extern type; use `self: &",
            ).concat(mutability).concat("TheType`");
            cx.error(span, msg);
        } else if !contains_name(&cx.types.structs, &receiver.ty.rust.name) && !contains_name(
            &cx.types.cxx,
            &receiver.ty.rust.name,
        ) && !contains_name(&cx.types.rust, &receiver.ty.rust.name) {
            cx.error(span, String::from_str("unrecognized receiver type"));
        } else if receiver.mutable && !receiver.pinned && is_opaque_cxx(cx, &receiver.ty.rust) {
            let msg = String::from_str(
                "mutable reference to C++ type requires a pin -- use `self: Pin<&mut ",
            ).concat(receiver.ty.rust.name.as_str()).concat(">`");
            cx.error(span, msg);
        }
    }
    let ghost receiver_part = opt_receiver_errors(types, efn.sig.receiver);
    assert(cx.errors@ =~= e1 + receiver_part);
    let ghost e2 = cx.errors@;

    let mut i: usize = 0;
    assert(efn.sig.args@.take(0) =~= Seq::<Var<S>>::empty());
    assert(e2 =~= e2 + Seq::<(Loc<S>, Seq<char>)>::empty());
    while i < efn.sig.args.len()
        invariant
            i <= efn.sig.args@.len(),
            cx.types == old(cx).types,
            cx.apis == old(cx).apis,
            types == *cx.types,
            cx.errors@ == e2 + flat_map(efn.sig.args@.take(i as int), arg_errors(types, efn.lang)),
        decreases efn.sig.args@.len() - i,
    {
        proof {
            lemma_flat_map_step(efn.sig.args@, arg_errors(types, efn.lang), i as int);
        }
        let arg = &efn.sig.args[i];
        if let Type::Fn(_) = arg.ty {
            if efn.lang == Lang::Rust {
                cx.error(
                    arg.loc,
                    String::from_str(
                        "passing a function pointer from C++ to Rust is not implemented yet",
                    ),
                );
            }
        } else if is_unsized(cx, &arg.ty) {
            let desc = describe(cx, &arg.ty);
            let msg = String::from_str("passing ").concat(desc.as_str()).concat(
                " by value is not supported",
            );
            cx.error(arg.loc, msg);
        }
        assert(cx.errors@ =~= e2 + flat_map(
            efn.sig.args@.take(i + 1),
            arg_errors(types, efn.lang),
        ));
        i = i + 1;
    }
    assert(efn.sig.args@.take(efn.sig.args@.len() as int) =~= efn.sig.args@);
    let ghost e3 = cx.errors@;

    if let Some(ty) = &efn.sig.ret {
        if let Type::Fn(_) = ty {
            cx.error(ty.loc(), String::from_str("returning a function pointer is not implemented yet"));
        } else if is_unsized(cx, ty) {
            let desc = describe(cx, ty);
            let msg = String::from_str("returning ").concat(desc.as_str()).concat(
                " by value is not supported",
            );
            cx.error(ty.loc(), msg);
        }
    }
    assert(cx.errors@ =~= e3 + ret_errors(types, efn.sig.ret));
    let ghost e4 = cx.errors@;

    if efn.lang == Lang::Cxx {
        check_mut_return_restriction(cx, efn);
    } else {
        assert(cx.errors@ =~= e4 + seq![]);
    }

    check_multiple_arg_lifetimes(cx, efn);
    assert(cx.errors@ =~= old(cx).errors@ + spec_check_api_fn(types, *efn));
}


// ---------------------------------------------------------------------------
// The whole bridge.

pub open spec fn type_errors<S>(types: Types<S>) -> spec_fn(Type<S>) -> Seq<(Loc<S>, Seq<char>)> {
    |ty: Type<S>| spec_check_type(types, ty)
}

/// The errors about one item of the bridge.
pub open spec fn spec_check_api<S>(types: Types<S>, api: Api<S>) -> Seq<(Loc<S>, Seq<char>)> {
    match api {
        Api::Include(_) => seq![],
        Api::Struct(strct) => spec_check_api_struct(types, strct),
        Api::Enum(enm) => spec_check_api_enum(enm),
        Api::CxxType(ety) => spec_check_api_type(types, ety),
        Api::RustType(ety) => spec_check_api_type(types, ety),
        Api::CxxFunction(efn) => spec_check_api_fn(types, efn),
        Api::RustFunction(efn) => spec_check_api_fn(types, efn),
        Api::TypeAlias(alias) => spec_check_api_type_alias(alias),
        Api::Impl(imp) => spec_check_api_impl(imp),
    }
}

pub open spec fn api_errors<S>(types: Types<S>) -> spec_fn(Api<S>) -> Seq<(Loc<S>, Seq<char>)> {
    |api: Api<S>| spec_check_api(types, api)
}

/// All errors of a bridge: those about the spelling of the names that its
/// items declare, item by item; then those about each type written in it,
/// in the order of `types.all`; then those about each item, in order.
pub open spec fn spec_do_typecheck<S>(apis: Seq<Api<S>>, types: Types<S>) -> Seq<(Loc<S>, Seq<char>)> {
    spec_check_all(apis) + flat_map(types.all@, type_errors(types)) + flat_map(
        apis,
        api_errors(types),
    )
}

pub fn do_typecheck<S: Copy>(cx: &mut Check<S>)
    ensures
        appends(*old(cx), *final(cx), spec_do_typecheck(old(cx).apis@, *old(cx).types)),
{
    let ghost types = *cx.types;
    let apis = cx.apis;
    check_all(cx, apis);
    let ghost e0 = cx.errors@;

    let all = &cx.types.all;
    let mut i: usize = 0;
    assert(all@.take(0) =~= Seq::<Type<S>>::empty());
    assert(cx.errors@ =~= e0 + Seq::<(Loc<S>, Seq<char>)>::empty());
    while i < all.len()
        invariant
            i <= all@.len(),
            cx.types == old(cx).types,
            cx.apis == old(cx).apis,
            types == *cx.types,
            all == &cx.types.all,
            cx.errors@ == e0 + flat_map(all@.take(i as int), type_errors(types)),
        decreases all@.len() - i,
    {
        proof {
            lemma_flat_map_step(all@, type_errors(types), i as int);
        }
        let ty = &all[i];
        match ty {
            Type::Ident(ident) => check_type_ident(cx, &ident.rust),
            Type::RustBox(ptr) => check_type_box(cx, ptr),
            Type::RustVec(ty) => check_type_rust_vec(cx, ty),
            Type::UniquePtr(ptr) => check_type_unique_ptr(cx, ptr),
            Type::SharedPtr(ptr) => check_type_shared_ptr(cx, ptr),
            Type::CxxVector(ptr) => check_type_cxx_vector(cx, ptr),
            Type::Ref(ty) => check_type_ref(cx, ty),
            Type::Array(array) => check_type_array(cx, array),
            Type::Fn(ty) => check_type_fn(cx, ty),
            Type::SliceRef(ty) => check_type_slice_ref(cx, ty),
            Type::Str(_) | Type::Void(_) => {},
        }
        assert(cx.errors@ =~= e0 + flat_map(all@.take(i + 1), type_errors(types)));
        i = i + 1;
    }
    assert(all@.take(all@.len() as int) =~= all@);
    let ghost e1 = cx.errors@;

    let mut i: usize = 0;
    assert(apis@.take(0) =~= Seq::<Api<S>>::empty());
    assert(e1 =~= e1 + Seq::<(Loc<S>, Seq<char>)>::empty());
    while i < apis.len()
        invariant
            i <= apis@.len(),
            cx.types == old(cx).types,
            cx.apis == old(cx).apis,
            types == *cx.types,
            apis == cx.apis,
            cx.errors@ == e1 + flat_map(apis@.take(i as int), api_errors(types)),
        decreases apis@.len() - i,
    {
        proof {
            lemma_flat_map_step(apis@, api_errors(types), i as int);
        }
        let api = &apis[i];
        match api {
            Api::Include(_) => {},
            Api::Struct(strct) => check_api_struct(cx, strct),
            Api::Enum(enm) => check_api_enum(cx, enm),
            Api::CxxType(ety) | Api::RustType(ety) => check_api_type(cx, ety),
            Api::CxxFunction(efn) | Api::RustFunction(efn) => check_api_fn(cx, efn),
            Api::TypeAlias(alias) => check_api_type_alias(cx, alias),
            Api::Impl(imp) => check_api_impl(cx, imp),
        }
        assert(cx.errors@ =~= e1 + flat_map(apis@.take(i + 1), api_errors(types)));
        i = i + 1;
    }
    assert(apis@.take(apis@.len() as int) =~= apis@);
    assert(cx.errors@ =~= old(cx).errors@ + spec_do_typecheck(old(cx).apis@, types));
}

/// Checks a bridge's items and the types written in them, adding to `cx`
/// one error for each rule that a declaration breaks.
pub fn typecheck<S: Copy>(cx: &mut Errors<S>, apis: &[Api<S>], types: &Types<S>)
    ensures
        final(cx)@ == old(cx)@ + spec_do_typecheck(apis@, *types),
{
    let mut check = Check { apis, types, errors: Errors::new() };
    std::mem::swap(&mut check.errors, cx);
    do_typecheck(&mut check);
    std::mem::swap(&mut check.errors, cx);
}

} // verus!
