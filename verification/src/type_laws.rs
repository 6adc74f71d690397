//! What each check of a written type accepts and reports, stated over the
//! declared names and the builtin types.
use vstd::prelude::*;

use crate::atom::{atom_name, atom_of, Atom};
use crate::check::{
    spec_check_type_array, spec_check_type_box, spec_check_type_cxx_vector, spec_check_type_fn,
    spec_check_type_ident, spec_check_type_ref, spec_check_type_rust_vec,
    spec_check_type_shared_ptr, spec_check_type_slice_ref, spec_check_type_unique_ptr,
    spec_describe, spec_is_unsized,
};
use crate::laws::{law_atom_names_round_trip, lemma_not_builtin};
use crate::report::one;
use crate::syntax::{ident_loc, Array, Ident, Ref, Signature, SliceRef, Ty1, Type};
use crate::types::Types;

verus! {

/// A type that is the name `n`.
pub open spec fn named<S>(ty: Type<S>, n: Seq<char>) -> bool {
    ty matches Type::Ident(t) && t.rust.name@ == n
}

/// A name that spells no builtin type.
pub open spec fn builtin_free(n: Seq<char>) -> bool {
    forall|a: Atom| n != #[trigger] atom_name(a)
}

/// A name declared on the C++ side that is neither a shared type nor an alias.
pub open spec fn cxx_layout_unknown<S>(types: Types<S>, n: Seq<char>) -> bool {
    types.is_cxx(n) && !types.is_alias(n) && !types.is_struct(n) && !types.is_enum(n)
}

/// A name declared on the C++ side whose layout is not known: neither a
/// shared type nor an alias required to be trivial.
pub open spec fn cxx_opaque<S>(types: Types<S>, n: Seq<char>) -> bool {
    types.is_cxx(n) && !types.is_struct(n) && !types.is_enum(n) && !(types.is_alias(n)
        && types.trivial_reason(n) is Some)
}

/// A name is recognized as a builtin exactly when it spells one.
pub proof fn lemma_builtin_free_iff(n: Seq<char>)
    ensures
        atom_of(n) is None <==> builtin_free(n),
{
    if builtin_free(n) {
        lemma_not_builtin(n);
    } else {
        let a = choose|a: Atom| n == #[trigger] atom_name(a);
        law_atom_names_round_trip(a);
    }
}

/// A named type is reported, naming it, exactly when it is neither a
/// builtin nor a declared name.
pub proof fn law_ident_exact<S>(types: Types<S>, ident: Ident<S>)
    ensures
        spec_check_type_ident(types, ident) == if builtin_free(ident.name@) && !types.is_struct(
            ident.name@,
        ) && !types.is_enum(ident.name@) && !types.is_cxx(ident.name@) && !types.is_rust(
            ident.name@,
        ) {
            one(ident_loc(ident), "unsupported type: "@ + ident.name@)
        } else {
            seq![]
        },
{
    lemma_builtin_free_iff(ident.name@);
}

// ---------------------------------------------------------------------------
// Box<T>

/// `Box` of a builtin type is not supported.
pub proof fn law_box_of_builtin<S>(types: Types<S>, ty: Ty1<S>, a: Atom)
    requires
        named(ty.inner, atom_name(a)),
        !types.is_cxx(atom_name(a)),
    ensures
        spec_check_type_box(types, ty) == one(ty.loc, "unsupported target type of Box"@),
{
    law_atom_names_round_trip(a);
}

/// `Box` of a declared name is accepted unless the name is a C++ type of
/// unknown layout.
pub proof fn law_box_of_declared<S>(types: Types<S>, ty: Ty1<S>, n: Seq<char>)
    requires
        named(ty.inner, n),
        builtin_free(n),
    ensures
        spec_check_type_box(types, ty) == if cxx_layout_unknown(types, n) {
            one(ty.loc, "Box of a C++ type is not supported yet"@)
        } else {
            seq![]
        },
{
    lemma_not_builtin(n);
}

/// `Box` of anything but a name is not supported.
pub proof fn law_box_of_unnamed<S>(types: Types<S>, ty: Ty1<S>)
    requires
        !(ty.inner is Ident),
    ensures
        spec_check_type_box(types, ty) == one(ty.loc, "unsupported target type of Box"@),
{
}

// ---------------------------------------------------------------------------
// Vec<T>

/// `Vec` of a builtin is accepted for every builtin but `bool` and `CxxString`.
pub proof fn law_vec_of_builtin<S>(types: Types<S>, ty: Ty1<S>, a: Atom)
    requires
        named(ty.inner, atom_name(a)),
        !types.is_cxx(atom_name(a)),
    ensures
        spec_check_type_rust_vec(types, ty) == if a == Atom::Bool || a == Atom::CxxString {
            one(ty.loc, "unsupported element type of Vec"@)
        } else {
            seq![]
        },
{
    law_atom_names_round_trip(a);
}

/// `Vec` of a declared name is accepted unless the name is a C++ type of
/// unknown layout.
pub proof fn law_vec_of_declared<S>(types: Types<S>, ty: Ty1<S>, n: Seq<char>)
    requires
        named(ty.inner, n),
        builtin_free(n),
    ensures
        spec_check_type_rust_vec(types, ty) == if cxx_layout_unknown(types, n) {
            one(ty.loc, "Rust Vec containing C++ type is not supported yet"@)
        } else {
            seq![]
        },
{
    lemma_not_builtin(n);
}

/// `Vec` of anything but a name is not supported.
pub proof fn law_vec_of_unnamed<S>(types: Types<S>, ty: Ty1<S>)
    requires
        !(ty.inner is Ident),
    ensures
        spec_check_type_rust_vec(types, ty) == one(ty.loc, "unsupported element type of Vec"@),
{
}

// ---------------------------------------------------------------------------
// UniquePtr<T>

/// `UniquePtr` of a builtin is accepted only for `CxxString`.
pub proof fn law_unique_ptr_of_builtin<S>(types: Types<S>, ty: Ty1<S>, a: Atom)
    requires
        named(ty.inner, atom_name(a)),
        !types.is_rust(atom_name(a)),
    ensures
        spec_check_type_unique_ptr(types, ty) == if a == Atom::CxxString {
            seq![]
        } else {
            one(ty.loc, "unsupported unique_ptr target type"@)
        },
{
    law_atom_names_round_trip(a);
}

/// `UniquePtr` of a declared name is accepted unless it is a Rust type.
pub proof fn law_unique_ptr_of_declared<S>(types: Types<S>, ty: Ty1<S>, n: Seq<char>)
    requires
        named(ty.inner, n),
        builtin_free(n),
    ensures
        spec_check_type_unique_ptr(types, ty) == if types.is_rust(n) {
            one(ty.loc, "unique_ptr of a Rust type is not supported yet"@)
        } else {
            seq![]
        },
{
    lemma_not_builtin(n);
}

/// `UniquePtr` of anything but a name is accepted only for a `CxxVector`.
pub proof fn law_unique_ptr_of_unnamed<S>(types: Types<S>, ty: Ty1<S>)
    requires
        !(ty.inner is Ident),
    ensures
        spec_check_type_unique_ptr(types, ty) == if ty.inner is CxxVector {
            seq![]
        } else {
            one(ty.loc, "unsupported unique_ptr target type"@)
        },
{
}

// ---------------------------------------------------------------------------
// SharedPtr<T>

/// `SharedPtr` of a builtin is never supported.
pub proof fn law_shared_ptr_of_builtin<S>(types: Types<S>, ty: Ty1<S>, a: Atom)
    requires
        named(ty.inner, atom_name(a)),
        !types.is_rust(atom_name(a)),
    ensures
        spec_check_type_shared_ptr(types, ty) == if a == Atom::CxxString {
            one(ty.loc, "std::shared_ptr<std::string> is not supported yet"@)
        } else {
            one(ty.loc, "unsupported shared_ptr target type"@)
        },
{
    law_atom_names_round_trip(a);
}

/// `SharedPtr` of a declared name is accepted unless it is a Rust type.
pub proof fn law_shared_ptr_of_declared<S>(types: Types<S>, ty: Ty1<S>, n: Seq<char>)
    requires
        named(ty.inner, n),
        builtin_free(n),
    ensures
        spec_check_type_shared_ptr(types, ty) == if types.is_rust(n) {
            one(ty.loc, "shared_ptr of a Rust type is not supported yet"@)
        } else {
            seq![]
        },
{
    lemma_not_builtin(n);
}

/// `SharedPtr` of anything but a name is not supported.
pub proof fn law_shared_ptr_of_unnamed<S>(types: Types<S>, ty: Ty1<S>)
    requires
        !(ty.inner is Ident),
    ensures
        spec_check_type_shared_ptr(types, ty) == if ty.inner is CxxVector {
            one(ty.loc, "std::shared_ptr<std::vector> is not supported yet"@)
        } else {
            one(ty.loc, "unsupported shared_ptr target type"@)
        },
{
}

// ---------------------------------------------------------------------------
// CxxVector<T>

/// `CxxVector` of a builtin is accepted for every builtin but `c_char`,
/// `bool` and `String`.
pub proof fn law_cxx_vector_of_builtin<S>(types: Types<S>, ty: Ty1<S>, a: Atom)
    requires
        named(ty.inner, atom_name(a)),
        !types.is_rust(atom_name(a)),
    ensures
        spec_check_type_cxx_vector(types, ty) == if a == Atom::Char || a == Atom::Bool || a
            == Atom::RustString {
            one(ty.loc, "unsupported vector target type"@)
        } else {
            seq![]
        },
{
    law_atom_names_round_trip(a);
}

/// `CxxVector` of a declared name is accepted unless it is a Rust type.
pub proof fn law_cxx_vector_of_declared<S>(types: Types<S>, ty: Ty1<S>, n: Seq<char>)
    requires
        named(ty.inner, n),
        builtin_free(n),
    ensures
        spec_check_type_cxx_vector(types, ty) == if types.is_rust(n) {
            one(ty.loc, "C++ vector containing a Rust type is not supported yet"@)
        } else {
            seq![]
        },
{
    lemma_not_builtin(n);
}

/// `CxxVector` of anything but a name is not supported.
pub proof fn law_cxx_vector_of_unnamed<S>(types: Types<S>, ty: Ty1<S>)
    requires
        !(ty.inner is Ident),
    ensures
        spec_check_type_cxx_vector(types, ty) == one(ty.loc, "unsupported vector target type"@),
{
}

// ---------------------------------------------------------------------------
// References

/// A reference to a name is reported only when it is an unpinned `&mut` to
/// `CxxString` or to a C++ type of unknown layout, asking for a pin.
pub proof fn law_ref_to_named<S>(types: Types<S>, r: Ref<S>, n: Seq<char>)
    requires
        named(r.inner, n),
    ensures
        spec_check_type_ref(types, r) == if r.mutable && !r.pinned && (n == "CxxString"@
            || cxx_opaque(types, n)) {
            one(r.loc, "mutable reference to C++ type requires a pin -- use Pin<&mut "@ + n + ">"@)
        } else {
            seq![]
        },
{
    assert(spec_check_type_ref(types, r) =~= (if r.mutable && !r.pinned && (n == "CxxString"@
        || cxx_opaque(types, n)) {
        one(r.loc, "mutable reference to C++ type requires a pin -- use Pin<&mut "@ + n + ">"@)
    } else {
        seq![]
    }));
}

/// A `&mut` to a name that is not declared on the C++ side and is not
/// `CxxString` is accepted: in particular a `&mut` to a Rust type.
pub proof fn law_mut_ref_to_non_cxx_name_accepted<S>(types: Types<S>, r: Ref<S>, n: Seq<char>)
    requires
        named(r.inner, n),
        !types.is_cxx(n),
        n != "CxxString"@,
    ensures
        spec_check_type_ref(types, r).len() == 0,
{
    law_ref_to_named(types, r, n);
}

/// A reference to a `CxxVector` must be pinned when it is `&mut`.
pub proof fn law_ref_to_cxx_vector<S>(types: Types<S>, r: Ref<S>)
    requires
        r.inner is CxxVector,
    ensures
        spec_check_type_ref(types, r) == if r.mutable && !r.pinned {
            one(
                r.loc,
                "mutable reference to C++ type requires a pin -- use Pin<&mut "@ + "CxxVector<...>"@
                    + ">"@,
            )
        } else {
            seq![]
        },
{
    assert(spec_check_type_ref(types, r) =~= (if r.mutable && !r.pinned {
        one(
            r.loc,
            "mutable reference to C++ type requires a pin -- use Pin<&mut "@ + "CxxVector<...>"@
                + ">"@,
        )
    } else {
        seq![]
    }));
}

/// A reference to a reference is not allowed; a reference to a function or
/// to `()` is not supported; any other reference to something that is not
/// a name or a `CxxVector` is accepted.
pub proof fn law_ref_to_other<S>(types: Types<S>, r: Ref<S>)
    requires
        !(r.inner is Ident),
        !(r.inner is CxxVector),
    ensures
        spec_check_type_ref(types, r) == if r.inner is Ref {
            one(r.loc, "C++ does not allow references to references"@)
        } else if r.inner is Fn || r.inner is Void {
            one(r.loc, "unsupported reference type"@)
        } else {
            seq![]
        },
{
    assert(spec_check_type_ref(types, r) =~= (if r.inner is Ref {
        one(r.loc, "C++ does not allow references to references"@)
    } else if r.inner is Fn || r.inner is Void {
        one(r.loc, "unsupported reference type"@)
    } else {
        seq![]
    }));
}

// ---------------------------------------------------------------------------
// What can be held by value

/// A name cannot be held by value exactly when it is `CxxString`, a Rust
/// type, or a C++ type of unknown layout.
pub proof fn law_unsized_named<S>(types: Types<S>, ty: Type<S>, n: Seq<char>)
    requires
        named(ty, n),
    ensures
        spec_is_unsized(types, ty) == (n == "CxxString"@ || types.is_rust(n) || cxx_opaque(
            types,
            n,
        )),
{
}

/// Of the types that are neither names nor arrays, exactly C++ vectors,
/// function pointers and `()` cannot be held by value.
pub proof fn law_unsized_unnamed<S>(types: Types<S>, ty: Type<S>)
    requires
        !(ty is Ident),
        !(ty is Array),
    ensures
        spec_is_unsized(types, ty) == (ty is CxxVector || ty is Fn || ty is Void),
{
}

/// An array is reported exactly when its element is `&str`, a slice, or
/// cannot be held by value.
pub proof fn law_array_exact<S>(types: Types<S>, a: Array<S>)
    ensures
        spec_check_type_array(types, a) == if a.inner is Str || a.inner is SliceRef
            || spec_is_unsized(types, a.inner) {
            one(a.loc, "unsupported array element type"@)
        } else {
            seq![]
        },
{
}

/// The start of the message about an unsupported slice element.
pub open spec fn slice_message_base(mutable: bool) -> Seq<char> {
    "unsupported &"@ + (if mutable {
        "mut "@
    } else {
        ""@
    }) + "[T] element type"@
}

/// A slice of a name is reported exactly when the name cannot be held by
/// value, saying why for opaque types.
pub proof fn law_slice_of_named<S>(types: Types<S>, s: SliceRef<S>, n: Seq<char>)
    requires
        named(s.inner, n),
    ensures
        spec_check_type_slice_ref(types, s) == if types.is_rust(n) {
            one(s.loc, slice_message_base(s.mutable) + ": opaque Rust type is not supported yet"@)
        } else if cxx_opaque(types, n) {
            one(s.loc, slice_message_base(s.mutable) + ": opaque C++ type is not supported yet"@)
        } else if n == "CxxString"@ {
            one(s.loc, slice_message_base(s.mutable))
        } else {
            seq![]
        },
{
}

/// A slice of anything but a name is reported exactly when its element is
/// `&str`, a slice, or cannot be held by value.
pub proof fn law_slice_of_unnamed<S>(types: Types<S>, s: SliceRef<S>)
    requires
        !(s.inner is Ident),
    ensures
        spec_check_type_slice_ref(types, s) == if s.inner is Str || s.inner is SliceRef
            || spec_is_unsized(types, s.inner) {
            one(s.loc, slice_message_base(s.mutable))
        } else {
            seq![]
        },
{
}

/// A function pointer type is reported exactly when it returns a `Result`.
pub proof fn law_fn_pointer_exact<S>(sig: Signature<S>)
    ensures
        spec_check_type_fn(sig) == if sig.throws {
            one(sig.loc, "function pointer returning Result is not supported yet"@)
        } else {
            seq![]
        },
{
}

// ---------------------------------------------------------------------------
// How types are named in messages

/// A name is described by what it is declared as, with `CxxString` and
/// `c_char` described in words, and any other name by itself.
pub proof fn law_describe_named<S>(types: Types<S>, ty: Type<S>, n: Seq<char>)
    requires
        named(ty, n),
    ensures
        spec_describe(types, ty) == if types.is_struct(n) {
            "struct"@
        } else if types.is_enum(n) {
            "enum"@
        } else if types.is_alias(n) {
            "C++ type"@
        } else if types.is_cxx(n) {
            "opaque C++ type"@
        } else if types.is_rust(n) {
            "opaque Rust type"@
        } else if n == "CxxString"@ {
            "C++ string"@
        } else if n == "c_char"@ {
            "C char"@
        } else {
            n
        },
{
    law_atom_names_round_trip(Atom::CxxString);
    law_atom_names_round_trip(Atom::Char);
}

/// Every other type is described by its kind.
pub proof fn law_describe_unnamed<S>(types: Types<S>, ty: Type<S>)
    ensures
        ty is RustBox ==> spec_describe(types, ty) == "Box"@,
        ty is RustVec ==> spec_describe(types, ty) == "Vec"@,
        ty is UniquePtr ==> spec_describe(types, ty) == "unique_ptr"@,
        ty is SharedPtr ==> spec_describe(types, ty) == "shared_ptr"@,
        ty is Ref ==> spec_describe(types, ty) == "reference"@,
        ty is Str ==> spec_describe(types, ty) == "&str"@,
        ty is CxxVector ==> spec_describe(types, ty) == "C++ vector"@,
        ty is SliceRef ==> spec_describe(types, ty) == "slice"@,
        ty is Fn ==> spec_describe(types, ty) == "function pointer"@,
        ty is Void ==> spec_describe(types, ty) == "()"@,
        ty is Array ==> spec_describe(types, ty) == "array"@,
{
}

} // verus!
