//! What the checks of the items of a bridge report, and how each item's
//! errors reach the errors of the whole bridge.
use vstd::prelude::*;

use crate::atom::atom_name;
use crate::check::{
    api_errors, spec_check_api_enum, spec_check_api_fn, spec_check_api_impl,
    spec_check_api_struct, spec_check_api_type, spec_check_api_type_alias, spec_check_type_array,
    spec_check_type_box, spec_check_type_cxx_vector, spec_check_type_fn, spec_check_type_ident,
    spec_check_type_ref, spec_check_type_rust_vec, spec_check_type_shared_ptr,
    spec_check_type_slice_ref, spec_check_type_unique_ptr, spec_describe, spec_do_typecheck,
    spec_is_unsized, type_errors, struct_derive_errors, struct_field_errors, enum_derive_errors,
    extern_type_derive_errors, alias_derive_errors,
};
use crate::ident::{
    api_ident_errors, spec_check, spec_check_all, spec_check_cxx_ident, spec_check_rust_ident,
    var_name_errors, variant_name_errors, cxx_ident_errors,
};
use crate::laws::{
    law_unsized_argument_rejected, lemma_concat_contains, lemma_flat_map_all_empty,
    lemma_flat_map_contains, lemma_not_builtin,
};
use crate::report::{flat_map, one};
use crate::syntax::{
    ident_loc, trait_name, type_loc, Api, Derive, Enum, ExternType, Ident, Impl, Lang, Loc, Pair,
    Struct, Trait, Type, TypeAlias,
};
use crate::type_laws::{builtin_free, named};
use crate::types::{TrivialReason, Types};

verus! {

// ---------------------------------------------------------------------------
// Every item's, type's and name's errors are errors of the bridge.

/// The errors that the check matching an item's kind reports about it.
pub open spec fn item_reports<S>(types: Types<S>, api: Api<S>, d: (Loc<S>, Seq<char>)) -> bool {
    ||| api matches Api::Struct(s) && spec_check_api_struct(types, s).contains(d)
    ||| api matches Api::Enum(e) && spec_check_api_enum(e).contains(d)
    ||| api matches Api::CxxType(e) && spec_check_api_type(types, e).contains(d)
    ||| api matches Api::RustType(e) && spec_check_api_type(types, e).contains(d)
    ||| api matches Api::CxxFunction(f) && spec_check_api_fn(types, f).contains(d)
    ||| api matches Api::RustFunction(f) && spec_check_api_fn(types, f).contains(d)
    ||| api matches Api::TypeAlias(a) && spec_check_api_type_alias(a).contains(d)
    ||| api matches Api::Impl(i) && spec_check_api_impl(i).contains(d)
}

/// Every error that an item's own check reports is reported for the bridge:
/// no kind of item is skipped.
pub proof fn law_item_errors_reach_typecheck<S>(
    types: Types<S>,
    apis: Seq<Api<S>>,
    i: int,
    d: (Loc<S>, Seq<char>),
)
    requires
        0 <= i < apis.len(),
        item_reports(types, apis[i], d),
    ensures
        spec_do_typecheck(apis, types).contains(d),
{
    assert(api_errors(types)(apis[i]).contains(d));
    lemma_flat_map_contains(apis, api_errors(types), i, d);
    lemma_concat_contains(
        spec_check_all(apis) + flat_map(types.all@, type_errors(types)),
        flat_map(apis, api_errors(types)),
        d,
    );
}

/// The errors that the check matching a type's kind reports about it.
pub open spec fn type_reports<S>(types: Types<S>, ty: Type<S>, d: (Loc<S>, Seq<char>)) -> bool {
    ||| ty matches Type::Ident(t) && spec_check_type_ident(types, t.rust).contains(d)
    ||| ty matches Type::RustBox(p) && spec_check_type_box(types, *p).contains(d)
    ||| ty matches Type::RustVec(p) && spec_check_type_rust_vec(types, *p).contains(d)
    ||| ty matches Type::UniquePtr(p) && spec_check_type_unique_ptr(types, *p).contains(d)
    ||| ty matches Type::SharedPtr(p) && spec_check_type_shared_ptr(types, *p).contains(d)
    ||| ty matches Type::CxxVector(p) && spec_check_type_cxx_vector(types, *p).contains(d)
    ||| ty matches Type::Ref(r) && spec_check_type_ref(types, *r).contains(d)
    ||| ty matches Type::Array(a) && spec_check_type_array(types, *a).contains(d)
    ||| ty matches Type::Fn(f) && spec_check_type_fn(*f).contains(d)
    ||| ty matches Type::SliceRef(s) && spec_check_type_slice_ref(types, *s).contains(d)
}

/// Every error that a written type's own check reports is reported for the
/// bridge: no kind of type is skipped.
pub proof fn law_type_errors_reach_typecheck<S>(
    types: Types<S>,
    apis: Seq<Api<S>>,
    i: int,
    d: (Loc<S>, Seq<char>),
)
    requires
        0 <= i < types.all@.len(),
        type_reports(types, types.all@[i], d),
    ensures
        spec_do_typecheck(apis, types).contains(d),
{
    assert(type_errors(types)(types.all@[i]).contains(d));
    lemma_flat_map_contains(types.all@, type_errors(types), i, d);
    lemma_concat_contains(spec_check_all(apis), flat_map(types.all@, type_errors(types)), d);
    lemma_concat_contains(
        spec_check_all(apis) + flat_map(types.all@, type_errors(types)),
        flat_map(apis, api_errors(types)),
        d,
    );
}

/// The names an item declares: its own, and those of its fields, variants
/// or arguments.
pub open spec fn declares<S>(api: Api<S>, name: Pair<S>) -> bool {
    ||| api matches Api::Struct(s) && (s.name == name || exists|k: int|
        0 <= k < s.fields@.len() && #[trigger] s.fields@[k].name == name)
    ||| api matches Api::Enum(e) && (e.name == name || exists|k: int|
        0 <= k < e.variants@.len() && #[trigger] e.variants@[k].name == name)
    ||| api matches Api::CxxType(e) && e.name == name
    ||| api matches Api::RustType(e) && e.name == name
    ||| api matches Api::CxxFunction(f) && (f.name == name || exists|k: int|
        0 <= k < f.sig.args@.len() && #[trigger] f.sig.args@[k].name == name)
    ||| api matches Api::RustFunction(f) && (f.name == name || exists|k: int|
        0 <= k < f.sig.args@.len() && #[trigger] f.sig.args@[k].name == name)
    ||| api matches Api::TypeAlias(a) && a.name == name
}

/// Every error about the spelling of a name that an item declares is
/// reported for the bridge.
pub proof fn law_name_errors_reach_typecheck<S>(
    types: Types<S>,
    apis: Seq<Api<S>>,
    i: int,
    name: Pair<S>,
    d: (Loc<S>, Seq<char>),
)
    requires
        0 <= i < apis.len(),
        declares(apis[i], name),
        spec_check(name).contains(d),
    ensures
        spec_do_typecheck(apis, types).contains(d),
{
    let api = apis[i];
    match api {
        Api::Struct(s) => {
            if s.name == name {
                lemma_concat_contains(spec_check(name), flat_map(s.fields@, var_name_errors::<S>()), d);
            } else {
                let k = choose|k: int| 0 <= k < s.fields@.len() && #[trigger] s.fields@[k].name == name;
                lemma_flat_map_contains(s.fields@, var_name_errors::<S>(), k, d);
                lemma_concat_contains(spec_check(s.name), flat_map(s.fields@, var_name_errors::<S>()), d);
            }
        },
        Api::Enum(e) => {
            if e.name == name {
                lemma_concat_contains(spec_check(name), flat_map(e.variants@, variant_name_errors::<S>()), d);
            } else {
                let k = choose|k: int| 0 <= k < e.variants@.len() && #[trigger] e.variants@[k].name == name;
                lemma_flat_map_contains(e.variants@, variant_name_errors::<S>(), k, d);
                lemma_concat_contains(spec_check(e.name), flat_map(e.variants@, variant_name_errors::<S>()), d);
            }
        },
        Api::CxxFunction(f) => {
            if f.name == name {
                lemma_concat_contains(spec_check(name), flat_map(f.sig.args@, var_name_errors::<S>()), d);
            } else {
                let k = choose|k: int| 0 <= k < f.sig.args@.len() && #[trigger] f.sig.args@[k].name == name;
                lemma_flat_map_contains(f.sig.args@, var_name_errors::<S>(), k, d);
                lemma_concat_contains(spec_check(f.name), flat_map(f.sig.args@, var_name_errors::<S>()), d);
            }
        },
        Api::RustFunction(f) => {
            if f.name == name {
                lemma_concat_contains(spec_check(name), flat_map(f.sig.args@, var_name_errors::<S>()), d);
            } else {
                let k = choose|k: int| 0 <= k < f.sig.args@.len() && #[trigger] f.sig.args@[k].name == name;
                lemma_flat_map_contains(f.sig.args@, var_name_errors::<S>(), k, d);
                lemma_concat_contains(spec_check(f.name), flat_map(f.sig.args@, var_name_errors::<S>()), d);
            }
        },
        _ => {},
    }
    assert(api_ident_errors::<S>()(apis[i]).contains(d));
    lemma_flat_map_contains(apis, api_ident_errors::<S>(), i, d);
    lemma_concat_contains(spec_check_all(apis), flat_map(types.all@, type_errors(types)), d);
    lemma_concat_contains(
        spec_check_all(apis) + flat_map(types.all@, type_errors(types)),
        flat_map(apis, api_errors(types)),
        d,
    );
}

/// Every extern function, of either language, has each argument that cannot
/// be passed by value (other than a function pointer) reported for the
/// bridge, at the argument, naming its type.
pub proof fn law_unsized_argument_reaches_typecheck<S>(
    types: Types<S>,
    apis: Seq<Api<S>>,
    i: int,
    j: int,
)
    requires
        0 <= i < apis.len(),
        apis[i] is CxxFunction || apis[i] is RustFunction,
        ({
            let f = if apis[i] is CxxFunction {
                apis[i]->CxxFunction_0
            } else {
                apis[i]->RustFunction_0
            };
            &&& 0 <= j < f.sig.args@.len()
            &&& !(f.sig.args@[j].ty is Fn)
            &&& spec_is_unsized(types, f.sig.args@[j].ty)
        }),
    ensures
        ({
            let f = if apis[i] is CxxFunction {
                apis[i]->CxxFunction_0
            } else {
                apis[i]->RustFunction_0
            };
            spec_do_typecheck(apis, types).contains(
                (
                    f.sig.args@[j].loc,
                    "passing "@ + spec_describe(types, f.sig.args@[j].ty)
                        + " by value is not supported"@,
                ),
            )
        }),
{
    let f = if apis[i] is CxxFunction {
        apis[i]->CxxFunction_0
    } else {
        apis[i]->RustFunction_0
    };
    law_unsized_argument_rejected(types, f, j);
    law_item_errors_reach_typecheck(
        types,
        apis,
        i,
        (f.sig.args@[j].loc, "passing "@ + spec_describe(types, f.sig.args@[j].ty) + " by value is not supported"@),
    );
}

// ---------------------------------------------------------------------------
// Names

/// A name that a declaration may take: not a standard wrapper, `str`, or a builtin.
pub open spec fn free_name(n: Seq<char>) -> bool {
    &&& n != "Box"@
    &&& n != "UniquePtr"@
    &&& n != "SharedPtr"@
    &&& n != "Vec"@
    &&& n != "CxxVector"@
    &&& n != "str"@
    &&& builtin_free(n)
}

/// A C++ name is reported exactly when it holds two underscores in a row.
pub proof fn law_cxx_name_rule<S>(ident: Ident<S>)
    ensures
        spec_check_cxx_ident(ident) == if exists|k: int|
            0 <= k && k + 1 < ident.name@.len() && #[trigger] ident.name@[k] == '_'
                && ident.name@[k + 1] == '_' {
            one(ident_loc(ident), "identifiers containing double underscore are reserved in C++"@)
        } else {
            seq![]
        },
{
}

/// A Rust name is reported exactly when it starts with `cxxbridge`.
pub proof fn law_rust_name_rule<S>(ident: Ident<S>)
    ensures
        spec_check_rust_ident(ident) == if ident.name@.len() >= 9 && ident.name@.subrange(0, 9)
            == "cxxbridge"@ {
            one(ident_loc(ident), "identifiers starting with cxxbridge are reserved"@)
        } else {
            seq![]
        },
{
    reveal_strlit("cxxbridge");
    assert("cxxbridge"@.len() == 9);
}

/// Each namespace segment and the C++ name of a declared name are held to
/// the C++ rule, and its Rust name to the Rust rule.
pub proof fn law_each_part_of_a_name_is_checked<S>(name: Pair<S>, k: int, d: (Loc<S>, Seq<char>))
    requires
        (0 <= k < name.namespace@.len() && spec_check_cxx_ident(name.namespace@[k]).contains(d))
            || spec_check_cxx_ident(name.cxx).contains(d) || spec_check_rust_ident(name.rust).contains(d),
    ensures
        spec_check(name).contains(d),
{
    let ns = flat_map(name.namespace@, cxx_ident_errors::<S>());
    if 0 <= k < name.namespace@.len() && spec_check_cxx_ident(name.namespace@[k]).contains(d) {
        lemma_flat_map_contains(name.namespace@, cxx_ident_errors::<S>(), k, d);
    }
    lemma_concat_contains(ns, spec_check_cxx_ident(name.cxx), d);
    lemma_concat_contains(ns + spec_check_cxx_ident(name.cxx), spec_check_rust_ident(name.rust), d);
}

/// Whether a name is one a declaration may not take, being a builtin.
proof fn lemma_reserved_builtin(n: Seq<char>)
    requires
        !builtin_free(n),
    ensures
        crate::atom::atom_of(n) is Some,
{
    let a = choose|a: crate::atom::Atom| n == #[trigger] atom_name(a);
    crate::laws::law_atom_names_round_trip(a);
}

/// A shared struct named like a wrapper, `str` or a builtin is reported at its name.
pub proof fn law_struct_reserved_name_rejected<S>(types: Types<S>, s: Struct<S>)
    requires
        !free_name(s.name.rust.name@),
    ensures
        spec_check_api_struct(types, s).contains((ident_loc(s.name.rust), "reserved name"@)),
{
    if !builtin_free(s.name.rust.name@) {
        lemma_reserved_builtin(s.name.rust.name@);
    }
    assert(spec_check_api_struct(types, s)[0] == (ident_loc(s.name.rust), "reserved name"@));
}

/// A shared enum named like a wrapper, `str` or a builtin is reported at its name.
pub proof fn law_enum_reserved_name_rejected<S>(e: Enum<S>)
    requires
        !free_name(e.name.rust.name@),
    ensures
        spec_check_api_enum(e).contains((ident_loc(e.name.rust), "reserved name"@)),
{
    if !builtin_free(e.name.rust.name@) {
        lemma_reserved_builtin(e.name.rust.name@);
    }
    assert(spec_check_api_enum(e)[0] == (ident_loc(e.name.rust), "reserved name"@));
}

/// An extern type named like a wrapper, `str` or a builtin is reported at its name.
pub proof fn law_extern_type_reserved_name_rejected<S>(types: Types<S>, e: ExternType<S>)
    requires
        !free_name(e.name.rust.name@),
    ensures
        spec_check_api_type(types, e).contains((ident_loc(e.name.rust), "reserved name"@)),
{
    if !builtin_free(e.name.rust.name@) {
        lemma_reserved_builtin(e.name.rust.name@);
    }
    assert(spec_check_api_type(types, e)[0] == (ident_loc(e.name.rust), "reserved name"@));
}

// ---------------------------------------------------------------------------
// Shared structs

/// Each part of a struct's errors is among the struct's errors.
proof fn lemma_struct_parts_contained<S>(types: Types<S>, s: Struct<S>, d: (Loc<S>, Seq<char>))
    requires
        flat_map(s.derives@, struct_derive_errors::<S>()).contains(d)
            || flat_map(s.fields@, struct_field_errors(types)).contains(d),
    ensures
        spec_check_api_struct(types, s).contains(d),
{
    let whole = spec_check_api_struct(types, s);
    let ds = flat_map(s.derives@, struct_derive_errors::<S>());
    let fs = flat_map(s.fields@, struct_field_errors(types));
    let head = whole.subrange(0, whole.len() - fs.len() - ds.len());
    assert(whole =~= head + ds + fs);
    lemma_concat_contains(head, ds, d);
    lemma_concat_contains(head + ds, fs, d);
}

/// A shared struct is accepted when its name is free, it has fields, it
/// does not shadow an extern C++ type of a safe block, it does not derive
/// `ExternType`, and every field can be held by value and is not a
/// function pointer: in particular, any other derive is accepted.
pub proof fn law_struct_accepted<S>(types: Types<S>, s: Struct<S>)
    requires
        free_name(s.name.rust.name@),
        s.fields@.len() > 0,
        !(types.is_cxx(s.name.rust.name@) && types.untrusted_at(s.name.rust.name@) is Some),
        forall|k: int| 0 <= k < s.derives@.len() ==> (#[trigger] s.derives@[k]).what != Trait::ExternType,
        forall|k: int|
            0 <= k < s.fields@.len() ==> !((#[trigger] s.fields@[k]).ty is Fn) && !spec_is_unsized(
                types,
                s.fields@[k].ty,
            ),
    ensures
        spec_check_api_struct(types, s).len() == 0,
{
    lemma_not_builtin(s.name.rust.name@);
    assert forall|k: int| 0 <= k < s.derives@.len() implies (#[trigger] struct_derive_errors::<S>()(
        s.derives@[k],
    )).len() == 0 by {}
    lemma_flat_map_all_empty(s.derives@, struct_derive_errors::<S>());
    assert forall|k: int| 0 <= k < s.fields@.len() implies (#[trigger] struct_field_errors(types)(
        s.fields@[k],
    )).len() == 0 by {}
    lemma_flat_map_all_empty(s.fields@, struct_field_errors(types));
}

/// Each `derive(ExternType)` on a shared struct is reported at the derive.
pub proof fn law_struct_extern_type_derive_rejected<S>(types: Types<S>, s: Struct<S>, k: int)
    requires
        0 <= k < s.derives@.len(),
        s.derives@[k].what == Trait::ExternType,
    ensures
        spec_check_api_struct(types, s).contains(
            (
                Loc { start: s.derives@[k].span, end: s.derives@[k].span },
                "derive("@ + "ExternType"@ + ") on shared struct is not supported"@,
            ),
        ),
{
    let d = (
        Loc { start: s.derives@[k].span, end: s.derives@[k].span },
        "derive("@ + "ExternType"@ + ") on shared struct is not supported"@,
    );
    assert(struct_derive_errors::<S>()(s.derives@[k])[0] == d);
    lemma_flat_map_contains(s.derives@, struct_derive_errors::<S>(), k, d);
    lemma_struct_parts_contained(types, s, d);
}

/// A field of a function pointer type is reported at the field.
pub proof fn law_function_pointer_field_rejected<S>(types: Types<S>, s: Struct<S>, k: int)
    requires
        0 <= k < s.fields@.len(),
        s.fields@[k].ty is Fn,
    ensures
        spec_check_api_struct(types, s).contains(
            (s.fields@[k].loc, "function pointers in a struct field are not implemented yet"@),
        ),
{
    let d = (s.fields@[k].loc, "function pointers in a struct field are not implemented yet"@);
    assert(struct_field_errors(types)(s.fields@[k])[0] == d);
    lemma_flat_map_contains(s.fields@, struct_field_errors(types), k, d);
    lemma_struct_parts_contained(types, s, d);
}

/// A shared struct without fields is reported from `struct` to its braces.
pub proof fn law_struct_without_fields_rejected<S>(types: Types<S>, s: Struct<S>)
    requires
        s.fields@.len() == 0,
    ensures
        spec_check_api_struct(types, s).contains(
            (
                Loc { start: s.struct_token, end: s.brace_token },
                "structs without any fields are not supported"@,
            ),
        ),
{
    let whole = spec_check_api_struct(types, s);
    let r = crate::check::spec_check_reserved_name(s.name.rust);
    assert(whole[r.len() as int] == (
        Loc { start: s.struct_token, end: s.brace_token },
        "structs without any fields are not supported"@,
    ));
}

/// A shared struct whose name is also an extern C++ type declared in a safe
/// extern block is reported at that extern type.
pub proof fn law_struct_shadowing_untrusted_rejected<S>(types: Types<S>, s: Struct<S>, l: Loc<S>)
    requires
        types.is_cxx(s.name.rust.name@),
        types.untrusted_at(s.name.rust.name@) == Some(l),
    ensures
        spec_check_api_struct(types, s).contains(
            (l, "extern shared struct must be declared in an `unsafe extern` block"@),
        ),
{
    let whole = spec_check_api_struct(types, s);
    let r = crate::check::spec_check_reserved_name(s.name.rust);
    let e = if s.fields@.len() == 0 {
        1int
    } else {
        0int
    };
    assert(whole[r.len() + e] == (l, "extern shared struct must be declared in an `unsafe extern` block"@));
}

// ---------------------------------------------------------------------------
// Shared enums

/// A shared enum is accepted when its name is free, it has variants or an
/// explicit `#[repr]`, and it derives neither `Default` nor `ExternType`.
pub proof fn law_enum_accepted<S>(e: Enum<S>)
    requires
        free_name(e.name.rust.name@),
        e.variants@.len() > 0 || e.explicit_repr,
        forall|k: int|
            0 <= k < e.derives@.len() ==> (#[trigger] e.derives@[k]).what != Trait::Default
                && e.derives@[k].what != Trait::ExternType,
    ensures
        spec_check_api_enum(e).len() == 0,
{
    lemma_not_builtin(e.name.rust.name@);
    assert forall|k: int| 0 <= k < e.derives@.len() implies (#[trigger] enum_derive_errors::<S>()(
        e.derives@[k],
    )).len() == 0 by {}
    lemma_flat_map_all_empty(e.derives@, enum_derive_errors::<S>());
}

/// Each `derive(Default)` and `derive(ExternType)` on a shared enum is
/// reported at the derive.
pub proof fn law_enum_derive_rejected<S>(e: Enum<S>, k: int)
    requires
        0 <= k < e.derives@.len(),
        e.derives@[k].what == Trait::Default || e.derives@[k].what == Trait::ExternType,
    ensures
        spec_check_api_enum(e).contains(
            (
                Loc { start: e.derives@[k].span, end: e.derives@[k].span },
                "derive("@ + (if e.derives@[k].what == Trait::Default {
                    "Default"@
                } else {
                    "ExternType"@
                }) + ") on shared enum is not supported"@,
            ),
        ),
{
    let d = (
        Loc { start: e.derives@[k].span, end: e.derives@[k].span },
        "derive("@ + (if e.derives@[k].what == Trait::Default {
            "Default"@
        } else {
            "ExternType"@
        }) + ") on shared enum is not supported"@,
    );
    assert(enum_derive_errors::<S>()(e.derives@[k])[0] == d);
    lemma_flat_map_contains(e.derives@, enum_derive_errors::<S>(), k, d);
    let whole = spec_check_api_enum(e);
    let ds = flat_map(e.derives@, enum_derive_errors::<S>());
    let head = whole.subrange(0, whole.len() - ds.len());
    assert(whole =~= head + ds);
    lemma_concat_contains(head, ds, d);
}

/// A shared enum without variants or an explicit `#[repr]` is reported
/// from `enum` to its braces.
pub proof fn law_enum_without_variants_rejected<S>(e: Enum<S>)
    requires
        e.variants@.len() == 0,
        !e.explicit_repr,
    ensures
        spec_check_api_enum(e).contains(
            (
                Loc { start: e.enum_token, end: e.brace_token },
                "explicit #[repr(...)] is required for enum without any variants"@,
            ),
        ),
{
    let r = crate::check::spec_check_reserved_name(e.name.rust);
    assert(spec_check_api_enum(e)[r.len() as int] == (
        Loc { start: e.enum_token, end: e.brace_token },
        "explicit #[repr(...)] is required for enum without any variants"@,
    ));
}

// ---------------------------------------------------------------------------
// Opaque extern types

/// An extern type is accepted when its name is free, it has no bounds, it
/// is not required to be trivial, and it derives nothing but `ExternType`,
/// and that only on the Rust side.
pub proof fn law_extern_type_accepted<S>(types: Types<S>, e: ExternType<S>)
    requires
        free_name(e.name.rust.name@),
        e.bounds@.len() == 0,
        types.trivial_reason(e.name.rust.name@) is None,
        forall|k: int|
            0 <= k < e.derives@.len() ==> (#[trigger] e.derives@[k]).what == Trait::ExternType
                && e.lang == Lang::Rust,
    ensures
        spec_check_api_type(types, e).len() == 0,
{
    lemma_not_builtin(e.name.rust.name@);
    assert forall|k: int| 0 <= k < e.derives@.len() implies (#[trigger] extern_type_derive_errors::<S>(
        e.lang,
    )(e.derives@[k])).len() == 0 by {}
    lemma_flat_map_all_empty(e.derives@, extern_type_derive_errors::<S>(e.lang));
}

/// Any other derive on an extern type is reported at the derive.
pub proof fn law_extern_type_derive_rejected<S>(types: Types<S>, e: ExternType<S>, k: int)
    requires
        0 <= k < e.derives@.len(),
        !(e.derives@[k].what == Trait::ExternType && e.lang == Lang::Rust),
    ensures
        spec_check_api_type(types, e).contains(
            (
                Loc { start: e.derives@[k].span, end: e.derives@[k].span },
                "derive("@ + trait_name(e.derives@[k].what) + ") on opaque "@ + (if e.lang
                    == Lang::Rust {
                    "Rust"@
                } else {
                    "C++"@
                }) + " type is not supported yet"@,
            ),
        ),
{
    let d = (
        Loc { start: e.derives@[k].span, end: e.derives@[k].span },
        "derive("@ + trait_name(e.derives@[k].what) + ") on opaque "@ + (if e.lang == Lang::Rust {
            "Rust"@
        } else {
            "C++"@
        }) + " type is not supported yet"@,
    );
    assert(extern_type_derive_errors::<S>(e.lang)(e.derives@[k])[0] == d);
    lemma_flat_map_contains(e.derives@, extern_type_derive_errors::<S>(e.lang), k, d);
    let whole = spec_check_api_type(types, e);
    let r = crate::check::spec_check_reserved_name(e.name.rust);
    let ds = flat_map(e.derives@, extern_type_derive_errors::<S>(e.lang));
    let tail = whole.subrange((r.len() + ds.len()) as int, whole.len() as int);
    assert(whole =~= r + ds + tail);
    lemma_concat_contains(r, ds, d);
    lemma_concat_contains(r + ds, tail, d);
}

/// Bounds on an extern type are reported, from the first to the last.
pub proof fn law_extern_type_bounds_rejected<S>(types: Types<S>, e: ExternType<S>)
    requires
        e.bounds@.len() > 0,
    ensures
        spec_check_api_type(types, e).contains(
            (
                Loc { start: e.bounds@[0].span, end: e.bounds@.last().span },
                "extern type bounds are not implemented yet"@,
            ),
        ),
{
    let r = crate::check::spec_check_reserved_name(e.name.rust);
    let ds = flat_map(e.derives@, extern_type_derive_errors::<S>(e.lang));
    assert(spec_check_api_type(types, e)[(r.len() + ds.len()) as int] == (
        Loc { start: e.bounds@[0].span, end: e.bounds@.last().span },
        "extern type bounds are not implemented yet"@,
    ));
}

/// The use that requires a type to be trivially movable, in words.
pub open spec fn trivial_use_words(reason: TrivialReason, n: Seq<char>) -> Seq<char> {
    match reason {
        TrivialReason::StructField(s) => "a field of `"@ + s@ + "`"@,
        TrivialReason::FunctionArgument(f) => "an argument of `"@ + f@ + "`"@,
        TrivialReason::FunctionReturn(f) => "a return value of `"@ + f@ + "`"@,
        TrivialReason::BoxTarget => "Box<"@ + n + ">"@,
        TrivialReason::VecElement => "a vector element in Vec<"@ + n + ">"@,
    }
}

/// An extern type used where a trivially movable type is required is
/// reported, saying which use requires it.
pub proof fn law_extern_type_required_trivial_rejected<S>(
    types: Types<S>,
    e: ExternType<S>,
    reason: TrivialReason,
)
    requires
        types.trivial_reason(e.name.rust.name@) == Some(reason),
    ensures
        spec_check_api_type(types, e).contains(
            (
                e.loc,
                "needs a cxx::ExternType impl in order to be used as "@ + trivial_use_words(
                    reason,
                    e.name.rust.name@,
                ),
            ),
        ),
{
    let whole = spec_check_api_type(types, e);
    assert(whole[whole.len() - 1] == (
        e.loc,
        "needs a cxx::ExternType impl in order to be used as "@ + trivial_use_words(
            reason,
            e.name.rust.name@,
        ),
    ));
}

// ---------------------------------------------------------------------------
// Type aliases and impls

/// An extern type alias is reported exactly when it derives something, once
/// per derive, at the derive.
pub proof fn law_alias_derives_rejected<S>(a: TypeAlias<S>, k: int)
    ensures
        spec_check_api_type_alias(a).len() == 0 <==> a.derives@.len() == 0,
        0 <= k < a.derives@.len() ==> spec_check_api_type_alias(a).contains(
            (
                Loc { start: a.derives@[k].span, end: a.derives@[k].span },
                "derive("@ + trait_name(a.derives@[k].what)
                    + ") on extern type alias is not supported"@,
            ),
        ),
{
    if a.derives@.len() > 0 {
        let j = a.derives@.len() - 1;
        let d = (
            Loc { start: a.derives@[j].span, end: a.derives@[j].span },
            "derive("@ + trait_name(a.derives@[j].what) + ") on extern type alias is not supported"@,
        );
        assert(alias_derive_errors::<S>()(a.derives@[j])[0] == d);
        lemma_flat_map_contains(a.derives@, alias_derive_errors::<S>(), j, d);
    }
    if 0 <= k < a.derives@.len() {
        let d = (
            Loc { start: a.derives@[k].span, end: a.derives@[k].span },
            "derive("@ + trait_name(a.derives@[k].what) + ") on extern type alias is not supported"@,
        );
        assert(alias_derive_errors::<S>()(a.derives@[k])[0] == d);
        lemma_flat_map_contains(a.derives@, alias_derive_errors::<S>(), k, d);
    }
}

/// Whether a type is `Box`, `Vec`, `UniquePtr`, `SharedPtr` or `CxxVector`
/// of a declared (non-builtin) name.
pub open spec fn wrapper_of_declared<S>(ty: Type<S>) -> bool {
    ||| ty matches Type::RustBox(t) && (t.inner matches Type::Ident(i) && builtin_free(i.rust.name@))
    ||| ty matches Type::RustVec(t) && (t.inner matches Type::Ident(i) && builtin_free(i.rust.name@))
    ||| ty matches Type::UniquePtr(t) && (t.inner matches Type::Ident(i) && builtin_free(i.rust.name@))
    ||| ty matches Type::SharedPtr(t) && (t.inner matches Type::Ident(i) && builtin_free(i.rust.name@))
    ||| ty matches Type::CxxVector(t) && (t.inner matches Type::Ident(i) && builtin_free(i.rust.name@))
}

/// An explicit impl is accepted exactly when it is not negative and is for
/// a standard wrapper of a declared name; a negative impl is reported from
/// `!` through its type; any other is reported at the impl.
pub proof fn law_impl_exact<S>(imp: Impl<S>)
    ensures
        spec_check_api_impl(imp) == match imp.negative_token {
            Some(neg) => one(
                Loc { start: neg, end: type_loc(imp.ty).end },
                "negative impl is not supported yet"@,
            ),
            None => if wrapper_of_declared(imp.ty) {
                seq![]
            } else {
                one(imp.loc, "unsupported Self type of explicit impl"@)
            },
        },
{
    let inner_name = match imp.ty {
        Type::RustBox(t) => Some(t.inner),
        Type::RustVec(t) => Some(t.inner),
        Type::UniquePtr(t) => Some(t.inner),
        Type::SharedPtr(t) => Some(t.inner),
        Type::CxxVector(t) => Some(t.inner),
        _ => None,
    };
    if let Some(Type::Ident(i)) = inner_name {
        crate::type_laws::lemma_builtin_free_iff(i.rust.name@);
    }
}


// ---------------------------------------------------------------------------
// Names that break no rule

/// A name breaks no spelling rule: no C++ part holds `__`, and the Rust
/// name does not start with `cxxbridge`.
pub open spec fn clean_cxx_part(n: Seq<char>) -> bool {
    forall|k: int| 0 <= k && k + 1 < n.len() ==> !(#[trigger] n[k] == '_' && n[k + 1] == '_')
}

pub open spec fn clean_name<S>(name: Pair<S>) -> bool {
    &&& forall|k: int| 0 <= k < name.namespace@.len() ==> clean_cxx_part(#[trigger] name.namespace@[k].name@)
    &&& clean_cxx_part(name.cxx.name@)
    &&& !(name.rust.name@.len() >= 9 && name.rust.name@.subrange(0, 9) == "cxxbridge"@)
}

/// A name that breaks no spelling rule is not reported.
pub proof fn law_clean_name_accepted<S>(name: Pair<S>)
    requires
        clean_name(name),
    ensures
        spec_check(name).len() == 0,
{
    assert forall|k: int| 0 <= k < name.namespace@.len() implies (#[trigger] cxx_ident_errors::<S>()(
        name.namespace@[k],
    )).len() == 0 by {
        law_cxx_name_rule(name.namespace@[k]);
    }
    lemma_flat_map_all_empty(name.namespace@, cxx_ident_errors::<S>());
    law_cxx_name_rule(name.cxx);
    law_rust_name_rule(name.rust);
}

/// A bridge all of whose declared names break no spelling rule has no
/// error from the name pass.
pub proof fn law_clean_names_accepted<S>(apis: Seq<Api<S>>)
    requires
        forall|i: int, name: Pair<S>|
            0 <= i < apis.len() && #[trigger] declares(apis[i], name) ==> clean_name(name),
    ensures
        spec_check_all(apis).len() == 0,
{
    assert forall|i: int| 0 <= i < apis.len() implies (#[trigger] api_ident_errors::<S>()(
        apis[i],
    )).len() == 0 by {
        let api = apis[i];
        match api {
            Api::Struct(s) => {
                assert(declares(api, s.name));
                law_clean_name_accepted(s.name);
                assert forall|k: int| 0 <= k < s.fields@.len() implies (#[trigger] var_name_errors::<S>()(
                    s.fields@[k],
                )).len() == 0 by {
                    assert(declares(api, s.fields@[k].name));
                    law_clean_name_accepted(s.fields@[k].name);
                }
                lemma_flat_map_all_empty(s.fields@, var_name_errors::<S>());
            },
            Api::Enum(e) => {
                assert(declares(api, e.name));
                law_clean_name_accepted(e.name);
                assert forall|k: int| 0 <= k < e.variants@.len() implies (#[trigger] variant_name_errors::<S>()(
                    e.variants@[k],
                )).len() == 0 by {
                    assert(declares(api, e.variants@[k].name));
                    law_clean_name_accepted(e.variants@[k].name);
                }
                lemma_flat_map_all_empty(e.variants@, variant_name_errors::<S>());
            },
            Api::CxxType(e) => {
                assert(declares(api, e.name));
                law_clean_name_accepted(e.name);
            },
            Api::RustType(e) => {
                assert(declares(api, e.name));
                law_clean_name_accepted(e.name);
            },
            Api::CxxFunction(f) => {
                assert(declares(api, f.name));
                law_clean_name_accepted(f.name);
                assert forall|k: int| 0 <= k < f.sig.args@.len() implies (#[trigger] var_name_errors::<S>()(
                    f.sig.args@[k],
                )).len() == 0 by {
                    assert(declares(api, f.sig.args@[k].name));
                    law_clean_name_accepted(f.sig.args@[k].name);
                }
                lemma_flat_map_all_empty(f.sig.args@, var_name_errors::<S>());
            },
            Api::RustFunction(f) => {
                assert(declares(api, f.name));
                law_clean_name_accepted(f.name);
                assert forall|k: int| 0 <= k < f.sig.args@.len() implies (#[trigger] var_name_errors::<S>()(
                    f.sig.args@[k],
                )).len() == 0 by {
                    assert(declares(api, f.sig.args@[k].name));
                    law_clean_name_accepted(f.sig.args@[k].name);
                }
                lemma_flat_map_all_empty(f.sig.args@, var_name_errors::<S>());
            },
            Api::TypeAlias(a) => {
                assert(declares(api, a.name));
                law_clean_name_accepted(a.name);
            },
            _ => {},
        }
    }
    lemma_flat_map_all_empty(apis, api_ident_errors::<S>());
}

} // verus!
