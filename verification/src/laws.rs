//! Properties of the checks as a whole.
use vstd::prelude::*;

use crate::atom::{atom_name, atom_of, Atom};
use crate::check::{
    api_errors, arg_errors, is_reserved_name, spec_check_api_fn, spec_check_api_struct,
    spec_check_type, spec_check_type_ident, spec_describe, spec_do_typecheck, spec_is_opaque_cxx,
    spec_is_unsized, struct_field_errors, spec_check_type_ref, spec_ref_pin_errors, type_errors, spec_check_multiple_arg_lifetimes,
    count_ref_args,
};
use crate::ident::{api_ident_errors, spec_check_all};
use crate::report::flat_map;
use crate::syntax::{ident_loc, type_loc, Api, ExternFn, Ident, Loc, Ref, Struct, Type};
use crate::types::Types;

verus! {

/// The diagnostics of a list split in two are those of each part, one after the other.
pub proof fn lemma_flat_map_concat<A, S>(
    a: Seq<A>,
    b: Seq<A>,
    f: spec_fn(A) -> Seq<(Loc<S>, Seq<char>)>,
)
    ensures
        flat_map(a + b, f) == flat_map(a, f) + flat_map(b, f),
    decreases b.len(),
{
    if b.len() == 0 {
        assert(a + b =~= a);
        assert(flat_map(a, f) + flat_map(b, f) =~= flat_map(a, f));
    } else {
        lemma_flat_map_concat(a, b.drop_last(), f);
        assert((a + b).drop_last() =~= a + b.drop_last());
        assert((a + b).last() == b.last());
        assert(flat_map(a, f) + flat_map(b, f) =~= flat_map(a, f) + flat_map(b.drop_last(), f) + f(
            b.last(),
        ));
    }
}

/// Every diagnostic of an item of a list is among the list's diagnostics.
pub proof fn lemma_flat_map_contains<A, S>(
    items: Seq<A>,
    f: spec_fn(A) -> Seq<(Loc<S>, Seq<char>)>,
    i: int,
    d: (Loc<S>, Seq<char>),
)
    requires
        0 <= i < items.len(),
        f(items[i]).contains(d),
    ensures
        flat_map(items, f).contains(d),
    decreases items.len(),
{
    let fi = f(items[i]);
    let k = choose|k: int| 0 <= k < fi.len() && fi[k] == d;
    if i == items.len() - 1 {
        let pre = flat_map(items.drop_last(), f);
        assert(flat_map(items, f)[pre.len() + k] == d);
    } else {
        lemma_flat_map_contains(items.drop_last(), f, i, d);
        let pre = flat_map(items.drop_last(), f);
        let j = choose|j: int| 0 <= j < pre.len() && pre[j] == d;
        assert(flat_map(items, f)[j] == d);
    }
}

/// The items of a bridge are checked each on its own: the errors of a
/// bridge whose items are `a` followed by `b` are, pass by pass, the errors
/// of the items of `a` followed by those of the items of `b`.
pub proof fn law_items_checked_independently<S>(types: Types<S>, a: Seq<Api<S>>, b: Seq<Api<S>>)
    ensures
        spec_do_typecheck(a + b, types) == spec_check_all(a) + spec_check_all(b) + flat_map(
            types.all@,
            type_errors(types),
        ) + flat_map(a, api_errors(types)) + flat_map(b, api_errors(types)),
{
    lemma_flat_map_concat(a, b, api_errors(types));
    lemma_flat_map_concat(a, b, api_ident_errors::<S>());
    assert(spec_do_typecheck(a + b, types) =~= spec_check_all(a) + spec_check_all(b) + flat_map(
        types.all@,
        type_errors(types),
    ) + flat_map(a, api_errors(types)) + flat_map(b, api_errors(types)));
}

/// Dropping from a list items that have no diagnostics leaves its
/// diagnostics unchanged.
pub proof fn lemma_flat_map_filter<A, S>(
    items: Seq<A>,
    keep: spec_fn(A) -> bool,
    f: spec_fn(A) -> Seq<(Loc<S>, Seq<char>)>,
)
    requires
        forall|x: A| !keep(x) ==> (#[trigger] f(x)).len() == 0,
    ensures
        flat_map(items.filter(keep), f) == flat_map(items, f),
    decreases items.len(),
{
    reveal(Seq::filter);
    if items.len() > 0 {
        lemma_flat_map_filter(items.drop_last(), keep, f);
        let sub = items.drop_last().filter(keep);
        if keep(items.last()) {
            assert(sub.push(items.last()).drop_last() =~= sub);
        } else {
            assert(f(items.last()).len() == 0);
            assert(flat_map(items, f) =~= flat_map(items.drop_last(), f));
        }
    }
}

/// Whether a written type is one that no check looks into: `&str` or `()`.
pub open spec fn is_plain_type<S>(ty: Type<S>) -> bool {
    ty is Str || ty is Void
}

/// `&str` and `()` types and `include!` items contribute no error: leaving
/// them out of a bridge leaves the errors of each pass unchanged.
pub proof fn law_plain_types_and_includes_contribute_nothing<S>(
    types: Types<S>,
    apis: Seq<Api<S>>,
)
    ensures
        flat_map(types.all@.filter(|ty: Type<S>| !is_plain_type(ty)), type_errors(types))
            == flat_map(types.all@, type_errors(types)),
        spec_check_all(apis.filter(|api: Api<S>| !(api is Include))) == spec_check_all(apis),
        flat_map(apis.filter(|api: Api<S>| !(api is Include)), api_errors(types)) == flat_map(
            apis,
            api_errors(types),
        ),
{
    lemma_flat_map_filter(types.all@, |ty: Type<S>| !is_plain_type(ty), type_errors(types));
    lemma_flat_map_filter(apis, |api: Api<S>| !(api is Include), api_ident_errors::<S>());
    lemma_flat_map_filter(apis, |api: Api<S>| !(api is Include), api_errors(types));
}

/// Where the errors about a type point: at the name for a named type, and
/// at the whole type otherwise.
pub open spec fn checked_type_loc<S>(ty: Type<S>) -> Loc<S> {
    match ty {
        Type::Ident(t) => ident_loc(t.rust),
        _ => type_loc(ty),
    }
}

/// Every error about a type written in a bridge points at that type.
pub proof fn law_type_errors_point_at_the_type<S>(types: Types<S>, ty: Type<S>)
    ensures
        forall|i: int|
            0 <= i < spec_check_type(types, ty).len() ==> (#[trigger] spec_check_type(
                types,
                ty,
            )[i]).0 == checked_type_loc(ty),
{
}

/// A named type is accepted exactly when it is a builtin or a declared name.
pub proof fn law_declared_names_are_supported<S>(types: Types<S>, ident: Ident<S>)
    ensures
        spec_check_type_ident(types, ident).len() == 0 <==> (atom_of(ident.name@) is Some
            || types.is_struct(ident.name@) || types.is_enum(ident.name@) || types.is_cxx(
            ident.name@,
        ) || types.is_rust(ident.name@)),
{
}

/// Opaque C++ types cannot be held by value, nor can arrays of them.
pub proof fn law_opaque_cxx_is_unsized<S>(types: Types<S>, ty: Type<S>)
    requires
        ty matches Type::Ident(t) && spec_is_opaque_cxx(types, t.rust.name@),
    ensures
        spec_is_unsized(types, ty),
{
}

/// An array is unsized exactly when its element is.
pub proof fn law_array_unsized_iff_element<S>(types: Types<S>, ty: Type<S>)
    requires
        ty is Array,
    ensures
        spec_is_unsized(types, ty) == spec_is_unsized(types, ty->Array_0.inner),
{
}

/// A struct field of a type that cannot be held by value, other than a
/// function pointer, is reported at that field, naming the type.
pub proof fn law_unsized_field_rejected<S>(types: Types<S>, strct: Struct<S>, i: int)
    requires
        0 <= i < strct.fields@.len(),
        !(strct.fields@[i].ty is Fn),
        spec_is_unsized(types, strct.fields@[i].ty),
    ensures
        spec_check_api_struct(types, strct).contains(
            (
                strct.fields@[i].loc,
                "using "@ + spec_describe(types, strct.fields@[i].ty) + " by value is not supported"@,
            ),
        ),
{
    let f = strct.fields@[i];
    let d = (f.loc, "using "@ + spec_describe(types, f.ty) + " by value is not supported"@);
    assert(struct_field_errors(types)(f)[0] == d);
    lemma_flat_map_contains(strct.fields@, struct_field_errors(types), i, d);
    let whole = spec_check_api_struct(types, strct);
    let tail = flat_map(strct.fields@, struct_field_errors(types));
    let j = choose|j: int| 0 <= j < tail.len() && tail[j] == d;
    assert(whole[whole.len() - tail.len() + j] == d);
}

/// An argument of a type that cannot be passed by value, other than a
/// function pointer, is reported at that argument, naming the type.
pub proof fn law_unsized_argument_rejected<S>(types: Types<S>, efn: ExternFn<S>, i: int)
    requires
        0 <= i < efn.sig.args@.len(),
        !(efn.sig.args@[i].ty is Fn),
        spec_is_unsized(types, efn.sig.args@[i].ty),
    ensures
        spec_check_api_fn(types, efn).contains(
            (
                efn.sig.args@[i].loc,
                "passing "@ + spec_describe(types, efn.sig.args@[i].ty)
                    + " by value is not supported"@,
            ),
        ),
{
    let a = efn.sig.args@[i];
    let d = (a.loc, "passing "@ + spec_describe(types, a.ty) + " by value is not supported"@);
    assert(arg_errors(types, efn.lang)(a)[0] == d);
    lemma_flat_map_contains(efn.sig.args@, arg_errors(types, efn.lang), i, d);
    let args = flat_map(efn.sig.args@, arg_errors(types, efn.lang));
    let j = choose|j: int| 0 <= j < args.len() && args[j] == d;
    let whole = spec_check_api_fn(types, efn);
    let receiver = match efn.sig.receiver {
        Some(r) => crate::check::receiver_errors(types, r),
        None => seq![],
    };
    let before = crate::check::generics_errors(efn) + receiver;
    assert(whole[before.len() + j] == d);
}

/// A function returning a reference that takes exactly one reference input
/// is never reported for its lifetimes.
pub proof fn law_single_reference_input_accepted<S>(efn: ExternFn<S>)
    requires
        count_ref_args(efn.sig.args@) + (if efn.sig.receiver is Some {
            1nat
        } else {
            0nat
        }) == 1,
    ensures
        spec_check_multiple_arg_lifetimes(efn).len() == 0,
{
}

/// Only an unpinned `&mut` can be asked to be pinned: a shared or pinned
/// reference is reported only for what it refers to.
pub proof fn law_pinned_or_shared_reference_needs_no_pin<S>(types: Types<S>, r: Ref<S>)
    requires
        r.pinned || !r.mutable,
    ensures
        spec_check_type_ref(types, r) == spec_check_type_ref(
            types,
            Ref { pinned: true, ..r },
        ),
        spec_ref_pin_errors(types, r).len() == 0,
{
    assert(spec_check_type_ref(types, r) =~= spec_check_type_ref(types, Ref { pinned: true, ..r }));
}

/// Each builtin type is recognized by its own name, and only by it.
pub proof fn law_atom_names_round_trip(a: Atom)
    ensures
        atom_of(atom_name(a)) == Some(a),
{
    reveal_strlit("bool");
    reveal_strlit("c_char");
    reveal_strlit("u8");
    reveal_strlit("u16");
    reveal_strlit("u32");
    reveal_strlit("u64");
    reveal_strlit("usize");
    reveal_strlit("i8");
    reveal_strlit("i16");
    reveal_strlit("i32");
    reveal_strlit("i64");
    reveal_strlit("isize");
    reveal_strlit("f32");
    reveal_strlit("f64");
    reveal_strlit("CxxString");
    reveal_strlit("String");
    assert("bool"@[0] == 'b' && "bool"@[1] == 'o');
    assert("c_char"@[0] == 'c' && "c_char"@[1] == '_');
    assert("u8"@[0] == 'u' && "u8"@[1] == '8');
    assert("u16"@[0] == 'u' && "u16"@[1] == '1');
    assert("u32"@[0] == 'u' && "u32"@[1] == '3');
    assert("u64"@[0] == 'u' && "u64"@[1] == '6');
    assert("usize"@[0] == 'u' && "usize"@[1] == 's');
    assert("i8"@[0] == 'i' && "i8"@[1] == '8');
    assert("i16"@[0] == 'i' && "i16"@[1] == '1');
    assert("i32"@[0] == 'i' && "i32"@[1] == '3');
    assert("i64"@[0] == 'i' && "i64"@[1] == '6');
    assert("isize"@[0] == 'i' && "isize"@[1] == 's');
    assert("f32"@[0] == 'f' && "f32"@[1] == '3');
    assert("f64"@[0] == 'f' && "f64"@[1] == '6');
    assert("CxxString"@[0] == 'C' && "CxxString"@[1] == 'x');
    assert("String"@[0] == 'S' && "String"@[1] == 't');
}

/// No declaration may be named after a builtin type.
pub proof fn law_builtin_names_are_reserved(a: Atom)
    ensures
        is_reserved_name(atom_name(a)),
{
    law_atom_names_round_trip(a);
}


/// A diagnostic of either part of a concatenation is a diagnostic of the whole.
pub proof fn lemma_concat_contains<T>(a: Seq<T>, b: Seq<T>, x: T)
    ensures
        a.contains(x) ==> (a + b).contains(x),
        b.contains(x) ==> (a + b).contains(x),
{
    if a.contains(x) {
        let k = choose|k: int| 0 <= k < a.len() && a[k] == x;
        assert((a + b)[k] == x);
    }
    if b.contains(x) {
        let k = choose|k: int| 0 <= k < b.len() && b[k] == x;
        assert((a + b)[a.len() + k] == x);
    }
}

/// A list whose items each have no diagnostics has none.
pub proof fn lemma_flat_map_all_empty<A, S>(
    items: Seq<A>,
    f: spec_fn(A) -> Seq<(Loc<S>, Seq<char>)>,
)
    requires
        forall|i: int| 0 <= i < items.len() ==> (#[trigger] f(items[i])).len() == 0,
    ensures
        flat_map(items, f).len() == 0,
    decreases items.len(),
{
    if items.len() > 0 {
        let rest = items.drop_last();
        assert forall|i: int| 0 <= i < rest.len() implies (#[trigger] f(rest[i])).len() == 0 by {
            assert(rest[i] == items[i]);
        }
        lemma_flat_map_all_empty(rest, f);
        assert(f(items[items.len() - 1]).len() == 0);
    }
}

/// A name that spells no builtin type is recognized as none.
pub proof fn lemma_not_builtin(n: Seq<char>)
    requires
        forall|a: Atom| n != #[trigger] atom_name(a),
    ensures
        atom_of(n) is None,
{
    assert(n != atom_name(Atom::Bool));
    assert(n != atom_name(Atom::Char));
    assert(n != atom_name(Atom::U8));
    assert(n != atom_name(Atom::U16));
    assert(n != atom_name(Atom::U32));
    assert(n != atom_name(Atom::U64));
    assert(n != atom_name(Atom::Usize));
    assert(n != atom_name(Atom::I8));
    assert(n != atom_name(Atom::I16));
    assert(n != atom_name(Atom::I32));
    assert(n != atom_name(Atom::I64));
    assert(n != atom_name(Atom::Isize));
    assert(n != atom_name(Atom::F32));
    assert(n != atom_name(Atom::F64));
    assert(n != atom_name(Atom::CxxString));
    assert(n != atom_name(Atom::RustString));
}

} // verus!
