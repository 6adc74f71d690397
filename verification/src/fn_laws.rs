//! What the check of an extern function reports, stated over its parts.
use vstd::prelude::*;

use crate::check::{
    arg_errors, count_ref_args, generics_errors, opt_receiver_errors, ret_errors,
    spec_check_api_fn, spec_check_multiple_arg_lifetimes, spec_check_mut_return_restriction,
    spec_describe, spec_is_unsized,
};
use crate::laws::{lemma_concat_contains, lemma_flat_map_contains};
use crate::report::flat_map;
use crate::syntax::{type_loc, ExternFn, Lang, Loc, Receiver, Type, Var};
use crate::type_laws::cxx_opaque;
use crate::types::Types;

verus! {

/// Each part of a function's errors is among the function's errors.
pub proof fn lemma_fn_parts_contained<S>(types: Types<S>, efn: ExternFn<S>, d: (Loc<S>, Seq<char>))
    requires
        generics_errors(efn).contains(d) || opt_receiver_errors(types, efn.sig.receiver).contains(d)
            || flat_map(efn.sig.args@, arg_errors(types, efn.lang)).contains(d) || ret_errors(
            types,
            efn.sig.ret,
        ).contains(d) || (efn.lang == Lang::Cxx && spec_check_mut_return_restriction(
            efn,
        ).contains(d)) || spec_check_multiple_arg_lifetimes(efn).contains(d),
    ensures
        spec_check_api_fn(types, efn).contains(d),
{
    let g = generics_errors(efn);
    let r = opt_receiver_errors(types, efn.sig.receiver);
    let a = flat_map(efn.sig.args@, arg_errors(types, efn.lang));
    let t = ret_errors(types, efn.sig.ret);
    let m = if efn.lang == Lang::Cxx {
        spec_check_mut_return_restriction(efn)
    } else {
        seq![]
    };
    let l = spec_check_multiple_arg_lifetimes(efn);
    lemma_concat_contains(g, r, d);
    lemma_concat_contains(g + r, a, d);
    lemma_concat_contains(g + r + a, t, d);
    lemma_concat_contains(g + r + a + t, m, d);
    lemma_concat_contains(g + r + a + t + m, l, d);
}

/// An argument of a function pointer type is reported for Rust functions.
pub proof fn law_function_pointer_argument_of_rust_fn_rejected<S>(
    types: Types<S>,
    efn: ExternFn<S>,
    j: int,
)
    requires
        efn.lang == Lang::Rust,
        0 <= j < efn.sig.args@.len(),
        efn.sig.args@[j].ty is Fn,
    ensures
        spec_check_api_fn(types, efn).contains(
            (
                efn.sig.args@[j].loc,
                "passing a function pointer from C++ to Rust is not implemented yet"@,
            ),
        ),
{
    let d = (
        efn.sig.args@[j].loc,
        "passing a function pointer from C++ to Rust is not implemented yet"@,
    );
    assert(arg_errors(types, efn.lang)(efn.sig.args@[j])[0] == d);
    lemma_flat_map_contains(efn.sig.args@, arg_errors(types, efn.lang), j, d);
    lemma_fn_parts_contained(types, efn, d);
}

/// A return type that cannot be held by value, other than a function
/// pointer, is reported at the return type, naming it.
pub proof fn law_unsized_return_rejected<S>(types: Types<S>, efn: ExternFn<S>, ty: Type<S>)
    requires
        efn.sig.ret == Some(ty),
        !(ty is Fn),
        spec_is_unsized(types, ty),
    ensures
        spec_check_api_fn(types, efn).contains(
            (type_loc(ty), "returning "@ + spec_describe(types, ty) + " by value is not supported"@),
        ),
{
    let d = (type_loc(ty), "returning "@ + spec_describe(types, ty) + " by value is not supported"@);
    assert(ret_errors(types, efn.sig.ret)[0] == d);
    lemma_fn_parts_contained(types, efn, d);
}

/// A function pointer return type is reported at the return type.
pub proof fn law_function_pointer_return_rejected<S>(types: Types<S>, efn: ExternFn<S>, ty: Type<S>)
    requires
        efn.sig.ret == Some(ty),
        ty is Fn,
    ensures
        spec_check_api_fn(types, efn).contains(
            (type_loc(ty), "returning a function pointer is not implemented yet"@),
        ),
{
    let d = (type_loc(ty), "returning a function pointer is not implemented yet"@);
    assert(ret_errors(types, efn.sig.ret)[0] == d);
    lemma_fn_parts_contained(types, efn, d);
}

/// Whether a type is `&mut T`.
pub open spec fn mut_ref<S>(ty: Type<S>) -> bool {
    ty matches Type::Ref(r) && r.mutable
}

/// A C++ function returning `&mut` without any `&mut` argument is reported.
pub proof fn law_mut_return_without_mut_argument_rejected<S>(
    types: Types<S>,
    efn: ExternFn<S>,
    ty: Type<S>,
)
    requires
        efn.lang == Lang::Cxx,
        efn.sig.ret == Some(ty),
        mut_ref(ty),
        forall|j: int| 0 <= j < efn.sig.args@.len() ==> !mut_ref(#[trigger] efn.sig.args@[j].ty),
    ensures
        spec_check_api_fn(types, efn).contains(
            (efn.loc, "&mut return type is not allowed unless there is a &mut argument"@),
        ),
{
    let d = (efn.loc, "&mut return type is not allowed unless there is a &mut argument"@);
    assert(spec_check_mut_return_restriction(efn)[0] == d);
    lemma_fn_parts_contained(types, efn, d);
}

/// A function returning `&mut` that takes a `&mut` argument passes the
/// `&mut` return rule.
pub proof fn law_mut_return_with_mut_argument_allowed<S>(efn: ExternFn<S>, j: int)
    requires
        0 <= j < efn.sig.args@.len(),
        mut_ref(efn.sig.args@[j].ty),
    ensures
        spec_check_mut_return_restriction(efn).len() == 0,
{
    assert(crate::check::is_mut_ref(efn.sig.args@[j].ty));
}

/// No argument is a reference: none is counted.
pub proof fn lemma_count_no_refs<S>(args: Seq<Var<S>>)
    requires
        forall|j: int| 0 <= j < args.len() ==> !(#[trigger] args[j].ty is Ref),
    ensures
        count_ref_args(args) == 0,
    decreases args.len(),
{
    if args.len() > 0 {
        let rest = args.drop_last();
        assert forall|j: int| 0 <= j < rest.len() implies !(#[trigger] rest[j].ty is Ref) by {
            assert(rest[j] == args[j]);
        }
        lemma_count_no_refs(rest);
        assert(!(args[args.len() - 1].ty is Ref));
    }
}

/// Exactly one argument is a reference: one is counted.
pub proof fn lemma_count_one_ref<S>(args: Seq<Var<S>>, j: int)
    requires
        0 <= j < args.len(),
        args[j].ty is Ref,
        forall|k: int| 0 <= k < args.len() && k != j ==> !(#[trigger] args[k].ty is Ref),
    ensures
        count_ref_args(args) == 1,
    decreases args.len(),
{
    let rest = args.drop_last();
    if j == args.len() - 1 {
        assert forall|k: int| 0 <= k < rest.len() implies !(#[trigger] rest[k].ty is Ref) by {
            assert(rest[k] == args[k]);
        }
        lemma_count_no_refs(rest);
    } else {
        assert forall|k: int| 0 <= k < rest.len() && k != j implies !(#[trigger] rest[k].ty is Ref) by {
            assert(rest[k] == args[k]);
        }
        assert(rest[j] == args[j]);
        lemma_count_one_ref(rest, j);
        assert(!(args[args.len() - 1].ty is Ref));
    }
}

/// Some argument is a reference: at least one is counted; two make two.
pub proof fn lemma_count_refs_at_least<S>(args: Seq<Var<S>>, j: int, k: int)
    requires
        0 <= j < args.len(),
        0 <= k < args.len(),
        args[j].ty is Ref,
        args[k].ty is Ref,
    ensures
        count_ref_args(args) >= 1,
        j != k ==> count_ref_args(args) >= 2,
    decreases args.len(),
{
    let rest = args.drop_last();
    let last = args.len() - 1;
    if j == last && k == last {
        assert(args.last().ty is Ref);
    } else if j == last {
        assert(rest[k] == args[k]);
        lemma_count_refs_at_least(rest, k, k);
    } else if k == last {
        assert(rest[j] == args[j]);
        lemma_count_refs_at_least(rest, j, j);
    } else {
        assert(rest[j] == args[j]);
        assert(rest[k] == args[k]);
        lemma_count_refs_at_least(rest, j, k);
    }
}

/// The message about the inputs of a function returning a reference.
pub open spec fn one_reference_message() -> Seq<char> {
    "functions that return a reference must take exactly one input reference"@
}

/// A function returning a reference with no reference input is reported,
/// unless it is a C++ function from an `unsafe extern` block.
pub proof fn law_reference_return_without_input_rejected<S>(
    types: Types<S>,
    efn: ExternFn<S>,
    ty: Type<S>,
)
    requires
        !(efn.lang == Lang::Cxx && efn.trusted),
        efn.sig.ret == Some(ty),
        ty is Ref,
        efn.sig.receiver is None,
        forall|j: int| 0 <= j < efn.sig.args@.len() ==> !(#[trigger] efn.sig.args@[j].ty is Ref),
    ensures
        spec_check_api_fn(types, efn).contains((efn.loc, one_reference_message())),
{
    lemma_count_no_refs(efn.sig.args@);
    assert(spec_check_multiple_arg_lifetimes(efn)[0] == (efn.loc, one_reference_message()));
    lemma_fn_parts_contained(types, efn, (efn.loc, one_reference_message()));
}

/// A function returning a reference with two reference inputs (two
/// reference arguments, or a receiver and a reference argument) is
/// reported, unless it is a C++ function from an `unsafe extern` block.
pub proof fn law_reference_return_with_two_inputs_rejected<S>(
    types: Types<S>,
    efn: ExternFn<S>,
    ty: Type<S>,
    j: int,
    k: int,
)
    requires
        !(efn.lang == Lang::Cxx && efn.trusted),
        efn.sig.ret == Some(ty),
        ty is Ref,
        0 <= j < efn.sig.args@.len(),
        0 <= k < efn.sig.args@.len(),
        efn.sig.args@[j].ty is Ref,
        efn.sig.args@[k].ty is Ref,
        j != k || efn.sig.receiver is Some,
    ensures
        spec_check_api_fn(types, efn).contains((efn.loc, one_reference_message())),
{
    lemma_count_refs_at_least(efn.sig.args@, j, k);
    assert(spec_check_multiple_arg_lifetimes(efn)[0] == (efn.loc, one_reference_message()));
    lemma_fn_parts_contained(types, efn, (efn.loc, one_reference_message()));
}

/// A function returning a reference with exactly one reference input
/// passes the one-input rule.
pub proof fn law_reference_return_with_one_input_accepted<S>(efn: ExternFn<S>, j: int)
    requires
        efn.sig.receiver is None ==> (0 <= j < efn.sig.args@.len() && efn.sig.args@[j].ty is Ref
            && forall|k: int|
            0 <= k < efn.sig.args@.len() && k != j ==> !(#[trigger] efn.sig.args@[k].ty is Ref)),
        efn.sig.receiver is Some ==> forall|k: int|
            0 <= k < efn.sig.args@.len() ==> !(#[trigger] efn.sig.args@[k].ty is Ref),
    ensures
        spec_check_multiple_arg_lifetimes(efn).len() == 0,
{
    if efn.sig.receiver is None {
        lemma_count_one_ref(efn.sig.args@, j);
    } else {
        lemma_count_no_refs(efn.sig.args@);
    }
}

/// The location of a receiver, from its `&` through `self` or its type.
pub open spec fn receiver_span<S>(r: Receiver<S>) -> Loc<S> {
    Loc {
        start: r.ampersand,
        end: if r.shorthand {
            r.var
        } else {
            r.ty.loc.end
        },
    }
}

/// A receiver of type `Self` is reported.
pub proof fn law_self_receiver_rejected<S>(types: Types<S>, efn: ExternFn<S>, r: Receiver<S>)
    requires
        efn.sig.receiver == Some(r),
        r.ty.rust.name@ == "Self"@,
    ensures
        spec_check_api_fn(types, efn).contains(
            (
                receiver_span(r),
                "unnamed receiver type is only allowed if the surrounding extern block contains exactly one extern type; use `self: &"@
                    + (if r.mutable {
                    "mut "@
                } else {
                    ""@
                }) + "TheType`"@,
            ),
        ),
{
    let d = (
        receiver_span(r),
        "unnamed receiver type is only allowed if the surrounding extern block contains exactly one extern type; use `self: &"@
            + (if r.mutable {
            "mut "@
        } else {
            ""@
        }) + "TheType`"@,
    );
    assert(opt_receiver_errors(types, efn.sig.receiver)[0] == d);
    lemma_fn_parts_contained(types, efn, d);
}

/// A receiver whose type is declared nowhere in the bridge is reported.
pub proof fn law_unknown_receiver_rejected<S>(types: Types<S>, efn: ExternFn<S>, r: Receiver<S>)
    requires
        efn.sig.receiver == Some(r),
        r.ty.rust.name@ != "Self"@,
        !types.is_struct(r.ty.rust.name@),
        !types.is_cxx(r.ty.rust.name@),
        !types.is_rust(r.ty.rust.name@),
    ensures
        spec_check_api_fn(types, efn).contains((receiver_span(r), "unrecognized receiver type"@)),
{
    let d = (receiver_span(r), "unrecognized receiver type"@);
    assert(opt_receiver_errors(types, efn.sig.receiver)[0] == d);
    lemma_fn_parts_contained(types, efn, d);
}

/// An unpinned `&mut self` of a C++ type of unknown layout is reported.
pub proof fn law_unpinned_mut_receiver_rejected<S>(types: Types<S>, efn: ExternFn<S>, r: Receiver<S>)
    requires
        efn.sig.receiver == Some(r),
        r.ty.rust.name@ != "Self"@,
        r.mutable,
        !r.pinned,
        cxx_opaque(types, r.ty.rust.name@),
    ensures
        spec_check_api_fn(types, efn).contains(
            (
                receiver_span(r),
                "mutable reference to C++ type requires a pin -- use `self: Pin<&mut "@
                    + r.ty.rust.name@ + ">`"@,
            ),
        ),
{
    let d = (
        receiver_span(r),
        "mutable reference to C++ type requires a pin -- use `self: Pin<&mut "@ + r.ty.rust.name@
            + ">`"@,
    );
    assert(opt_receiver_errors(types, efn.sig.receiver)[0] == d);
    lemma_fn_parts_contained(types, efn, d);
}

/// The location of `unsafe fn <...>`, or `fn <...>`.
pub open spec fn generics_span<S>(efn: ExternFn<S>) -> Loc<S> {
    Loc {
        start: match efn.sig.unsafety {
            Some(u) => u,
            None => efn.sig.fn_token,
        },
        end: efn.sig.generics.gt_token,
    }
}

/// A C++ function with lifetime parameters outside an `unsafe extern`
/// block is reported.
pub proof fn law_cxx_lifetimes_need_unsafe_block<S>(types: Types<S>, efn: ExternFn<S>)
    requires
        efn.lang == Lang::Cxx,
        efn.sig.generics.has_params,
        !efn.trusted,
    ensures
        spec_check_api_fn(types, efn).contains(
            (
                generics_span(efn),
                "extern C++ function with lifetimes must be declared in `unsafe extern \"C++\"` block"@,
            ),
        ),
{
    let d = (
        generics_span(efn),
        "extern C++ function with lifetimes must be declared in `unsafe extern \"C++\"` block"@,
    );
    assert(generics_errors(efn)[0] == d);
    lemma_fn_parts_contained(types, efn, d);
}

/// A Rust function with lifetime parameters that is not `unsafe fn` is reported.
pub proof fn law_rust_lifetimes_need_unsafe_fn<S>(types: Types<S>, efn: ExternFn<S>)
    requires
        efn.lang == Lang::Rust,
        efn.sig.generics.has_params,
        efn.sig.unsafety is None,
    ensures
        spec_check_api_fn(types, efn).contains(
            (
                generics_span(efn),
                "must be `unsafe fn "@ + efn.name.rust.name@
                    + "` in order to expose explicit lifetimes to C++"@,
            ),
        ),
{
    let d = (
        generics_span(efn),
        "must be `unsafe fn "@ + efn.name.rust.name@
            + "` in order to expose explicit lifetimes to C++"@,
    );
    assert(generics_errors(efn)[0] == d);
    lemma_fn_parts_contained(types, efn, d);
}


/// Whether a function's lifetime parameters are allowed: it has none, or it
/// is a C++ function of an `unsafe extern` block, or an `unsafe` Rust function.
pub open spec fn lifetimes_allowed<S>(efn: ExternFn<S>) -> bool {
    !efn.sig.generics.has_params || (efn.lang == Lang::Cxx && efn.trusted) || (efn.lang
        == Lang::Rust && efn.sig.unsafety is Some)
}

/// Whether a receiver is allowed: a named type declared in the bridge that,
/// as an unpinned `&mut`, is not a C++ type of unknown layout.
pub open spec fn receiver_allowed<S>(types: Types<S>, r: Receiver<S>) -> bool {
    let t = r.ty.rust.name@;
    &&& t != "Self"@
    &&& types.is_struct(t) || types.is_cxx(t) || types.is_rust(t)
    &&& !(r.mutable && !r.pinned && cxx_opaque(types, t))
}

/// Whether an argument is allowed: a function pointer only for C++
/// functions, and otherwise a type that can be passed by value.
pub open spec fn argument_allowed<S>(types: Types<S>, lang: Lang, arg: Var<S>) -> bool {
    if arg.ty is Fn {
        lang == Lang::Cxx
    } else {
        !spec_is_unsized(types, arg.ty)
    }
}

/// Whether a function has exactly one reference input, counting its receiver.
pub open spec fn one_reference_input<S>(efn: ExternFn<S>, j: int) -> bool {
    &&& efn.sig.receiver is None ==> (0 <= j < efn.sig.args@.len() && efn.sig.args@[j].ty is Ref
        && forall|k: int|
        0 <= k < efn.sig.args@.len() && k != j ==> !(#[trigger] efn.sig.args@[k].ty is Ref))
    &&& efn.sig.receiver is Some ==> forall|k: int|
        0 <= k < efn.sig.args@.len() ==> !(#[trigger] efn.sig.args@[k].ty is Ref)
}

/// Whether a return type is allowed: one that can be returned by value and
/// is not a function pointer; a reference only with exactly one reference
/// input (unless the function is C++ from an `unsafe extern` block); and a
/// `&mut` from a C++ function only with a `&mut` argument.
pub open spec fn return_allowed<S>(types: Types<S>, efn: ExternFn<S>, ty: Type<S>, j: int) -> bool {
    &&& !(ty is Fn)
    &&& !spec_is_unsized(types, ty)
    &&& ty is Ref && !(efn.lang == Lang::Cxx && efn.trusted) ==> one_reference_input(efn, j)
    &&& mut_ref(ty) && efn.lang == Lang::Cxx ==> exists|k: int|
        0 <= k < efn.sig.args@.len() && mut_ref(#[trigger] efn.sig.args@[k].ty)
}

/// A function whose lifetimes, receiver, arguments and return type are all
/// allowed is not reported: in particular, a C++ function may take a
/// function pointer, and only C++ functions are held to the `&mut` return rule.
pub proof fn law_fn_accepted<S>(types: Types<S>, efn: ExternFn<S>, j: int)
    requires
        lifetimes_allowed(efn),
        efn.sig.receiver matches Some(r) ==> receiver_allowed(types, r),
        forall|k: int|
            0 <= k < efn.sig.args@.len() ==> argument_allowed(
                types,
                efn.lang,
                #[trigger] efn.sig.args@[k],
            ),
        efn.sig.ret matches Some(ty) ==> return_allowed(types, efn, ty, j),
    ensures
        spec_check_api_fn(types, efn).len() == 0,
{
    assert forall|k: int| 0 <= k < efn.sig.args@.len() implies (#[trigger] arg_errors(
        types,
        efn.lang,
    )(efn.sig.args@[k])).len() == 0 by {
        assert(argument_allowed(types, efn.lang, efn.sig.args@[k]));
    }
    crate::laws::lemma_flat_map_all_empty(efn.sig.args@, arg_errors(types, efn.lang));
    match efn.sig.ret {
        Some(ty) => {
            if ty is Ref && !(efn.lang == Lang::Cxx && efn.trusted) {
                law_reference_return_with_one_input_accepted(efn, j);
            }
            if mut_ref(ty) && efn.lang == Lang::Cxx {
                let k = choose|k: int| 0 <= k < efn.sig.args@.len() && mut_ref(#[trigger] efn.sig.args@[k].ty);
                law_mut_return_with_mut_argument_allowed(efn, k);
            }
        },
        None => {},
    }
}

} // verus!
