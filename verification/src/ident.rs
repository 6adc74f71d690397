//! The spelling rules for the names that a bridge declares.
//!
//! A name on the C++ side (each namespace segment, and the C++ name) may not
//! contain a double underscore, which C++ reserves; a name on the Rust side
//! may not start with `cxxbridge`, which the generated glue uses.
use vstd::prelude::*;

use crate::check::{appends, Check};
use crate::report::{flat_map, lemma_flat_map_step, one};
use crate::syntax::{ident_loc, Api, Ident, Loc, Pair, Var, Variant};

verus! {

/// The message about a C++ name containing `__`.
pub const DOUBLE_UNDERSCORE: &'static str =
    "identifiers containing double underscore are reserved in C++";

/// The message about a Rust name starting with `cxxbridge`.
pub const CXXBRIDGE_RESERVED: &'static str = "identifiers starting with cxxbridge are reserved";

/// Whether a text holds two underscores in a row.
pub open spec fn has_double_underscore(s: Seq<char>) -> bool {
    exists|i: int| 0 <= i && i + 1 < s.len() && #[trigger] s[i] == '_' && s[i + 1] == '_'
}

/// Whether a text begins with a prefix.
pub open spec fn starts_with(s: Seq<char>, prefix: Seq<char>) -> bool {
    prefix.len() <= s.len() && s.subrange(0, prefix.len() as int) == prefix
}

/// Whether a text holds two underscores in a row.
pub fn contains_double_underscore(s: &str) -> (r: bool)
    ensures
        r == has_double_underscore(s@),
{
    let n = s.unicode_len();
    if n < 2 {
        return false;
    }
    let mut prev = s.get_char(0);
    let mut i: usize = 1;
    while i < n
        invariant
            1 <= i <= n,
            n == s@.len(),
            prev == s@[i - 1],
            forall|j: int| 0 <= j && j + 1 < i ==> !(#[trigger] s@[j] == '_' && s@[j + 1] == '_'),
        decreases n - i,
    {
        let c = s.get_char(i);
        if prev == '_' && c == '_' {
            assert(s@[i - 1] == '_' && s@[(i - 1) + 1] == '_');
            return true;
        }
        prev = c;
        i = i + 1;
    }
    false
}

/// Whether a text begins with a prefix.
pub fn text_starts_with(s: &str, prefix: &str) -> (r: bool)
    ensures
        r == starts_with(s@, prefix@),
{
    let n = s.unicode_len();
    let m = prefix.unicode_len();
    if m > n {
        return false;
    }
    let mut i: usize = 0;
    while i < m
        invariant
            i <= m <= n,
            n == s@.len(),
            m == prefix@.len(),
            forall|j: int| 0 <= j < i ==> s@[j] == prefix@[j],
        decreases m - i,
    {
        if s.get_char(i) != prefix.get_char(i) {
            assert(s@.subrange(0, m as int)[i as int] != prefix@[i as int]);
            return false;
        }
        i = i + 1;
    }
    assert(s@.subrange(0, m as int) =~= prefix@);
    true
}

/// A name on the C++ side may not contain `__`.
pub open spec fn spec_check_cxx_ident<S>(ident: Ident<S>) -> Seq<(Loc<S>, Seq<char>)> {
    if has_double_underscore(ident.name@) {
        one(ident_loc(ident), DOUBLE_UNDERSCORE@)
    } else {
        seq![]
    }
}

pub open spec fn cxx_ident_errors<S>() -> spec_fn(Ident<S>) -> Seq<(Loc<S>, Seq<char>)> {
    |ident: Ident<S>| spec_check_cxx_ident(ident)
}

/// A name on the Rust side may not start with `cxxbridge`.
pub open spec fn spec_check_rust_ident<S>(ident: Ident<S>) -> Seq<(Loc<S>, Seq<char>)> {
    if starts_with(ident.name@, "cxxbridge"@) {
        one(ident_loc(ident), CXXBRIDGE_RESERVED@)
    } else {
        seq![]
    }
}

/// The errors about a declared name: each namespace segment, then the C++
/// name, then the Rust name.
pub open spec fn spec_check<S>(name: Pair<S>) -> Seq<(Loc<S>, Seq<char>)> {
    flat_map(name.namespace@, cxx_ident_errors::<S>()) + spec_check_cxx_ident(name.cxx)
        + spec_check_rust_ident(name.rust)
}

pub open spec fn var_name_errors<S>() -> spec_fn(Var<S>) -> Seq<(Loc<S>, Seq<char>)> {
    |var: Var<S>| spec_check(var.name)
}

pub open spec fn variant_name_errors<S>() -> spec_fn(Variant<S>) -> Seq<(Loc<S>, Seq<char>)> {
    |variant: Variant<S>| spec_check(variant.name)
}

/// The errors about the names that one item declares: its own name, then
/// those of its fields, variants or arguments.
pub open spec fn spec_check_api_idents<S>(api: Api<S>) -> Seq<(Loc<S>, Seq<char>)> {
    match api {
        Api::Include(_) => seq![],
        Api::Impl(_) => seq![],
        Api::Struct(strct) => spec_check(strct.name) + flat_map(
            strct.fields@,
            var_name_errors::<S>(),
        ),
        Api::Enum(enm) => spec_check(enm.name) + flat_map(
            enm.variants@,
            variant_name_errors::<S>(),
        ),
        Api::CxxType(ety) => spec_check(ety.name),
        Api::RustType(ety) => spec_check(ety.name),
        Api::CxxFunction(efn) => spec_check(efn.name) + flat_map(
            efn.sig.args@,
            var_name_errors::<S>(),
        ),
        Api::RustFunction(efn) => spec_check(efn.name) + flat_map(
            efn.sig.args@,
            var_name_errors::<S>(),
        ),
        Api::TypeAlias(alias) => spec_check(alias.name),
    }
}

pub open spec fn api_ident_errors<S>() -> spec_fn(Api<S>) -> Seq<(Loc<S>, Seq<char>)> {
    |api: Api<S>| spec_check_api_idents(api)
}

/// The errors about all names declared by a bridge's items, item by item.
pub open spec fn spec_check_all<S>(apis: Seq<Api<S>>) -> Seq<(Loc<S>, Seq<char>)> {
    flat_map(apis, api_ident_errors::<S>())
}

pub fn check_cxx_ident<S: Copy>(cx: &mut Check<S>, ident: &Ident<S>)
    ensures
        appends(*old(cx), *final(cx), spec_check_cxx_ident(*ident)),
{
    if contains_double_underscore(ident.name.as_str()) {
        cx.error(ident.loc(), String::from_str(DOUBLE_UNDERSCORE));
    } else {
        assert(cx.errors@ =~= old(cx).errors@ + seq![]);
    }
}

pub fn check_rust_ident<S: Copy>(cx: &mut Check<S>, ident: &Ident<S>)
    ensures
        appends(*old(cx), *final(cx), spec_check_rust_ident(*ident)),
{
    if text_starts_with(ident.name.as_str(), "cxxbridge") {
        cx.error(ident.loc(), String::from_str(CXXBRIDGE_RESERVED));
    } else {
        assert(cx.errors@ =~= old(cx).errors@ + seq![]);
    }
}

pub fn check<S: Copy>(cx: &mut Check<S>, name: &Pair<S>)
    ensures
        appends(*old(cx), *final(cx), spec_check(*name)),
{
    let mut i: usize = 0;
    assert(name.namespace@.take(0) =~= Seq::<Ident<S>>::empty());
    assert(cx.errors@ =~= old(cx).errors@ + Seq::<(Loc<S>, Seq<char>)>::empty());
    while i < name.namespace.len()
        invariant
            i <= name.namespace@.len(),
            cx.types == old(cx).types,
            cx.apis == old(cx).apis,
            cx.errors@ == old(cx).errors@ + flat_map(
                name.namespace@.take(i as int),
                cxx_ident_errors::<S>(),
            ),
        decreases name.namespace@.len() - i,
    {
        proof {
            lemma_flat_map_step(name.namespace@, cxx_ident_errors::<S>(), i as int);
        }
        check_cxx_ident(cx, &name.namespace[i]);
        assert(cx.errors@ =~= old(cx).errors@ + flat_map(
            name.namespace@.take(i + 1),
            cxx_ident_errors::<S>(),
        ));
        i = i + 1;
    }
    assert(name.namespace@.take(name.namespace@.len() as int) =~= name.namespace@);
    check_cxx_ident(cx, &name.cxx);
    check_rust_ident(cx, &name.rust);
    assert(cx.errors@ =~= old(cx).errors@ + spec_check(*name));
}

/// Checks the names of a list of fields or arguments, in order.
fn check_var_names<S: Copy>(cx: &mut Check<S>, vars: &Vec<Var<S>>)
    ensures
        appends(*old(cx), *final(cx), flat_map(vars@, var_name_errors::<S>())),
{
    let mut i: usize = 0;
    assert(vars@.take(0) =~= Seq::<Var<S>>::empty());
    assert(cx.errors@ =~= old(cx).errors@ + Seq::<(Loc<S>, Seq<char>)>::empty());
    while i < vars.len()
        invariant
            i <= vars@.len(),
            cx.types == old(cx).types,
            cx.apis == old(cx).apis,
            cx.errors@ == old(cx).errors@ + flat_map(vars@.take(i as int), var_name_errors::<S>()),
        decreases vars@.len() - i,
    {
        proof {
            lemma_flat_map_step(vars@, var_name_errors::<S>(), i as int);
        }
        check(cx, &vars[i].name);
        assert(cx.errors@ =~= old(cx).errors@ + flat_map(
            vars@.take(i + 1),
            var_name_errors::<S>(),
        ));
        i = i + 1;
    }
    assert(vars@.take(vars@.len() as int) =~= vars@);
}

/// Checks the names of the variants of an enum, in order.
fn check_variant_names<S: Copy>(cx: &mut Check<S>, variants: &Vec<Variant<S>>)
    ensures
        appends(*old(cx), *final(cx), flat_map(variants@, variant_name_errors::<S>())),
{
    let mut i: usize = 0;
    assert(variants@.take(0) =~= Seq::<Variant<S>>::empty());
    assert(cx.errors@ =~= old(cx).errors@ + Seq::<(Loc<S>, Seq<char>)>::empty());
    while i < variants.len()
        invariant
            i <= variants@.len(),
            cx.types == old(cx).types,
            cx.apis == old(cx).apis,
            cx.errors@ == old(cx).errors@ + flat_map(
                variants@.take(i as int),
                variant_name_errors::<S>(),
            ),
        decreases variants@.len() - i,
    {
        proof {
            lemma_flat_map_step(variants@, variant_name_errors::<S>(), i as int);
        }
        check(cx, &variants[i].name);
        assert(cx.errors@ =~= old(cx).errors@ + flat_map(
            variants@.take(i + 1),
            variant_name_errors::<S>(),
        ));
        i = i + 1;
    }
    assert(variants@.take(variants@.len() as int) =~= variants@);
}

pub fn check_all<S: Copy>(cx: &mut Check<S>, apis: &[Api<S>])
    ensures
        appends(*old(cx), *final(cx), spec_check_all(apis@)),
{
    let mut i: usize = 0;
    assert(apis@.take(0) =~= Seq::<Api<S>>::empty());
    assert(cx.errors@ =~= old(cx).errors@ + Seq::<(Loc<S>, Seq<char>)>::empty());
    while i < apis.len()
        invariant
            i <= apis@.len(),
            cx.types == old(cx).types,
            cx.apis == old(cx).apis,
            cx.errors@ == old(cx).errors@ + flat_map(apis@.take(i as int), api_ident_errors::<S>()),
        decreases apis@.len() - i,
    {
        proof {
            lemma_flat_map_step(apis@, api_ident_errors::<S>(), i as int);
        }
        let ghost before = cx.errors@;
        match &apis[i] {
            Api::Include(_) | Api::Impl(_) => {
                assert(cx.errors@ =~= before + seq![]);
            },
            Api::Struct(strct) => {
                check(cx, &strct.name);
                check_var_names(cx, &strct.fields);
            },
            Api::Enum(enm) => {
                check(cx, &enm.name);
                check_variant_names(cx, &enm.variants);
            },
            Api::CxxType(ety) | Api::RustType(ety) => {
                check(cx, &ety.name);
            },
            Api::CxxFunction(efn) | Api::RustFunction(efn) => {
                check(cx, &efn.name);
                check_var_names(cx, &efn.sig.args);
            },
            Api::TypeAlias(alias) => {
                check(cx, &alias.name);
            },
        }
        assert(cx.errors@ =~= before + spec_check_api_idents(apis@[i as int]));
        assert(cx.errors@ =~= old(cx).errors@ + flat_map(
            apis@.take(i + 1),
            api_ident_errors::<S>(),
        ));
        i = i + 1;
    }
    assert(apis@.take(apis@.len() as int) =~= apis@);
}

} // verus!
