//! What is known about the names that a bridge declares.
use vstd::prelude::*;

use crate::syntax::{Loc, Type};

verus! {

/// Why a type must be trivially movable: the first use that requires it.
#[derive(Debug, PartialEq, Eq)]
pub enum TrivialReason {
    /// Used by value as a field of the named struct.
    StructField(String),
    /// Passed by value as an argument of the named function.
    FunctionArgument(String),
    /// Returned by value from the named function.
    FunctionReturn(String),
    BoxTarget,
    VecElement,
}

/// The declarations of a bridge, indexed by name.
///
/// The name lists are sets and the pair lists are maps: `wf` states that no
/// name occurs twice, and a lookup uses the first entry with the name, which
/// under `wf` is the only one.  `all` lists every type written anywhere in
/// the bridge.
pub struct Types<S> {
    pub all: Vec<Type<S>>,
    pub structs: Vec<String>,
    pub enums: Vec<String>,
    pub cxx: Vec<String>,
    pub rust: Vec<String>,
    pub aliases: Vec<String>,
    /// Extern types declared in a safe extern block, with their location.
    pub untrusted: Vec<(String, Loc<S>)>,
    pub required_trivial: Vec<(String, TrivialReason)>,
}

/// Whether a list of names holds a name.
pub open spec fn has_name(names: Seq<String>, n: Seq<char>) -> bool {
    exists|i: int| 0 <= i < names.len() && names[i]@ == n
}

/// The value of the first entry with a name, if any.
pub open spec fn lookup<V>(entries: Seq<(String, V)>, n: Seq<char>) -> Option<V>
    decreases entries.len(),
{
    if entries.len() == 0 {
        None
    } else if entries[0].0@ == n {
        Some(entries[0].1)
    } else {
        lookup(entries.drop_first(), n)
    }
}

/// No name occurs twice in a list of names.
pub open spec fn names_distinct(names: Seq<String>) -> bool {
    forall|i: int, j: int| 0 <= i < j < names.len() ==> names[i]@ != names[j]@
}

/// No name has two entries.
pub open spec fn keys_distinct<V>(entries: Seq<(String, V)>) -> bool {
    forall|i: int, j: int| 0 <= i < j < entries.len() ==> entries[i].0@ != entries[j].0@
}

/// A name has a value exactly when some entry has that name.
pub proof fn law_lookup_some_iff_entry<V>(entries: Seq<(String, V)>, n: Seq<char>)
    ensures
        lookup(entries, n) is Some <==> exists|i: int| 0 <= i < entries.len() && #[trigger] entries[i].0@ == n,
    decreases entries.len(),
{
    if entries.len() > 0 {
        law_lookup_some_iff_entry(entries.drop_first(), n);
        if lookup(entries.drop_first(), n) is Some {
            let i = choose|i: int| 0 <= i < entries.drop_first().len() && #[trigger] entries.drop_first()[i].0@ == n;
            assert(entries[i + 1].0@ == n);
        }
        if exists|i: int| 0 <= i < entries.len() && #[trigger] entries[i].0@ == n {
            let i = choose|i: int| 0 <= i < entries.len() && #[trigger] entries[i].0@ == n;
            if i > 0 {
                assert(entries.drop_first()[i - 1].0@ == n);
            }
        }
    }
}

/// When no name has two entries, looking up an entry's name gives that entry's value.
pub proof fn law_lookup_finds_the_unique_entry<V>(entries: Seq<(String, V)>, i: int)
    requires
        keys_distinct(entries),
        0 <= i < entries.len(),
    ensures
        lookup(entries, entries[i].0@) == Some(entries[i].1),
    decreases entries.len(),
{
    if i > 0 {
        assert(entries[0].0@ != entries[i].0@);
        assert(entries.drop_first()[i - 1] == entries[i]);
        law_lookup_finds_the_unique_entry(entries.drop_first(), i - 1);
    }
}

/// Whether a list of names holds a name.
pub fn contains_name(names: &Vec<String>, n: &String) -> (r: bool)
    ensures
        r == has_name(names@, n@),
{
    let mut i: usize = 0;
    while i < names.len()
        invariant
            i <= names@.len(),
            forall|j: int| 0 <= j < i ==> names@[j]@ != n@,
        decreases names@.len() - i,
    {
        if names[i] == *n {
            return true;
        }
        i = i + 1;
    }
    false
}

/// The value of the first entry with a name, if any.
pub fn lookup_entry<'a, V>(entries: &'a Vec<(String, V)>, n: &String) -> (r: Option<&'a V>)
    ensures
        r is Some == lookup(entries@, n@) is Some,
        r matches Some(v) ==> *v == lookup(entries@, n@)->0,
{
    let mut i: usize = 0;
    assert(entries@.skip(0) =~= entries@);
    while i < entries.len()
        invariant
            i <= entries@.len(),
            lookup(entries@, n@) == lookup(entries@.skip(i as int), n@),
        decreases entries@.len() - i,
    {
        assert(entries@.skip(i as int)[0] == entries@[i as int]);
        if entries[i].0 == *n {
            return Some(&entries[i].1);
        }
        assert(entries@.skip(i as int).drop_first() =~= entries@.skip(i + 1));
        i = i + 1;
    }
    None
}

impl<S> Types<S> {
    /// Each name list is a set and each pair list a map: no name occurs twice.
    pub open spec fn wf(&self) -> bool {
        &&& names_distinct(self.structs@)
        &&& names_distinct(self.enums@)
        &&& names_distinct(self.cxx@)
        &&& names_distinct(self.rust@)
        &&& names_distinct(self.aliases@)
        &&& keys_distinct(self.untrusted@)
        &&& keys_distinct(self.required_trivial@)
    }

    pub open spec fn is_struct(&self, n: Seq<char>) -> bool {
        has_name(self.structs@, n)
    }

    pub open spec fn is_enum(&self, n: Seq<char>) -> bool {
        has_name(self.enums@, n)
    }

    pub open spec fn is_cxx(&self, n: Seq<char>) -> bool {
        has_name(self.cxx@, n)
    }

    pub open spec fn is_rust(&self, n: Seq<char>) -> bool {
        has_name(self.rust@, n)
    }

    pub open spec fn is_alias(&self, n: Seq<char>) -> bool {
        has_name(self.aliases@, n)
    }

    pub open spec fn untrusted_at(&self, n: Seq<char>) -> Option<Loc<S>> {
        lookup(self.untrusted@, n)
    }

    pub open spec fn trivial_reason(&self, n: Seq<char>) -> Option<TrivialReason> {
        lookup(self.required_trivial@, n)
    }

    /// In well-formed tables, each extern type declared in a safe block and
    /// each type required to be trivial is found with its own entry.
    pub proof fn law_lookups_find_their_entries(&self, i: int, j: int)
        requires
            self.wf(),
            0 <= i < self.untrusted@.len(),
            0 <= j < self.required_trivial@.len(),
        ensures
            self.untrusted_at(self.untrusted@[i].0@) == Some(self.untrusted@[i].1),
            self.trivial_reason(self.required_trivial@[j].0@) == Some(self.required_trivial@[j].1),
    {
        law_lookup_finds_the_unique_entry(self.untrusted@, i);
        law_lookup_finds_the_unique_entry(self.required_trivial@, j);
    }
}

} // verus!
