//! The diagnostics that the checks produce.
use vstd::prelude::*;

use crate::syntax::Loc;

verus! {

/// One error: where it points and what it says.
#[derive(Debug, PartialEq, Eq)]
pub struct Diagnostic<S> {
    pub loc: Loc<S>,
    pub msg: String,
}

/// The errors found so far, in the order they were found.
#[derive(Debug, PartialEq, Eq)]
pub struct Errors<S> {
    pub diagnostics: Vec<Diagnostic<S>>,
}

impl<S> View for Errors<S> {
    type V = Seq<(Loc<S>, Seq<char>)>;

    open spec fn view(&self) -> Seq<(Loc<S>, Seq<char>)> {
        self.diagnostics@.map_values(|d: Diagnostic<S>| (d.loc, d.msg@))
    }
}

/// A single diagnostic.
pub open spec fn one<S>(loc: Loc<S>, msg: Seq<char>) -> Seq<(Loc<S>, Seq<char>)> {
    seq![(loc, msg)]
}

/// The diagnostics of each item of a list, in order, one after another.
pub open spec fn flat_map<A, S>(
    items: Seq<A>,
    f: spec_fn(A) -> Seq<(Loc<S>, Seq<char>)>,
) -> Seq<(Loc<S>, Seq<char>)>
    decreases items.len(),
{
    if items.len() == 0 {
        seq![]
    } else {
        flat_map(items.drop_last(), f) + f(items.last())
    }
}

/// Extending a prefix of the items by one item appends that item's diagnostics.
pub proof fn lemma_flat_map_step<A, S>(
    items: Seq<A>,
    f: spec_fn(A) -> Seq<(Loc<S>, Seq<char>)>,
    i: int,
)
    requires
        0 <= i < items.len(),
    ensures
        flat_map(items.take(i + 1), f) == flat_map(items.take(i), f) + f(items[i]),
{
    assert(items.take(i + 1).drop_last() =~= items.take(i));
}

impl<S> Errors<S> {
    /// No errors yet.
    pub fn new() -> (r: Errors<S>)
        ensures
            r@ == Seq::<(Loc<S>, Seq<char>)>::empty(),
    {
        let r = Errors { diagnostics: Vec::new() };
        assert(r@ =~= Seq::<(Loc<S>, Seq<char>)>::empty());
        r
    }

    /// Records an error at a location.
    pub fn error(&mut self, loc: Loc<S>, msg: String)
        ensures
            final(self)@ == old(self)@.push((loc, msg@)),
    {
        let ghost m = msg@;
        self.diagnostics.push(Diagnostic { loc, msg });
        assert(self@ =~= old(self)@.push((loc, m)));
    }
}

} // verus!
