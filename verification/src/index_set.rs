//! Trusted view of `indexmap`'s insertion-ordered set.
//!
//! A dynamic lambda keeps its dependency edges in an `IndexSet`: insertion
//! order is preserved and duplicates are dropped. The set's contents are
//! named by an uninterpreted sequence; each wrapper states, over that name,
//! what the crate's documented behavior is. Equality of two edges at run
//! time is their derived structural equality, which coincides with equality
//! of their views.

use vstd::prelude::*;

verus! {

use crate::deferred::DeferredInput;
use crate::deferred::inputs_view;

#[verifier::external_type_specification]
#[verifier::external_body]
#[verifier::reject_recursive_types(T)]
#[verifier::reject_recursive_types(S)]
pub struct ExIndexSet<T, S>(indexmap::IndexSet<T, S>);

/// What an input set holds, in insertion order.
pub uninterp spec fn input_set_contents(s: indexmap::IndexSet<DeferredInput>) -> Seq<
    DeferredInput,
>;

/// Relies on indexmap::IndexSet::new: a new set is empty.
#[verifier::external_body]
pub fn input_set_new() -> (r: indexmap::IndexSet<DeferredInput>)
    ensures
        input_set_contents(r) == Seq::<DeferredInput>::empty(),
{
    indexmap::IndexSet::new()
}

/// Relies on indexmap::IndexSet::insert: a value equal to a present one
/// leaves the set unchanged and returns false; any other is appended at the
/// end and returns true. Equality of edges is equality of their views.
#[verifier::external_body]
pub fn input_set_insert(s: &mut indexmap::IndexSet<DeferredInput>, value: DeferredInput) -> (r: bool)
    ensures
        inputs_view(input_set_contents(*old(s))).contains(value@) ==> {
            &&& input_set_contents(*final(s)) == input_set_contents(*old(s))
            &&& r == false
        },
        !inputs_view(input_set_contents(*old(s))).contains(value@) ==> {
            &&& input_set_contents(*final(s)) == input_set_contents(*old(s)).push(value)
            &&& r == true
        },
{
    s.insert(value)
}

/// Relies on indexmap::IndexSet::len: the number of values held.
#[verifier::external_body]
pub fn input_set_len(s: &indexmap::IndexSet<DeferredInput>) -> (r: usize)
    ensures
        r == input_set_contents(*s).len(),
{
    s.len()
}

/// Relies on indexmap::IndexSet::get_index: the value at `i` in insertion
/// order, `None` past the end.
#[verifier::external_body]
pub fn input_set_get_index(s: &indexmap::IndexSet<DeferredInput>, i: usize) -> (r: Option<&DeferredInput>)
    ensures
        match r {
            Some(v) => i < input_set_contents(*s).len() && *v == input_set_contents(*s)[i as int],
            None => i >= input_set_contents(*s).len(),
        },
{
    s.get_index(i)
}

} // verus!
