//! Layering of optional values.
//!
//! A setting is looked up in several places, each of which may or may not
//! supply it. The places are listed from the lowest priority to the highest;
//! the value of the last place that supplies one wins.

use vstd::prelude::*;

verus! {

/// The value of the highest layer that supplies one, if any does.
pub open spec fn last_present<T>(layers: Seq<Option<T>>) -> Option<T>
    decreases layers.len(),
{
    if layers.len() == 0 {
        None
    } else if layers.last() is Some {
        layers.last()
    } else {
        last_present(layers.drop_last())
    }
}

/// The value of the highest layer that supplies one, or `default` where
/// none does.
pub open spec fn overlaid<T>(default: T, layers: Seq<Option<T>>) -> T {
    match last_present(layers) {
        Some(value) => value,
        None => default,
    }
}

/// No layer of `layers` supplies a value.
pub open spec fn all_absent<T>(layers: Seq<Option<T>>) -> bool {
    forall|i: int| 0 <= i < layers.len() ==> layers[i] is None
}

/// Picks the value of the highest layer that supplies one.
pub fn pick_last<T>(layers: Vec<Option<T>>) -> (winner: Option<T>)
    ensures
        winner == last_present(layers@),
{
    let ghost all = layers@;
    let mut rest = layers;
    loop
        invariant
            all == layers@,
            last_present(rest@) == last_present(all),
        decreases rest.len(),
    {
        match rest.pop() {
            None => {
                return None;
            },
            Some(Some(value)) => {
                return Some(value);
            },
            Some(None) => {},
        }
    }
}

/// Picks the value of the highest layer that supplies one, and `default`
/// where none does.
pub fn overlay<T>(default: T, layers: Vec<Option<T>>) -> (winner: T)
    ensures
        winner == overlaid(default, layers@),
{
    match pick_last(layers) {
        Some(value) => value,
        None => default,
    }
}

/// Where no layer supplies a value, nothing is picked and the default
/// stands.
pub proof fn lemma_all_absent_leaves_default<T>(default: T, layers: Seq<Option<T>>)
    requires
        all_absent(layers),
    ensures
        last_present(layers) is None,
        overlaid(default, layers) == default,
    decreases layers.len(),
{
    if layers.len() > 0 {
        lemma_all_absent_leaves_default(default, layers.drop_last());
    }
}

/// A layer that supplies a value beats every layer below it, whatever
/// those hold; the layers above it only count if one of them supplies a
/// value too.
pub proof fn lemma_highest_present_wins<T>(layers: Seq<Option<T>>, i: int)
    requires
        0 <= i < layers.len(),
        layers[i] is Some,
        forall|j: int| i < j < layers.len() ==> layers[j] is None,
    ensures
        last_present(layers) == layers[i],
        forall|default: T| overlaid(default, layers) == layers[i]->0,
    decreases layers.len(),
{
    if i < layers.len() - 1 {
        lemma_highest_present_wins(layers.drop_last(), i);
    }
}

} // verus!
