//! Sequences of optional items.

use vstd::prelude::*;
use vstd::std_specs::iter::IteratorSpec;

verus! {

/// The items that are there, in their order.
pub open spec fn present<T>(items: Seq<Option<T>>) -> Seq<T>
    decreases items.len(),
{
    if items.len() == 0 {
        Seq::empty()
    } else {
        match items.last() {
            Some(item) => present(items.drop_last()).push(item),
            None => present(items.drop_last()),
        }
    }
}

/// Whether no item is missing.
pub open spec fn all_present<T>(items: Seq<Option<T>>) -> bool {
    forall|i: int| 0 <= i < items.len() ==> (#[trigger] items[i]) is Some
}

/// Keeps the items that are there and drops the gaps.
pub fn keep_present<T>(items: Vec<Option<T>>) -> (kept: Vec<T>)
    ensures
        kept@ == present(items@),
{
    let mut kept: Vec<T> = Vec::new();
    let ghost all = items@;
    for item in it: items
        invariant
            it.seq() == all,
            kept@ == present(all.take(it.index())),
    {
        proof {
            let next = all.take(it.index() + 1);
            assert(next.drop_last() =~= all.take(it.index()));
            assert(next.last() == item);
        }
        if let Some(value) = item {
            kept.push(value);
        }
    }
    proof {
        assert(all.take(all.len() as int) =~= all);
    }
    kept
}

/// Whether no item of the sequence is missing.
pub fn none_missing<T>(items: &Vec<Option<T>>) -> (complete: bool)
    ensures
        complete == all_present(items@),
{
    let mut i: usize = 0;
    while i < items.len()
        invariant
            i <= items.len(),
            forall|j: int| 0 <= j < i ==> (#[trigger] items@[j]) is Some,
        decreases items.len() - i,
    {
        if items[i].is_none() {
            return false;
        }
        i = i + 1;
    }
    true
}

/// No more items are kept than there were, and every kept item was there.
pub proof fn lemma_present_comes_from<T>(items: Seq<Option<T>>)
    ensures
        present(items).len() <= items.len(),
        forall|k: int|
            0 <= k < present(items).len() ==> items.contains(Some(#[trigger] present(items)[k])),
    decreases items.len(),
{
    if items.len() > 0 {
        let rest = items.drop_last();
        lemma_present_comes_from(rest);
        assert forall|k: int| 0 <= k < present(items).len() implies items.contains(
            Some(#[trigger] present(items)[k]),
        ) by {
            if k < present(rest).len() {
                let found = choose|j: int| 0 <= j < rest.len() && rest[j] == Some(present(rest)[k]);
                assert(items[found] == rest[found]);
            } else {
                assert(items[items.len() - 1] == items.last());
            }
        }
    }
}

} // verus!
