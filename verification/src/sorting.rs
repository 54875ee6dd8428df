//! Ordering the list of mods by one of their fields.

use vstd::prelude::*;
use vstd::multiset::Multiset;
use vstd::seq_lib::{to_multiset_build, to_multiset_remove};
use crate::data::BaronyMod;
use crate::widgets::Sorter;

verus! {

/// The number by which `sorter` ranks a mod. Without a sorter every mod ranks
/// the same.
pub open spec fn sort_key(m: BaronyMod, sorter: Sorter) -> int {
    match sorter {
        Sorter::VoteScore => m.workshop.votes.up as int,
        Sorter::Views => m.workshop.views as int,
        Sorter::Size => m.workshop.file_size as int,
        Sorter::Updated => m.workshop.time_updated as int,
        Sorter::Created => m.workshop.time_created as int,
        Sorter::NoSorter => 0,
    }
}

/// Keys never fall along `mods`.
pub open spec fn ascending_by(mods: Seq<BaronyMod>, sorter: Sorter) -> bool {
    forall|i: int, j: int|
        0 <= i <= j < mods.len() ==> sort_key(mods[i], sorter) <= sort_key(mods[j], sorter)
}

/// Keys never rise along `mods`.
pub open spec fn descending_by(mods: Seq<BaronyMod>, sorter: Sorter) -> bool {
    forall|i: int, j: int|
        0 <= i <= j < mods.len() ==> sort_key(mods[i], sorter) >= sort_key(mods[j], sorter)
}

/// Computes the key by which `sorter` ranks `m`.
pub fn key_of(m: &BaronyMod, sorter: Sorter) -> (key: i128)
    ensures
        key == sort_key(*m, sorter),
{
    match sorter {
        Sorter::VoteScore => m.workshop.votes.up as i128,
        Sorter::Views => m.workshop.views as i128,
        Sorter::Size => m.workshop.file_size as i128,
        Sorter::Updated => m.workshop.time_updated as i128,
        Sorter::Created => m.workshop.time_created as i128,
        Sorter::NoSorter => 0,
    }
}

/// Position of the first mod with the smallest key.
fn smallest(mods: &Vec<BaronyMod>, sorter: Sorter) -> (at: usize)
    requires
        mods.len() > 0,
    ensures
        at < mods.len(),
        forall|j: int|
            0 <= j < mods.len() ==> sort_key(mods@[at as int], sorter) <= sort_key(
                #[trigger] mods@[j],
                sorter,
            ),
{
    let mut at: usize = 0;
    let mut least: i128 = key_of(&mods[0], sorter);
    let mut i: usize = 1;
    while i < mods.len()
        invariant
            1 <= i <= mods.len(),
            at < i,
            least == sort_key(mods@[at as int], sorter),
            forall|j: int| 0 <= j < i ==> least <= sort_key(#[trigger] mods@[j], sorter),
        decreases mods.len() - i,
    {
        let key: i128 = key_of(&mods[i], sorter);
        if key < least {
            at = i;
            least = key;
        }
        i += 1;
    }
    at
}

/// Rearranges `mods` so that the keys given by `sorter` never fall. No mod is
/// added, dropped or changed.
pub fn sort_ascending(mods: &mut Vec<BaronyMod>, sorter: Sorter)
    ensures
        ascending_by(final(mods)@, sorter),
        final(mods)@.to_multiset() == old(mods)@.to_multiset(),
{
    broadcast use {to_multiset_build, to_multiset_remove, vstd::multiset::group_multiset_axioms};

    let ghost initial = mods@;
    let mut sorted: Vec<BaronyMod> = Vec::new();
    assert(sorted@.to_multiset().add(mods@.to_multiset()) == initial.to_multiset()) by {
        sorted@.to_multiset_ensures();
        assert(sorted@.to_multiset().len() == 0);
        assert(sorted@.to_multiset().add(mods@.to_multiset()) =~= initial.to_multiset());
    }
    while mods.len() > 0
        invariant
            ascending_by(sorted@, sorter),
            forall|a: int, b: int|
                0 <= a < sorted@.len() && 0 <= b < mods@.len() ==> sort_key(sorted@[a], sorter)
                    <= sort_key(mods@[b], sorter),
            sorted@.to_multiset().add(mods@.to_multiset()) == initial.to_multiset(),
        decreases mods.len(),
    {
        let at = smallest(mods, sorter);
        let ghost before = mods@;
        let ghost sorted_before = sorted@;
        let next = mods.remove(at);
        sorted.push(next);
        proof {
            assert(forall|b: int|
                0 <= b < mods@.len() ==> mods@[b] == before[if b < at { b } else { b + 1 }]);
            assert(before.to_multiset().count(next) > 0) by {
                before.to_multiset_ensures();
                assert(before.contains(next));
            }
            to_multiset_remove(before, at as int);
            to_multiset_build(sorted_before, next);
            assert(mods@ == before.remove(at as int));
            assert(sorted@ == sorted_before.push(next));
            assert(sorted@.to_multiset().add(mods@.to_multiset()) =~= sorted_before.to_multiset().add(
                before.to_multiset(),
            ));
        }
    }
    proof {
        mods@.to_multiset_ensures();
        assert(mods@.to_multiset() =~= Multiset::empty());
        assert(sorted@.to_multiset().add(mods@.to_multiset()) =~= sorted@.to_multiset());
    }
    *mods = sorted;
}

/// Puts `mods` in the opposite order.
pub fn reverse_mods(mods: &mut Vec<BaronyMod>)
    ensures
        final(mods)@ == old(mods)@.reverse(),
{
    let ghost initial = mods@;
    let mut reversed: Vec<BaronyMod> = Vec::new();
    while mods.len() > 0
        invariant
            mods@.len() + reversed@.len() == initial.len(),
            mods@ == initial.take(mods@.len() as int),
            forall|k: int|
                0 <= k < reversed@.len() ==> #[trigger] reversed@[k] == initial[initial.len() - 1
                    - k],
        decreases mods.len(),
    {
        let last = mods.pop();
        match last {
            Some(m) => reversed.push(m),
            None => {},
        }
    }
    assert(reversed@ =~= initial.reverse());
    *mods = reversed;
}

} // verus!
