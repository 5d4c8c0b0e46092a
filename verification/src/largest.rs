//! The largest item of a list.

use vstd::prelude::*;
use core::cmp::Ordering;
use vstd::std_specs::cmp::PartialOrdSpec;

verus! {

/// The order of `T` is the one that its specification states.
pub open spec fn lawful<T: PartialOrd>() -> bool {
    T::obeys_partial_cmp_spec()
}

/// `a` is greater than `b`.
pub open spec fn exceeds<T: PartialOrd>(a: T, b: T) -> bool {
    a.partial_cmp_spec(&b) == Some(Ordering::Greater)
}

/// The item that a walk along the list ends up with, where the walk starts
/// with the first item and moves on to each later item that is greater than
/// the one it holds.
pub open spec fn largest_of<T: PartialOrd>(list: Seq<T>) -> T
    decreases list.len(),
{
    if list.len() <= 1 {
        list[0]
    } else {
        let held = largest_of(list.drop_last());
        if exceeds(list.last(), held) {
            list.last()
        } else {
            held
        }
    }
}

/// The largest number of a list.
///
/// An empty list has no largest number, so the list has to hold one at
/// least.
pub fn get_largest(list: &Vec<i32>) -> (largest: i32)
    requires
        list.len() > 0,
    ensures
        list@.contains(largest),
        forall|i: int| 0 <= i < list.len() ==> list[i] <= largest,
{
    let mut largest: i32 = list[0];
    let mut i: usize = 0;
    while i < list.len()
        invariant
            i <= list.len(),
            list@.contains(largest),
            forall|k: int| 0 <= k < i ==> list[k] <= largest,
        decreases list.len() - i,
    {
        if list[i] > largest {
            largest = list[i];
        }
        i += 1;
    }
    largest
}

/// The largest item of a list of anything that can be compared.
///
/// The result is always an item of the list. Where the order of `T` is
/// lawful it is the item that `largest_of` names. An empty list has no
/// largest item, so the list has to hold one at least.
pub fn genetic_get_largest<T: PartialOrd + Copy>(list: Vec<T>) -> (largest: T)
    requires
        list.len() > 0,
    ensures
        list@.contains(largest),
        lawful::<T>() ==> largest == largest_of(list@),
{
    let mut largest: T = list[0];
    let mut i: usize = 1;
    assert(list@.take(1) =~= seq![list@[0]]);
    while i < list.len()
        invariant
            1 <= i <= list.len(),
            list@.contains(largest),
            lawful::<T>() ==> largest == largest_of(list@.take(i as int)),
        decreases list.len() - i,
    {
        let item: T = list[i];
        proof {
            let seen = list@.take(i + 1);
            assert(seen.drop_last() == list@.take(i as int));
            assert(seen.last() == item);
        }
        if item > largest {
            largest = item;
        }
        i += 1;
    }
    assert(list@.take(list.len() as int) == list@);
    largest
}

/// On integers the walk ends up with the greatest one.
pub proof fn lemma_largest_of_integers(list: Seq<i32>)
    requires
        list.len() > 0,
    ensures
        list.contains(largest_of(list)),
        forall|i: int| 0 <= i < list.len() ==> list[i] <= largest_of(list),
    decreases list.len(),
{
    if list.len() > 1 {
        let before = list.drop_last();
        lemma_largest_of_integers(before);
        let held = largest_of(before);
        let k = choose|k: int| 0 <= k < before.len() && before[k] == held;
        assert(list[k] == held);
        assert forall|i: int| 0 <= i < list.len() implies list[i] <= largest_of(list) by {
            if i < before.len() {
                assert(before[i] == list[i]);
            }
        }
    }
}

} // verus!
