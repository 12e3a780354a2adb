//! Operations shared by the lists whose items carry a 64-bit id.
//!
//! A list is a `Vec` in insertion order. Its model is the sequence of its
//! items, and most statements here are about the sequence of their ids,
//! [`ids_of`]. Nothing in this module relies on the ids being ordered.

use vstd::prelude::*;
use vstd::seq_lib::seq_to_set_is_finite;
use vstd::set_lib::{lemma_int_range, lemma_len_subset, lemma_map_size, set_int_range};

verus! {

/// An item that is found again by its id.
pub trait Identified {
    /// The id of the item.
    spec fn ident(&self) -> u64;

    /// Reads the id of the item.
    fn id(&self) -> (id: u64)
        ensures
            id == self.ident(),
    ;
}

/// The ids of the items, in the order of the items.
pub open spec fn ids_of<T: Identified>(items: Seq<T>) -> Seq<u64> {
    items.map_values(|item: T| item.ident())
}

/// No two items of the list carry the same id.
pub open spec fn unique_ids<T: Identified>(items: Seq<T>) -> bool {
    ids_of(items).no_duplicates()
}

/// The first item that carries `id`, if there is one.
pub open spec fn item_with_id<T: Identified>(items: Seq<T>, id: u64) -> Option<T> {
    match ids_of(items).index_of_first(id) {
        Some(i) => Some(items[i]),
        None => None,
    }
}

/// The list without the first item that carries `id`; the list itself if no
/// item carries it.
pub open spec fn without_id<T: Identified>(items: Seq<T>, id: u64) -> Seq<T> {
    match ids_of(items).index_of_first(id) {
        Some(i) => items.remove(i),
        None => items,
    }
}

/// The value reached from `start` after `step` increments, where the
/// increment of `u64::MAX` is 0.
pub open spec fn probe(start: u64, step: int) -> int {
    if start + step <= u64::MAX {
        start + step
    } else {
        start + step - 0x1_0000_0000_0000_0000
    }
}

/// `id` is the first value, counting up from `start`, that occurs nowhere in
/// `ids`.
pub open spec fn first_unused(ids: Seq<u64>, start: u64, id: u64) -> bool {
    exists|step: int|
        {
            &&& 0 <= step <= ids.len()
            &&& id == #[trigger] probe(start, step)
            &&& !ids.contains(id)
            &&& forall|earlier: int|
                0 <= earlier < step ==> ids.contains(#[trigger] probe(start, earlier) as u64)
        }
}

/// The position of the first item that carries `id`.
pub fn position_of<T: Identified>(list: &Vec<T>, id: u64) -> (position: Option<usize>)
    ensures
        match ids_of(list@).index_of_first(id) {
            Some(i) => position == Some(i as usize) && i < list.len(),
            None => position is None,
        },
        match position {
            Some(at) => {
                &&& at < list.len()
                &&& list@[at as int].ident() == id
                &&& forall|before: int| 0 <= before < at ==> list@[before].ident() != id
            },
            None => forall|at: int| 0 <= at < list.len() ==> list@[at].ident() != id,
        },
{
    let mut i: usize = 0;
    while i < list.len()
        invariant
            i <= list.len(),
            forall|j: int| 0 <= j < i ==> ids_of(list@)[j] != id,
        decreases list.len() - i,
    {
        if list[i].id() == id {
            proof {
                let ids = ids_of(list@);
                ids.index_of_first_ensures(id);
                assert(ids[i as int] == id);
                assert forall|before: int| 0 <= before < i implies list@[before].ident()
                    != id by {
                    assert(ids[before] != id);
                }
            }
            return Some(i);
        }
        i = i + 1;
    }
    proof {
        let ids = ids_of(list@);
        ids.index_of_first_ensures(id);
        assert forall|at: int| 0 <= at < list.len() implies list@[at].ident() != id by {
            assert(ids[at] != id);
        }
    }
    None
}

/// Whether some item of the list carries `id`.
pub fn contains_id<T: Identified>(list: &Vec<T>, id: u64) -> (found: bool)
    ensures
        found == ids_of(list@).contains(id),
{
    proof {
        ids_of(list@).index_of_first_ensures(id);
    }
    position_of(list, id).is_some()
}

/// Removes the first item that carries `id` and hands it back. A list in
/// which no item carries `id` is left as it is.
pub fn remove_by_id<T: Identified>(list: &mut Vec<T>, id: u64) -> (removed: Option<T>)
    ensures
        removed == item_with_id(old(list)@, id),
        final(list)@ == without_id(old(list)@, id),
        removed is Some <==> ids_of(old(list)@).contains(id),
        unique_ids(old(list)@) ==> unique_ids(final(list)@) && !ids_of(final(list)@).contains(id),
{
    proof {
        ids_of(list@).index_of_first_ensures(id);
        if unique_ids(list@) {
            lemma_without_id_keeps_unique(list@, id);
        }
    }
    match position_of(list, id) {
        Some(position) => Some(list.remove(position)),
        None => None,
    }
}

/// An id that no item of the list carries: `start` itself where it is free,
/// else the first free value counting up from it.
pub fn unused_id<T: Identified>(list: &Vec<T>, start: u64) -> (id: u64)
    ensures
        first_unused(ids_of(list@), start, id),
        !ids_of(list@).contains(id),
        !ids_of(list@).contains(start) ==> id == start,
{
    let mut id: u64 = start;
    let mut step: usize = 0;
    while contains_id(list, id)
        invariant
            step <= list.len(),
            id == probe(start, step as int),
            forall|earlier: int|
                0 <= earlier < step ==> ids_of(list@).contains(
                    #[trigger] probe(start, earlier) as u64,
                ),
        decreases list.len() - step,
    {
        proof {
            lemma_probes_fit(ids_of(list@), start, step as int);
        }
        id = id.wrapping_add(1);
        step = step + 1;
    }
    proof {
        assert(id == probe(start, step as int));
        if step > 0 {
            assert(ids_of(list@).contains(probe(start, 0) as u64));
        }
    }
    id
}

/// The item at `at` is the first of the list that carries its id.
pub open spec fn first_of_its_id(ids: Seq<u64>, at: int) -> bool {
    ids.index_of_first(ids[at]) == Some(at)
}

/// `at` is the first position of `ids` that holds an id which an earlier
/// position holds already.
pub open spec fn first_repeat_at(ids: Seq<u64>, at: int) -> bool {
    &&& 0 <= at < ids.len()
    &&& !first_of_its_id(ids, at)
    &&& forall|i: int| 0 <= i < at ==> first_of_its_id(ids, i)
}

/// The id at the first position of `ids` that repeats an earlier id.
pub open spec fn first_repeated_id(ids: Seq<u64>) -> u64
    recommends
        !ids.no_duplicates(),
{
    ids[choose|at: int| first_repeat_at(ids, at)]
}

/// The position of the first item whose id an earlier item carries already.
pub fn first_repeat<T: Identified>(list: &Vec<T>) -> (position: Option<usize>)
    ensures
        position is None <==> unique_ids(list@),
        match position {
            Some(at) => {
                &&& first_repeat_at(ids_of(list@), at as int)
                &&& ids_of(list@)[at as int] == first_repeated_id(ids_of(list@))
            },
            None => true,
        },
{
    let mut at: usize = 0;
    while at < list.len()
        invariant
            at <= list.len(),
            forall|i: int| 0 <= i < at ==> first_of_its_id(ids_of(list@), i),
        decreases list.len() - at,
    {
        let id: u64 = list[at].id();
        proof {
            let ids = ids_of(list@);
            ids.index_of_first_ensures(id);
            assert(ids[at as int] == id);
        }
        match position_of(list, id) {
            Some(first) => {
                if first < at {
                    proof {
                        let ids = ids_of(list@);
                        assert(ids[first as int] == ids[at as int]);
                        assert(first_repeat_at(ids, at as int));
                        let chosen: int = choose|chosen: int| first_repeat_at(ids, chosen);
                        assert(first_repeat_at(ids, chosen));
                        assert(chosen == at) by {
                            if chosen < at {
                                assert(first_of_its_id(ids, chosen));
                            }
                            if at < chosen {
                                assert(first_of_its_id(ids, at as int));
                            }
                        }
                    }
                    return Some(at);
                }
            },
            None => {},
        }
        at = at + 1;
    }
    proof {
        let ids = ids_of(list@);
        assert forall|i: int, j: int|
            0 <= i < ids.len() && 0 <= j < ids.len() && i != j implies ids[i] != ids[j] by {
            assert(first_of_its_id(ids, i));
            assert(first_of_its_id(ids, j));
        }
    }
    None
}

/// Values probed from one start in fewer steps than there are `u64` values
/// differ from each other, so a sequence that holds every one of the first
/// `steps + 1` of them has more than `steps` entries.
pub proof fn lemma_probes_fit(ids: Seq<u64>, start: u64, steps: int)
    requires
        0 <= steps <= u64::MAX,
        forall|step: int| 0 <= step <= steps ==> ids.contains(#[trigger] probe(start, step) as u64),
    ensures
        steps < ids.len(),
{
    let steps_taken = set_int_range(0, steps + 1);
    let value = |step: int| probe(start, step) as u64;
    let probed = steps_taken.map(value);
    lemma_int_range(0, steps + 1);
    assert forall|a: int, b: int|
        steps_taken.contains(a) && steps_taken.contains(b) && #[trigger] value(a)
            == #[trigger] value(b) implies a == b by {
        assert(probe(start, a) == probe(start, b));
    }
    lemma_map_size(steps_taken, probed, value);
    assert forall|id: u64| probed.contains(id) implies ids.to_set().contains(id) by {
        let step: int = choose|step: int| steps_taken.contains(step) && id == value(step);
        assert(ids.contains(probe(start, step) as u64));
    }
    seq_to_set_is_finite(ids);
    lemma_len_subset(probed, ids.to_set());
    ids.lemma_cardinality_of_set();
}

/// A list without repeated ids has none after an item with an id of its own
/// is put at its end.
pub proof fn lemma_push_keeps_unique<T: Identified>(items: Seq<T>, item: T)
    requires
        unique_ids(items),
        !ids_of(items).contains(item.ident()),
    ensures
        unique_ids(items.push(item)),
{
    let ids = ids_of(items);
    let longer = ids_of(items.push(item));
    assert(longer == ids.push(item.ident()));
    assert forall|i: int, j: int|
        0 <= i < longer.len() && 0 <= j < longer.len() && i != j implies longer[i]
        != longer[j] by {
        if i < ids.len() {
            assert(longer[i] == ids[i]);
        }
        if j < ids.len() {
            assert(longer[j] == ids[j]);
        }
    }
}

/// Taking one item out of a list without repeated ids leaves no repeated id,
/// and the id of the item that left occurs no more.
pub proof fn lemma_without_id_keeps_unique<T: Identified>(items: Seq<T>, id: u64)
    requires
        unique_ids(items),
    ensures
        unique_ids(without_id(items, id)),
        !ids_of(without_id(items, id)).contains(id),
{
    let ids = ids_of(items);
    ids.index_of_first_ensures(id);
    match ids.index_of_first(id) {
        Some(at) => {
            let rest = ids_of(items.remove(at));
            assert(rest == ids.remove(at));
            assert forall|i: int, j: int|
                0 <= i < rest.len() && 0 <= j < rest.len() && i != j implies rest[i]
                != rest[j] by {
                let from_i: int = if i < at { i } else { i + 1 };
                let from_j: int = if j < at { j } else { j + 1 };
                assert(rest[i] == ids[from_i]);
                assert(rest[j] == ids[from_j]);
            }
            assert forall|i: int| 0 <= i < rest.len() implies rest[i] != id by {
                let from_i: int = if i < at { i } else { i + 1 };
                assert(rest[i] == ids[from_i]);
                assert(ids[at] == id);
            }
        },
        None => {},
    }
}

} // verus!
