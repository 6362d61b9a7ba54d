//! The order of the result list: by seeders, most first; results with
//! equally many seeders stay in the order in which they came.

use vstd::prelude::*;
use crate::messages::Magnet;

verus! {

/// Where a result with `seeders` seeders goes into the list: in front of
/// the first result with fewer seeders, or behind all if there is none.
pub open spec fn insert_position(list: Seq<Magnet>, seeders: u32) -> int
    decreases list.len(),
{
    if list.len() == 0 {
        0
    } else if list[0].seeders < seeders {
        0
    } else {
        1 + insert_position(list.drop_first(), seeders)
    }
}

/// The list with one more result, put in at its place.
pub open spec fn inserted(list: Seq<Magnet>, magnet: Magnet) -> Seq<Magnet> {
    list.insert(insert_position(list, magnet.seeders), magnet)
}

/// The results put in one after the other, from the first to the last.
pub open spec fn by_seeders(list: Seq<Magnet>) -> Seq<Magnet>
    decreases list.len(),
{
    if list.len() == 0 {
        Seq::empty()
    } else {
        inserted(by_seeders(list.drop_last()), list.last())
    }
}

/// No result has fewer seeders than one behind it.
pub open spec fn descending(list: Seq<Magnet>) -> bool {
    forall|i: int, j: int| 0 <= i < j < list.len() ==> list[i].seeders >= list[j].seeders
}

/// The place of a new result lies within the list, behind every result
/// with at least as many seeders in front of it, and in front of one with
/// fewer.
pub proof fn lemma_insert_position(list: Seq<Magnet>, seeders: u32)
    ensures
        0 <= insert_position(list, seeders) <= list.len(),
        forall|k: int| 0 <= k < insert_position(list, seeders) ==> list[k].seeders >= seeders,
        insert_position(list, seeders) < list.len() ==> list[insert_position(
            list,
            seeders,
        )].seeders < seeders,
    decreases list.len(),
{
    if list.len() > 0 && list[0].seeders >= seeders {
        let rest = list.drop_first();
        lemma_insert_position(rest, seeders);
        let p = insert_position(rest, seeders);
        assert forall|k: int| 0 <= k < p + 1 implies list[k].seeders >= seeders by {
            if k > 0 {
                assert(rest[k - 1] == list[k]);
            }
        }
        if p < rest.len() {
            assert(rest[p] == list[p + 1]);
        }
    }
}

/// The place of a new result is the only position with those properties.
pub proof fn lemma_insert_position_unique(list: Seq<Magnet>, seeders: u32, at: int)
    requires
        0 <= at <= list.len(),
        forall|k: int| 0 <= k < at ==> list[k].seeders >= seeders,
        at < list.len() ==> list[at].seeders < seeders,
    ensures
        at == insert_position(list, seeders),
{
    lemma_insert_position(list, seeders);
    let p = insert_position(list, seeders);
    if p < at {
        assert(list[p].seeders >= seeders);
    }
    if at < p {
        assert(list[at].seeders >= seeders);
    }
}

/// Putting a result into a descending list leaves it descending.
pub proof fn lemma_inserted_descending(list: Seq<Magnet>, magnet: Magnet)
    requires
        descending(list),
    ensures
        descending(inserted(list, magnet)),
{
    lemma_insert_position(list, magnet.seeders);
    let p = insert_position(list, magnet.seeders);
    let longer = inserted(list, magnet);
    assert forall|i: int, j: int| 0 <= i < j < longer.len() implies longer[i].seeders
        >= longer[j].seeders by {
        if j < p {
            assert(longer[i] == list[i] && longer[j] == list[j]);
        } else if j == p {
            assert(longer[i] == list[i]);
        } else if i < p {
            assert(longer[i] == list[i] && longer[j] == list[j - 1]);
        } else if i == p {
            assert(longer[j] == list[j - 1]);
            assert(list[p].seeders >= list[j - 1].seeders || p == j - 1);
        } else {
            assert(longer[i] == list[i - 1] && longer[j] == list[j - 1]);
        }
    }
}

/// The ordered list is descending, whatever the order of the results was.
pub proof fn lemma_by_seeders_descending(list: Seq<Magnet>)
    ensures
        descending(by_seeders(list)),
    decreases list.len(),
{
    if list.len() > 0 {
        lemma_by_seeders_descending(list.drop_last());
        lemma_inserted_descending(by_seeders(list.drop_last()), list.last());
    }
}

/// The ordered list holds the same results as the list, each as often.
pub proof fn lemma_by_seeders_permutes(list: Seq<Magnet>)
    ensures
        by_seeders(list).to_multiset() == list.to_multiset(),
        by_seeders(list).len() == list.len(),
    decreases list.len(),
{
    if list.len() > 0 {
        let shorter = list.drop_last();
        lemma_by_seeders_permutes(shorter);
        lemma_insert_position(by_seeders(shorter), list.last().seeders);
        vstd::seq_lib::to_multiset_insert(
            by_seeders(shorter),
            insert_position(by_seeders(shorter), list.last().seeders),
            list.last(),
        );
        assert(list =~= shorter.push(list.last()));
        vstd::seq_lib::to_multiset_build(shorter, list.last());
        assert(by_seeders(list).to_multiset() == by_seeders(shorter).to_multiset().insert(
            list.last(),
        ));
        assert(list.to_multiset() =~= shorter.to_multiset().insert(list.last()));
    } else {
        assert(list =~= Seq::<Magnet>::empty());
    }
}

fn place_for(list: &Vec<Magnet>, seeders: u32) -> (at: usize)
    ensures
        at == insert_position(list@, seeders),
        at <= list@.len(),
{
    let mut at: usize = 0;
    while at < list.len() && list[at].seeders >= seeders
        invariant
            0 <= at <= list@.len(),
            forall|k: int| 0 <= k < at ==> list@[k].seeders >= seeders,
        decreases list@.len() - at,
    {
        at = at + 1;
    }
    proof {
        lemma_insert_position_unique(list@, seeders, at as int);
    }
    at
}

/// Adds the results found to the list and puts the whole list in order.
pub fn merge_by_seeders(items: &mut Vec<Magnet>, found: Vec<Magnet>)
    ensures
        final(items)@ == by_seeders(old(items)@ + found@),
{
    let mut rest: Vec<Magnet> = Vec::new();
    std::mem::swap(items, &mut rest);
    let ghost new = found@;
    let mut found = found;
    rest.append(&mut found);
    let ghost whole = rest@;
    let ghost mut taken: Seq<Magnet> = Seq::empty();
    assert(whole =~= old(items)@ + new);
    assert(items@ =~= by_seeders(taken));
    while rest.len() > 0
        invariant
            taken + rest@ == whole,
            items@ == by_seeders(taken),
        decreases rest@.len(),
    {
        let magnet = rest.remove(0);
        proof {
            assert(taken.push(magnet).drop_last() =~= taken);
            assert(taken.push(magnet) + rest@ =~= whole);
            lemma_insert_position(items@, magnet.seeders);
            taken = taken.push(magnet);
        }
        let at = place_for(items, magnet.seeders);
        items.insert(at, magnet);
    }
    assert(taken =~= whole);
}

} // verus!
