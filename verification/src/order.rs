//! Sorting texts.

use vstd::prelude::*;

use crate::search;
use crate::search::comes_before;
use crate::text;
use crate::text::no_texts;
use crate::text::push_text;

verus! {

/// A sorted list with a text put in its place, behind equal ones.
pub open spec fn inserted(sorted: Seq<Seq<char>>, item: Seq<char>) -> Seq<Seq<char>>
    decreases sorted.len(),
{
    if sorted.len() == 0 || !search::text_before(item, sorted.last()) {
        sorted.push(item)
    } else {
        inserted(sorted.drop_last(), item).push(sorted.last())
    }
}

/// The texts of a list in their order.
pub open spec fn sorted(items: Seq<Seq<char>>) -> Seq<Seq<char>>
    decreases items.len(),
{
    if items.len() == 0 {
        Seq::empty()
    } else {
        inserted(sorted(items.drop_last()), items.last())
    }
}

/// No text comes before one in front of it.
pub open spec fn in_order(items: Seq<Seq<char>>) -> bool {
    forall|i: int, j: int|
        0 <= i < j < items.len() ==> !search::text_before(#[trigger] items[j], #[trigger] items[i])
}

proof fn inserted_facts(list: Seq<Seq<char>>, item: Seq<char>)
    requires
        in_order(list),
    ensures
        in_order(inserted(list, item)),
        inserted(list, item).len() == list.len() + 1,
        inserted(list, item).to_multiset() == list.to_multiset().insert(item),
        forall|x: Seq<char>|
            #[trigger] inserted(list, item).contains(x) ==> x == item || list.contains(x),
    decreases list.len(),
{
    broadcast use vstd::seq_lib::group_to_multiset_ensures;

    let out = inserted(list, item);
    if list.len() == 0 || !search::text_before(item, list.last()) {
        assert forall|i: int, j: int| 0 <= i < j < out.len() implies !search::text_before(
            #[trigger] out[j],
            #[trigger] out[i],
        ) by {
            if j == list.len() {
                if search::text_before(item, list[i]) {
                    let last = list.last();
                    search::text_before_is_total(list[i], last);
                    if search::text_before(last, list[i]) {
                        assert(i < list.len() - 1);
                    } else if list[i] != last {
                        search::text_before_is_transitive(item, list[i], last);
                    }
                }
            }
        }
        assert forall|x: Seq<char>| #[trigger] out.contains(x) implies x == item || list.contains(
            x,
        ) by {
            let i = choose|i: int| 0 <= i < out.len() && out[i] == x;
            if i < list.len() {
                assert(list[i] == x);
            }
        }
    } else {
        let front = list.drop_last();
        let last = list.last();
        assert forall|i: int, j: int| 0 <= i < j < front.len() implies !search::text_before(
            #[trigger] front[j],
            #[trigger] front[i],
        ) by {
            assert(front[i] == list[i] && front[j] == list[j]);
        }
        inserted_facts(front, item);
        let more = inserted(front, item);
        assert(list =~= front.push(last));
        assert forall|i: int, j: int| 0 <= i < j < out.len() implies !search::text_before(
            #[trigger] out[j],
            #[trigger] out[i],
        ) by {
            if j == more.len() {
                assert(more.contains(more[i]));
                if more[i] == item {
                    if search::text_before(last, item) {
                        search::text_before_is_transitive(item, last, item);
                        search::text_before_is_irreflexive(item);
                    }
                } else {
                    let k = choose|k: int| 0 <= k < front.len() && front[k] == more[i];
                    assert(list[k] == more[i]);
                }
            }
        }
        assert forall|x: Seq<char>| #[trigger] out.contains(x) implies x == item || list.contains(
            x,
        ) by {
            let i = choose|i: int| 0 <= i < out.len() && out[i] == x;
            if i < more.len() {
                assert(more.contains(x));
                if x != item {
                    let k = choose|k: int| 0 <= k < front.len() && front[k] == x;
                    assert(list[k] == x);
                }
            } else {
                assert(list[list.len() - 1] == x);
            }
        }
        assert(out.to_multiset() =~= list.to_multiset().insert(item));
    }
}

/// Sorting puts the texts of a list in order; none is lost and none is added.
pub proof fn sorted_laws(items: Seq<Seq<char>>)
    ensures
        in_order(sorted(items)),
        sorted(items).to_multiset() == items.to_multiset(),
        sorted(items).len() == items.len(),
    decreases items.len(),
{
    broadcast use vstd::seq_lib::group_to_multiset_ensures;

    if items.len() > 0 {
        let front = items.drop_last();
        sorted_laws(front);
        inserted_facts(sorted(front), items.last());
        assert(items =~= front.push(items.last()));
    }
}

proof fn inserted_in_middle(front: Seq<Seq<char>>, back: Seq<Seq<char>>, item: Seq<char>)
    requires
        front.len() == 0 || !search::text_before(item, front.last()),
        forall|i: int| 0 <= i < back.len() ==> search::text_before(item, #[trigger] back[i]),
    ensures
        inserted(front + back, item) == front.push(item) + back,
    decreases back.len(),
{
    if back.len() == 0 {
        assert(front + back =~= front);
        assert(front.push(item) + back =~= front.push(item));
    } else {
        let rest = back.drop_last();
        assert((front + back).last() == back.last());
        assert((front + back).drop_last() =~= front + rest);
        assert(search::text_before(item, back[back.len() - 1]));
        assert forall|i: int| 0 <= i < rest.len() implies search::text_before(
            item,
            #[trigger] rest[i],
        ) by {
            assert(rest[i] == back[i]);
        }
        inserted_in_middle(front, rest, item);
        assert((front.push(item) + rest).push(back.last()) =~= front.push(item) + back);
    }
}

fn insert_text(list: &mut Vec<String>, item: String)
    ensures
        text::texts(final(list)@) == inserted(text::texts(old(list)@), item@),
{
    let ghost all = text::texts(list@);
    let mut at: usize = list.len();
    while at > 0 && comes_before(item.as_str(), list[at - 1].as_str())
        invariant
            at <= list@.len(),
            all == text::texts(list@),
            forall|i: int| at <= i < all.len() ==> search::text_before(item@, #[trigger] all[i]),
        decreases at,
    {
        at = at - 1;
    }
    proof {
        let front = all.take(at as int);
        let back = all.skip(at as int);
        assert(front + back =~= all);
        if at > 0 {
            assert(front.last() == list@[at - 1]@);
        }
        assert forall|i: int| 0 <= i < back.len() implies search::text_before(
            item@,
            #[trigger] back[i],
        ) by {
            assert(back[i] == all[at + i]);
        }
        inserted_in_middle(front, back, item@);
    }
    let ghost word = item@;
    list.insert(at, item);
    assert(text::texts(list@) =~= all.take(at as int).push(word) + all.skip(at as int));
}

/// The texts of a list in their order.
pub fn sort_texts(items: &Vec<String>) -> (out: Vec<String>)
    ensures
        text::texts(out@) == sorted(text::texts(items@)),
{
    let mut out = no_texts();
    let ghost all = text::texts(items@);
    assert(all.take(0) =~= Seq::<Seq<char>>::empty());
    for i in 0..items.len()
        invariant
            all == text::texts(items@),
            text::texts(out@) == sorted(all.take(i as int)),
    {
        assert(all.take(i + 1).drop_last() =~= all.take(i as int));
        assert(all[i as int] == items@[i as int]@);
        insert_text(&mut out, items[i].clone());
    }
    assert(all.take(all.len() as int) =~= all);
    out
}

} // verus!
