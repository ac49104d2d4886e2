//! What a run of appends does to a collection, and what readers can rely on
//! afterwards. Everything here is stated over the collection's view, a
//! sequence of character sequences, so it holds of the plain collection and of
//! the one behind a held guard alike.

use vstd::prelude::*;

verus! {

/// The items after each item of `batch`, first to last, has been appended to
/// `start`, one completed append after the other.
pub open spec fn after_appends(start: Seq<Seq<char>>, batch: Seq<Seq<char>>) -> Seq<Seq<char>>
    decreases batch.len(),
{
    if batch.len() == 0 {
        start
    } else {
        after_appends(start.push(batch.first()), batch.drop_first())
    }
}

/// One append is a run of one: it leaves what was there, followed by the item.
pub proof fn lemma_one_append(start: Seq<Seq<char>>, item: Seq<char>)
    ensures
        after_appends(start, seq![item]) == start.push(item),
{
    let batch = seq![item];
    assert(batch.first() == item);
    assert(batch.drop_first().len() == 0);
    assert(after_appends(start.push(item), batch.drop_first()) == start.push(item));
}

/// A run of appends that follows another is one longer run: what a later
/// holder of the guard appends comes after all that earlier holders left.
pub proof fn lemma_appends_compose(
    start: Seq<Seq<char>>,
    first: Seq<Seq<char>>,
    second: Seq<Seq<char>>,
)
    ensures
        after_appends(after_appends(start, first), second) == after_appends(start, first + second),
{
    lemma_appends_keep_order(start, first);
    lemma_appends_keep_order(start + first, second);
    lemma_appends_keep_order(start, first + second);
    assert((start + first) + second =~= start + (first + second));
}

/// A run of appends leaves what was there, followed by the appended items in
/// the order in which they were appended.
pub proof fn lemma_appends_keep_order(start: Seq<Seq<char>>, batch: Seq<Seq<char>>)
    ensures
        after_appends(start, batch) == start + batch,
    decreases batch.len(),
{
    if batch.len() == 0 {
        assert(start + batch =~= start);
    } else {
        lemma_appends_keep_order(start.push(batch.first()), batch.drop_first());
        assert(start.push(batch.first()) + batch.drop_first() =~= start + batch);
    }
}

/// Appends that complete one after the other add up to one run. `states` are
/// the items held before the first append, between each two, and after the
/// last; where each state is what one append of the item at that place left
/// of the state before it, the last state is the first, followed by the items
/// in the order in which they were appended.
pub proof fn lemma_appends_one_after_another(
    states: Seq<Seq<Seq<char>>>,
    items: Seq<Seq<char>>,
)
    requires
        states.len() == items.len() + 1,
        forall|k: int|
            0 < k < states.len() ==> #[trigger] states[k] == states[k - 1].push(items[k - 1]),
    ensures
        states.last() == after_appends(states.first(), items),
        states.last() == states.first() + items,
    decreases items.len(),
{
    if items.len() == 0 {
        assert(states.first() + items =~= states.first());
    } else {
        let earlier = states.drop_last();
        let fewer = items.drop_last();
        assert forall|k: int| 0 < k < earlier.len() implies #[trigger] earlier[k] == earlier[k
            - 1].push(fewer[k - 1]) by {
            assert(states[k] == states[k - 1].push(items[k - 1]));
        }
        lemma_appends_one_after_another(earlier, fewer);
        let n = items.len() as int;
        assert(states[n] == states[n - 1].push(items[n - 1]));
        assert(earlier.last() == states[n - 1]);
        assert((states.first() + fewer).push(items[n - 1]) =~= states.first() + items);
    }
    lemma_appends_keep_order(states.first(), items);
}

/// Appends made one after the other to an empty collection are read back
/// exactly as they were made: the same items, in the same order.
pub proof fn lemma_append_order_preserved(batch: Seq<Seq<char>>)
    ensures
        after_appends(Seq::<Seq<char>>::empty(), batch) == batch,
{
    lemma_appends_keep_order(Seq::<Seq<char>>::empty(), batch);
    assert(Seq::<Seq<char>>::empty() + batch =~= batch);
}

/// Once `item` has been appended it is there for every later reader, whatever
/// is appended after it, and it stands right behind what was there before.
pub proof fn lemma_read_your_writes(
    before: Seq<Seq<char>>,
    item: Seq<char>,
    later: Seq<Seq<char>>,
)
    ensures
        after_appends(before.push(item), later).contains(item),
        after_appends(before.push(item), later)[before.len() as int] == item,
{
    lemma_appends_keep_order(before.push(item), later);
    let read = before.push(item) + later;
    assert(read[before.len() as int] == item);
}

/// A copy that was read earlier stays a true record of that moment: after any
/// further appends, the collection still begins with exactly the items of the
/// copy, so nothing was removed, moved or changed.
pub proof fn lemma_earlier_read_is_prefix(earlier: Seq<Seq<char>>, later: Seq<Seq<char>>)
    ensures
        earlier.is_prefix_of(after_appends(earlier, later)),
        after_appends(earlier, later).len() == earlier.len() + later.len(),
        after_appends(earlier, later).subrange(0, earlier.len() as int) == earlier,
{
    lemma_appends_keep_order(earlier, later);
    assert((earlier + later).subrange(0, earlier.len() as int) =~= earlier);
}

/// Appends that race for the guard are made one at a time, in some order.
/// Whatever that order is, all of them arrive and none arrives twice: reading
/// an initially empty collection afterwards gives as many items as were
/// appended, each as often as it was appended. Where the appended items differ
/// from one another, no item is read twice.
pub proof fn lemma_every_interleaving_keeps_all(
    appended: Seq<Seq<char>>,
    served: Seq<Seq<char>>,
)
    requires
        served.to_multiset() == appended.to_multiset(),
    ensures
        after_appends(Seq::<Seq<char>>::empty(), served).len() == appended.len(),
        after_appends(Seq::<Seq<char>>::empty(), served).to_multiset() == appended.to_multiset(),
        forall|item: Seq<char>|
            appended.contains(item) <==> #[trigger] after_appends(
                Seq::<Seq<char>>::empty(),
                served,
            ).contains(item),
        appended.no_duplicates() ==> after_appends(
            Seq::<Seq<char>>::empty(),
            served,
        ).no_duplicates(),
{
    lemma_append_order_preserved(served);
    served.to_multiset_ensures();
    appended.to_multiset_ensures();
    assert forall|item: Seq<char>| appended.contains(item) <==> served.contains(item) by {
        assert(appended.contains(item) <==> appended.to_multiset().count(item) > 0);
        assert(served.contains(item) <==> served.to_multiset().count(item) > 0);
    }
    if appended.no_duplicates() {
        appended.lemma_multiset_has_no_duplicates();
        served.lemma_multiset_has_no_duplicates_conv();
    }
}

/// Two reads with no append between them give the same items in the same
/// order.
pub proof fn lemma_reads_agree(items: Seq<Seq<char>>, first: Vec<String>, second: Vec<String>)
    requires
        first.deep_view() == items,
        second.deep_view() == items,
    ensures
        first.deep_view() == second.deep_view(),
        first.len() == second.len(),
{
    assert(first.deep_view().len() == first.len());
    assert(second.deep_view().len() == second.len());
}

} // verus!
