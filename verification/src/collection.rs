//! Finding and removing entities in an ordered collection by their
//! identifier.

use vstd::prelude::*;

verus! {

/// A mathematical value that carries a textual identifier.
pub trait Identified {
    spec fn identifier(&self) -> Seq<char>;
}

/// An entity that is found by its textual identifier.
pub trait Entity: DeepView where Self::V: Identified {
    fn id(&self) -> (id: &String)
        ensures
            id@ == self.deep_view().identifier(),
    ;
}

/// A mathematical value that carries a number as its identifier.
pub trait Numbered {
    spec fn number(&self) -> i32;
}

/// An entity that is found by its number.
pub trait NumberedEntity: DeepView where Self::V: Numbered {
    fn number(&self) -> (number: i32)
        ensures
            number == self.deep_view().number(),
    ;
}

/// The identifiers of `items`, in order.
pub open spec fn identifiers<V: Identified>(items: Seq<V>) -> Seq<Seq<char>> {
    items.map_values(|item: V| item.identifier())
}

/// Where the first item with the identifier `id` stands, if there is one.
pub open spec fn index_with_id<V: Identified>(items: Seq<V>, id: Seq<char>) -> Option<int> {
    identifiers(items).index_of_first(id)
}

/// `items` without those that have the identifier `id`.
pub open spec fn without_id<V: Identified>(items: Seq<V>, id: Seq<char>) -> Seq<V> {
    items.filter(|item: V| item.identifier() != id)
}

/// The numbers of `items`, in order.
pub open spec fn numbers<V: Numbered>(items: Seq<V>) -> Seq<i32> {
    items.map_values(|item: V| item.number())
}

/// Where the first item with the number `number` stands, if there is one.
pub open spec fn index_with_number<V: Numbered>(items: Seq<V>, number: i32) -> Option<int> {
    numbers(items).index_of_first(number)
}

/// `items` without those that have the number `number`.
pub open spec fn without_number<V: Numbered>(items: Seq<V>, number: i32) -> Seq<V> {
    items.filter(|item: V| item.number() != number)
}

/// `index_with_id` gives the first position at which the identifier stands.
pub proof fn lemma_index_with_id<V: Identified>(items: Seq<V>, id: Seq<char>)
    ensures
        match index_with_id(items, id) {
            Some(i) => {
                &&& 0 <= i < items.len()
                &&& items[i].identifier() == id
                &&& forall|k: int| 0 <= k < i ==> items[k].identifier() != id
            },
            None => forall|k: int| 0 <= k < items.len() ==> items[k].identifier() != id,
        },
{
    let ids = identifiers(items);
    ids.index_of_first_ensures(id);
    match index_with_id(items, id) {
        Some(i) => {
            assert forall|k: int| 0 <= k < i implies items[k].identifier() != id by {
                assert(ids[k] != id);
            }
        },
        None => {
            assert forall|k: int| 0 <= k < items.len() implies items[k].identifier() != id by {
                assert(ids[k] == items[k].identifier());
                assert(ids.contains(ids[k]));
            }
        },
    }
}

/// `index_with_number` gives the first position at which the number stands.
pub proof fn lemma_index_with_number<V: Numbered>(items: Seq<V>, number: i32)
    ensures
        match index_with_number(items, number) {
            Some(i) => {
                &&& 0 <= i < items.len()
                &&& items[i].number() == number
                &&& forall|k: int| 0 <= k < i ==> items[k].number() != number
            },
            None => forall|k: int| 0 <= k < items.len() ==> items[k].number() != number,
        },
{
    let all = numbers(items);
    all.index_of_first_ensures(number);
    match index_with_number(items, number) {
        Some(i) => {
            assert forall|k: int| 0 <= k < i implies items[k].number() != number by {
                assert(all[k] != number);
            }
        },
        None => {
            assert forall|k: int| 0 <= k < items.len() implies items[k].number() != number by {
                assert(all[k] == items[k].number());
                assert(all.contains(all[k]));
            }
        },
    }
}

/// Removing by identifier goes item by item.
pub proof fn lemma_without_id_push<V: Identified>(items: Seq<V>, item: V, id: Seq<char>)
    ensures
        without_id(items.push(item), id) == if item.identifier() != id {
            without_id(items, id).push(item)
        } else {
            without_id(items, id)
        },
{
    reveal(Seq::filter);
    assert(items.push(item).drop_last() =~= items);
}

/// Removing by number goes item by item.
pub proof fn lemma_without_number_push<V: Numbered>(items: Seq<V>, item: V, number: i32)
    ensures
        without_number(items.push(item), number) == if item.number() != number {
            without_number(items, number).push(item)
        } else {
            without_number(items, number)
        },
{
    reveal(Seq::filter);
    assert(items.push(item).drop_last() =~= items);
}

/// Where the first entity with the identifier `id` stands.
pub fn find_by_id<T: Entity>(items: &Vec<T>, id: &String) -> (found: Option<usize>) where
    T::V: Identified,

    ensures
        found is None <==> index_with_id(items.deep_view(), id@) is None,
        found matches Some(i) ==> index_with_id(items.deep_view(), id@) == Some(i as int),
        found matches Some(i) ==> i < items.len() && items[i as int].deep_view().identifier() == id@,
{
    let ghost ids = identifiers(items.deep_view());
    let mut i: usize = 0;
    while i < items.len()
        invariant
            i <= items.len(),
            ids == identifiers(items.deep_view()),
            forall|k: int| 0 <= k < i ==> ids[k] != id@,
        decreases items.len() - i,
    {
        if *items[i].id() == *id {
            proof {
                assert(ids[i as int] == id@);
                ids.index_of_first_ensures(id@);
            }
            return Some(i);
        }
        i += 1;
    }
    proof {
        ids.index_of_first_ensures(id@);
    }
    None
}

/// Removes every entity with the identifier `id`; the rest keep their order.
pub fn remove_by_id<T: Entity>(items: &mut Vec<T>, id: &String) where T::V: Identified
    ensures
        final(items).deep_view() == without_id(old(items).deep_view(), id@),
{
    let ghost before = items.deep_view();
    let mut all: Vec<T> = Vec::new();
    std::mem::swap(items, &mut all);
    assert(items.deep_view() =~= Seq::<T::V>::empty());
    proof {
        reveal(Seq::filter);
        assert(before.take(0) =~= Seq::<T::V>::empty());
    }
    for item in it: all
        invariant
            it.seq().len() == before.len(),
            forall|k: int| 0 <= k < before.len() ==> it.seq()[k].deep_view() == before[k],
            items.deep_view() == without_id(before.take(it.index() as int), id@),
    {
        proof {
            lemma_without_id_push(before.take(it.index() as int), item.deep_view(), id@);
            assert(before.take(it.index() + 1) =~= before.take(it.index() as int).push(
                item.deep_view(),
            ));
        }
        if *item.id() != *id {
            let ghost held = items.deep_view();
            items.push(item);
            assert(items.deep_view() =~= held.push(item.deep_view()));
        }
    }
    assert(before.take(before.len() as int) =~= before);
}

/// Where the first entity with the number `number` stands.
pub fn find_by_number<T: NumberedEntity>(items: &Vec<T>, number: i32) -> (found: Option<
    usize,
>) where T::V: Numbered
    ensures
        found is None <==> index_with_number(items.deep_view(), number) is None,
        found matches Some(i) ==> index_with_number(items.deep_view(), number) == Some(i as int),
        found matches Some(i) ==> i < items.len() && items[i as int].deep_view().number() == number,
{
    let ghost all = numbers(items.deep_view());
    let mut i: usize = 0;
    while i < items.len()
        invariant
            i <= items.len(),
            all == numbers(items.deep_view()),
            forall|k: int| 0 <= k < i ==> all[k] != number,
        decreases items.len() - i,
    {
        if items[i].number() == number {
            proof {
                assert(all[i as int] == number);
                all.index_of_first_ensures(number);
            }
            return Some(i);
        }
        i += 1;
    }
    proof {
        all.index_of_first_ensures(number);
    }
    None
}

/// Removes every entity with the number `number`; the rest keep their order.
pub fn remove_by_number<T: NumberedEntity>(items: &mut Vec<T>, number: i32) where T::V: Numbered
    ensures
        final(items).deep_view() == without_number(old(items).deep_view(), number),
{
    let ghost before = items.deep_view();
    let mut all: Vec<T> = Vec::new();
    std::mem::swap(items, &mut all);
    assert(items.deep_view() =~= Seq::<T::V>::empty());
    proof {
        reveal(Seq::filter);
        assert(before.take(0) =~= Seq::<T::V>::empty());
    }
    for item in it: all
        invariant
            it.seq().len() == before.len(),
            forall|k: int| 0 <= k < before.len() ==> it.seq()[k].deep_view() == before[k],
            items.deep_view() == without_number(before.take(it.index() as int), number),
    {
        proof {
            lemma_without_number_push(before.take(it.index() as int), item.deep_view(), number);
            assert(before.take(it.index() + 1) =~= before.take(it.index() as int).push(
                item.deep_view(),
            ));
        }
        if item.number() != number {
            let ghost held = items.deep_view();
            items.push(item);
            assert(items.deep_view() =~= held.push(item.deep_view()));
        }
    }
    assert(before.take(before.len() as int) =~= before);
}

/// Whatever is left after a removal by number was among the items before,
/// and has another number.
pub proof fn lemma_without_number<V: Numbered>(items: Seq<V>, number: i32)
    ensures
        forall|k: int|
            0 <= k < without_number(items, number).len() ==> {
                &&& items.contains(#[trigger] without_number(items, number)[k])
                &&& without_number(items, number)[k].number() != number
            },
    decreases items.len(),
{
    if items.len() > 0 {
        let front = items.drop_last();
        lemma_without_number(front, number);
        lemma_without_number_push(front, items.last(), number);
        assert(front.push(items.last()) =~= items);
        let kept = without_number(items, number);
        let kept_front = without_number(front, number);
        assert forall|k: int| 0 <= k < kept.len() implies items.contains(#[trigger] kept[k])
            && kept[k].number() != number by {
            if k < kept_front.len() {
                assert(kept[k] == kept_front[k]);
                assert(front.contains(kept_front[k]));
                let j = choose|j: int| 0 <= j < front.len() && front[j] == kept_front[k];
                assert(items[j] == kept[k]);
            } else {
                assert(kept[k] == items[items.len() - 1]);
            }
        }
    } else {
        reveal(Seq::filter);
    }
}

/// Whatever is left after a removal by identifier was among the items
/// before, and has another identifier.
pub proof fn lemma_without_id<V: Identified>(items: Seq<V>, id: Seq<char>)
    ensures
        forall|k: int|
            0 <= k < without_id(items, id).len() ==> {
                &&& items.contains(#[trigger] without_id(items, id)[k])
                &&& without_id(items, id)[k].identifier() != id
            },
    decreases items.len(),
{
    if items.len() > 0 {
        let front = items.drop_last();
        lemma_without_id(front, id);
        lemma_without_id_push(front, items.last(), id);
        assert(front.push(items.last()) =~= items);
        let kept = without_id(items, id);
        let kept_front = without_id(front, id);
        assert forall|k: int| 0 <= k < kept.len() implies items.contains(#[trigger] kept[k])
            && kept[k].identifier() != id by {
            if k < kept_front.len() {
                assert(kept[k] == kept_front[k]);
                assert(front.contains(kept_front[k]));
                let j = choose|j: int| 0 <= j < front.len() && front[j] == kept_front[k];
                assert(items[j] == kept[k]);
            } else {
                assert(kept[k] == items[items.len() - 1]);
            }
        }
    } else {
        reveal(Seq::filter);
    }
}

/// After a removal by identifier nothing is found under that identifier.
pub proof fn lemma_removed_id_is_gone<V: Identified>(items: Seq<V>, id: Seq<char>)
    ensures
        index_with_id(without_id(items, id), id) is None,
{
    lemma_without_id(items, id);
    lemma_index_with_id(without_id(items, id), id);
}

/// After a removal by number nothing is found under that number.
pub proof fn lemma_removed_number_is_gone<V: Numbered>(items: Seq<V>, number: i32)
    ensures
        index_with_number(without_number(items, number), number) is None,
{
    lemma_without_number(items, number);
    lemma_index_with_number(without_number(items, number), number);
}

/// What is appended is found under its identifier: at the end where no
/// earlier item has that identifier, else where the first such item stands.
pub proof fn lemma_appended_id_is_found<V: Identified>(items: Seq<V>, item: V)
    ensures
        index_with_id(items.push(item), item.identifier()) == match index_with_id(
            items,
            item.identifier(),
        ) {
            Some(i) => Some(i),
            None => Some(items.len() as int),
        },
{
    let id = item.identifier();
    let grown = items.push(item);
    lemma_index_with_id(items, id);
    lemma_index_with_id(grown, id);
    assert(grown[items.len() as int] == item);
    match index_with_id(items, id) {
        Some(i) => {
            assert(grown[i] == items[i]);
            assert forall|k: int| 0 <= k < i implies grown[k].identifier() != id by {
                assert(grown[k] == items[k]);
            }
        },
        None => {
            assert forall|k: int| 0 <= k < items.len() implies grown[k].identifier() != id by {
                assert(grown[k] == items[k]);
            }
        },
    }
}

/// What is appended is found under its number: at the end where no earlier
/// item has that number, else where the first such item stands.
pub proof fn lemma_appended_number_is_found<V: Numbered>(items: Seq<V>, item: V)
    ensures
        index_with_number(items.push(item), item.number()) == match index_with_number(
            items,
            item.number(),
        ) {
            Some(i) => Some(i),
            None => Some(items.len() as int),
        },
{
    let number = item.number();
    let grown = items.push(item);
    lemma_index_with_number(items, number);
    lemma_index_with_number(grown, number);
    assert(grown[items.len() as int] == item);
    match index_with_number(items, number) {
        Some(i) => {
            assert(grown[i] == items[i]);
            assert forall|k: int| 0 <= k < i implies grown[k].number() != number by {
                assert(grown[k] == items[k]);
            }
        },
        None => {
            assert forall|k: int| 0 <= k < items.len() implies grown[k].number() != number by {
                assert(grown[k] == items[k]);
            }
        },
    }
}

} // verus!
