//! The id index kept beside an ordered list of items (tables of a schema,
//! columns of a table): a map from an item's id to its position.
use vstd::prelude::*;

verus! {

/// Items that carry a textual id.
pub trait Identified {
    spec fn id_view(&self) -> Seq<char>;
}

/// The ids of a list of items, in order.
pub open spec fn ids_of<T: Identified>(items: Seq<T>) -> Seq<Seq<char>> {
    items.map_values(|x: T| x.id_view())
}

/// The index that rebuilding from `ids` produces: each id maps to the
/// position of its last occurrence (a later item with the same id wins).
pub open spec fn positions_of(ids: Seq<Seq<char>>) -> Map<Seq<char>, usize>
    decreases ids.len(),
{
    if ids.len() == 0 {
        Map::empty()
    } else {
        positions_of(ids.drop_last()).insert(ids.last(), (ids.len() - 1) as usize)
    }
}

/// `j` is the last position of `k` in `ids`.
pub open spec fn is_last_position(ids: Seq<Seq<char>>, k: Seq<char>, j: int) -> bool {
    &&& 0 <= j < ids.len()
    &&& ids[j] == k
    &&& forall|l: int| j < l < ids.len() ==> ids[l] != k
}

/// Every position an index holds lies inside the list.
pub open spec fn index_in_bounds(index: Map<Seq<char>, usize>, len: nat) -> bool {
    forall|k: Seq<char>| #[trigger] index.contains_key(k) ==> index[k] < len
}

/// The position the index holds for `id`, if any, lies inside the list.
pub open spec fn entry_in_bounds(index: Map<Seq<char>, usize>, len: nat, id: Seq<char>) -> bool {
    index.contains_key(id) ==> index[id] < len
}

/// What a lookup by `id` yields: the item at the indexed position, if the
/// index holds `id` and the position lies inside the list.
pub open spec fn lookup<T>(items: Seq<T>, index: Map<Seq<char>, usize>, id: Seq<char>) -> Option<T> {
    if index.contains_key(id) && index[id] < items.len() {
        Some(items[index[id] as int])
    } else {
        None
    }
}

/// Items and index after appending `item`: the index maps its id to the new
/// last position.
pub open spec fn after_add<T: Identified>(
    items: Seq<T>,
    index: Map<Seq<char>, usize>,
    item: T,
) -> (Seq<T>, Map<Seq<char>, usize>) {
    (items.push(item), index.insert(item.id_view(), items.len() as usize))
}

/// What removing by `id` yields: when the index holds `id`, the item at the
/// indexed position, the list without it, and the index rebuilt from that
/// list; otherwise nothing, and list and index unchanged.
pub open spec fn after_remove<T: Identified>(
    items: Seq<T>,
    index: Map<Seq<char>, usize>,
    id: Seq<char>,
) -> (Option<T>, Seq<T>, Map<Seq<char>, usize>) {
    if index.contains_key(id) {
        let rest = items.remove(index[id] as int);
        (Some(items[index[id] as int]), rest, positions_of(ids_of(rest)))
    } else {
        (None, items, index)
    }
}

/// A rebuilt index holds exactly the ids of the list, each at its last
/// position.
pub proof fn lemma_positions_of(ids: Seq<Seq<char>>)
    requires
        ids.len() <= usize::MAX,
    ensures
        forall|k: Seq<char>| #[trigger] positions_of(ids).contains_key(k) <==> ids.contains(k),
        forall|k: Seq<char>| #[trigger]
            positions_of(ids).contains_key(k) ==> is_last_position(
                ids,
                k,
                positions_of(ids)[k] as int,
            ),
        index_in_bounds(positions_of(ids), ids.len()),
    decreases ids.len(),
{
    if ids.len() > 0 {
        let front = ids.drop_last();
        lemma_positions_of(front);
        assert forall|k: Seq<char>| #[trigger]
            positions_of(ids).contains_key(k) <==> ids.contains(k) by {
            if ids.contains(k) && k != ids.last() {
                let j: int = choose|j: int| 0 <= j < ids.len() && ids[j] == k;
                assert(front[j] == k);
                assert(front.contains(k));
            }
            if front.contains(k) {
                let j: int = choose|j: int| 0 <= j < front.len() && front[j] == k;
                assert(ids[j] == k);
            }
            if k == ids.last() {
                assert(ids[ids.len() - 1] == k);
            }
        }
        assert forall|k: Seq<char>| #[trigger] positions_of(ids).contains_key(k) implies
            is_last_position(ids, k, positions_of(ids)[k] as int) by {
            if k != ids.last() {
                let j: int = positions_of(front)[k] as int;
                assert(is_last_position(front, k, j));
                assert forall|l: int| j < l < ids.len() implies ids[l] != k by {
                    if l < front.len() {
                        assert(front[l] == ids[l]);
                    }
                }
            }
        }
    }
}

/// The index rebuilt from one more id is the previous one with that id
/// mapped to the new last position.
pub proof fn lemma_positions_of_push(ids: Seq<Seq<char>>, k: Seq<char>)
    ensures
        positions_of(ids.push(k)) == positions_of(ids).insert(k, ids.len() as usize),
{
    assert(ids.push(k).drop_last() =~= ids);
}

/// The ids of a list with one more item are the previous ids and its id.
pub proof fn lemma_ids_of_push<T: Identified>(items: Seq<T>, item: T)
    ensures
        ids_of(items.push(item)) == ids_of(items).push(item.id_view()),
{
    assert(ids_of(items.push(item)) =~= ids_of(items).push(item.id_view()));
}

/// A lookup by the id of an item just added finds that item.
pub proof fn law_lookup_after_add<T: Identified>(
    items: Seq<T>,
    index: Map<Seq<char>, usize>,
    item: T,
)
    requires
        items.len() < usize::MAX,
    ensures
        lookup(after_add(items, index, item).0, after_add(items, index, item).1, item.id_view())
            == Some(item),
{
}

/// Removing by the id of an item just added gives back that item and the
/// list as it was; the index is then the one rebuilt from that list.
pub proof fn law_remove_after_add<T: Identified>(
    items: Seq<T>,
    index: Map<Seq<char>, usize>,
    item: T,
)
    requires
        items.len() < usize::MAX,
    ensures
        after_remove(after_add(items, index, item).0, after_add(items, index, item).1, item.id_view())
            == (Some(item), items, positions_of(ids_of(items))),
{
    assert(items.push(item).remove(items.len() as int) =~= items);
}

/// Adding to a list whose index is the rebuilt one keeps it so.
pub proof fn law_add_keeps_consistency<T: Identified>(items: Seq<T>, item: T)
    requires
        items.len() < usize::MAX,
    ensures
        after_add(items, positions_of(ids_of(items)), item).1 == positions_of(
            ids_of(after_add(items, positions_of(ids_of(items)), item).0),
        ),
{
    lemma_ids_of_push(items, item);
    lemma_positions_of_push(ids_of(items), item.id_view());
}

/// With the rebuilt index, a lookup by id finds something exactly when some
/// item has that id, and then it finds the last item with it.
pub proof fn law_lookup_consistent<T: Identified>(items: Seq<T>, id: Seq<char>)
    requires
        items.len() <= usize::MAX,
    ensures
        lookup(items, positions_of(ids_of(items)), id) is Some <==> exists|j: int|
            0 <= j < items.len() && #[trigger] items[j].id_view() == id,
        forall|j: int|
            #[trigger] is_last_position(ids_of(items), id, j) ==> lookup(
                items,
                positions_of(ids_of(items)),
                id,
            ) == Some(items[j]),
{
    let ids = ids_of(items);
    lemma_positions_of(ids);
    if exists|j: int| 0 <= j < items.len() && #[trigger] items[j].id_view() == id {
        let j: int = choose|j: int| 0 <= j < items.len() && #[trigger] items[j].id_view() == id;
        assert(ids[j] == id);
        assert(ids.contains(id));
    }
    if positions_of(ids).contains_key(id) {
        let j: int = positions_of(ids)[id] as int;
        assert(is_last_position(ids, id, j));
        assert(items[j].id_view() == ids[j]);
    }
    assert forall|j: int| #[trigger] is_last_position(ids, id, j) implies lookup(
        items,
        positions_of(ids),
        id,
    ) == Some(items[j]) by {
        assert(ids.contains(id));
        let p: int = positions_of(ids)[id] as int;
        assert(is_last_position(ids, id, p));
        if p < j {
            assert(ids[j] != id);
        }
        if j < p {
            assert(ids[p] != id);
        }
    }
}

/// With the rebuilt index, removing by id takes out the last item with
/// that id and leaves the rebuilt index of the rest; when no item has the
/// id, nothing changes.
pub proof fn law_remove_consistent<T: Identified>(items: Seq<T>, id: Seq<char>)
    requires
        items.len() <= usize::MAX,
    ensures
        forall|j: int|
            #[trigger] is_last_position(ids_of(items), id, j) ==> after_remove(
                items,
                positions_of(ids_of(items)),
                id,
            ) == (Some(items[j]), items.remove(j), positions_of(ids_of(items.remove(j)))),
        (forall|j: int| 0 <= j < items.len() ==> #[trigger] items[j].id_view() != id) ==> after_remove(
            items,
            positions_of(ids_of(items)),
            id,
        ) == (None::<T>, items, positions_of(ids_of(items))),
{
    law_lookup_consistent(items, id);
    let ids = ids_of(items);
    lemma_positions_of(ids);
    assert forall|j: int| #[trigger] is_last_position(ids, id, j) implies positions_of(ids).contains_key(id)
        && positions_of(ids)[id] as int == j by {
        assert(ids.contains(id));
        let p: int = positions_of(ids)[id] as int;
        assert(is_last_position(ids, id, p));
        if p < j {
            assert(ids[j] != id);
        }
        if j < p {
            assert(ids[p] != id);
        }
    }
    if forall|j: int| 0 <= j < items.len() ==> #[trigger] items[j].id_view() != id {
        if positions_of(ids).contains_key(id) {
            let j: int = choose|j: int| 0 <= j < ids.len() && ids[j] == id;
            assert(items[j].id_view() == id);
        }
    }
}

/// With the rebuilt index and no id used twice, a lookup by the id of any
/// item finds that very item.
pub proof fn law_distinct_ids_all_found<T: Identified>(items: Seq<T>)
    requires
        items.len() <= usize::MAX,
        ids_of(items).no_duplicates(),
    ensures
        forall|j: int|
            0 <= j < items.len() ==> lookup(items, positions_of(ids_of(items)), #[trigger] items[j].id_view())
                == Some(items[j]),
{
    let ids = ids_of(items);
    assert forall|j: int| 0 <= j < items.len() implies lookup(
        items,
        positions_of(ids),
        #[trigger] items[j].id_view(),
    ) == Some(items[j]) by {
        let id = items[j].id_view();
        law_lookup_consistent(items, id);
        assert(ids[j] == id);
        assert forall|l: int| j < l < ids.len() implies ids[l] != id by {
            assert(ids[l] != ids[j]);
        }
        assert(is_last_position(ids, id, j));
    }
}

} // verus!
