//! How a sequence of records with pairwise distinct ids stands for a map from
//! id to record, and what pushing, replacing and removing an entry does to
//! that map.

use crate::user::UserView;
use vstd::prelude::*;

verus! {

/// No two entries share an id.
pub open spec fn distinct_ids(records: Seq<UserView>) -> bool {
    forall|i: int, j: int|
        0 <= i < j < records.len() ==> (#[trigger] records[i]).id != (#[trigger] records[j]).id
}

/// Some entry carries `id`.
pub open spec fn holds_id(records: Seq<UserView>, id: Seq<char>) -> bool {
    exists|i: int| 0 <= i < records.len() && (#[trigger] records[i]).id == id
}

/// An index at which `id` is found, where there is one.
pub open spec fn position_of(records: Seq<UserView>, id: Seq<char>) -> int {
    choose|i: int| 0 <= i < records.len() && (#[trigger] records[i]).id == id
}

/// The map that sends each id in `records` to the entry that carries it.
pub open spec fn index_by_id(records: Seq<UserView>) -> Map<Seq<char>, UserView> {
    Map::new(
        |id: Seq<char>| holds_id(records, id),
        |id: Seq<char>| records[position_of(records, id)],
    )
}

/// The ids of `records`, in order.
pub open spec fn ids_of(records: Seq<UserView>) -> Seq<Seq<char>> {
    records.map_values(|u: UserView| u.id)
}

/// With distinct ids, the entry at `i` is the one the map holds under its id.
pub proof fn lemma_index_lookup(records: Seq<UserView>, i: int)
    requires
        distinct_ids(records),
        0 <= i < records.len(),
    ensures
        index_by_id(records).contains_key(records[i].id),
        index_by_id(records)[records[i].id] == records[i],
{
    let id = records[i].id;
    assert(holds_id(records, id));
    let p = position_of(records, id);
    assert(0 <= p < records.len() && records[p].id == id);
    if p < i {
        assert(records[p].id != records[i].id);
    } else if i < p {
        assert(records[i].id != records[p].id);
    }
}

/// The map has exactly as many keys as the sequence has entries.
pub proof fn lemma_index_len(records: Seq<UserView>)
    requires
        distinct_ids(records),
    ensures
        index_by_id(records).dom().finite(),
        index_by_id(records).dom().len() == records.len(),
{
    let ids = ids_of(records);
    assert(ids.no_duplicates()) by {
        assert forall|i: int, j: int|
            0 <= i < ids.len() && 0 <= j < ids.len() && i != j implies ids[i] != ids[j] by {
            if i < j {
                assert(records[i].id != records[j].id);
            } else {
                assert(records[j].id != records[i].id);
            }
        }
    }
    assert(index_by_id(records).dom() =~= ids.to_set()) by {
        assert forall|id: Seq<char>| holds_id(records, id) implies ids.contains(id) by {
            let p = position_of(records, id);
            assert(ids[p] == id);
        }
        assert forall|id: Seq<char>| ids.contains(id) implies holds_id(records, id) by {
            let p = choose|p: int| 0 <= p < ids.len() && ids[p] == id;
            assert(records[p].id == id);
        }
    }
    vstd::seq_lib::seq_to_set_is_finite(ids);
    ids.unique_seq_to_set();
}

/// Appending an entry under an id that is not yet there inserts it into the map.
pub proof fn lemma_index_push(records: Seq<UserView>, user: UserView)
    requires
        distinct_ids(records),
        !holds_id(records, user.id),
    ensures
        distinct_ids(records.push(user)),
        index_by_id(records.push(user)) == index_by_id(records).insert(user.id, user),
{
    let after = records.push(user);
    assert(distinct_ids(after)) by {
        assert forall|i: int, j: int| 0 <= i < j < after.len() implies after[i].id
            != after[j].id by {
            if j < records.len() {
                assert(records[i].id != records[j].id);
            } else {
                assert(after[i] == records[i]);
                if records[i].id == user.id {
                    assert(holds_id(records, user.id));
                }
            }
        }
    }
    let want = index_by_id(records).insert(user.id, user);
    assert forall|id: Seq<char>| index_by_id(after).contains_key(id) <==> want.contains_key(
        id,
    ) by {
        if holds_id(after, id) {
            let p = position_of(after, id);
            if p < records.len() {
                assert(records[p].id == id);
            }
        }
        if holds_id(records, id) {
            let p = position_of(records, id);
            assert(after[p].id == id);
        }
        if id == user.id {
            assert(after[records.len() as int].id == id);
        }
    }
    assert forall|id: Seq<char>| index_by_id(after).contains_key(id) implies index_by_id(after)[id]
        == want[id] by {
        let p = position_of(after, id);
        lemma_index_lookup(after, p);
        if p < records.len() {
            assert(after[p] == records[p]);
            lemma_index_lookup(records, p);
        }
    }
    assert(index_by_id(after) =~= want);
}

/// Replacing the entry at `i` by one with the same id overwrites it in the map.
pub proof fn lemma_index_update(records: Seq<UserView>, i: int, user: UserView)
    requires
        distinct_ids(records),
        0 <= i < records.len(),
        records[i].id == user.id,
    ensures
        distinct_ids(records.update(i, user)),
        index_by_id(records.update(i, user)) == index_by_id(records).insert(user.id, user),
{
    let after = records.update(i, user);
    assert(distinct_ids(after)) by {
        assert forall|a: int, b: int| 0 <= a < b < after.len() implies after[a].id
            != after[b].id by {
            assert(records[a].id != records[b].id);
        }
    }
    let want = index_by_id(records).insert(user.id, user);
    assert forall|id: Seq<char>| index_by_id(after).contains_key(id) <==> want.contains_key(
        id,
    ) by {
        if holds_id(after, id) {
            let p = position_of(after, id);
            assert(records[p].id == id);
        }
        if holds_id(records, id) {
            let p = position_of(records, id);
            assert(after[p].id == id);
        }
        if id == user.id {
            assert(after[i].id == id);
        }
    }
    assert forall|id: Seq<char>| index_by_id(after).contains_key(id) implies index_by_id(after)[id]
        == want[id] by {
        let p = position_of(after, id);
        lemma_index_lookup(after, p);
        if p != i {
            assert(after[p] == records[p]);
            lemma_index_lookup(records, p);
            if p < i {
                assert(records[p].id != records[i].id);
            } else {
                assert(records[i].id != records[p].id);
            }
        }
    }
    assert(index_by_id(after) =~= want);
}

/// Taking out the entry at `i` removes its id from the map.
pub proof fn lemma_index_remove(records: Seq<UserView>, i: int)
    requires
        distinct_ids(records),
        0 <= i < records.len(),
    ensures
        distinct_ids(records.remove(i)),
        index_by_id(records.remove(i)) == index_by_id(records).remove(records[i].id),
{
    let after = records.remove(i);
    let gone = records[i].id;
    records.remove_ensures(i);
    assert forall|a: int| 0 <= a < after.len() implies #[trigger] after[a] == records[if a < i {
        a
    } else {
        a + 1
    }] by {}
    assert(distinct_ids(after)) by {
        assert forall|a: int, b: int| 0 <= a < b < after.len() implies after[a].id
            != after[b].id by {
            let ra = if a < i { a } else { a + 1 };
            let rb = if b < i { b } else { b + 1 };
            assert(after[a] == records[ra] && after[b] == records[rb]);
            assert(records[ra].id != records[rb].id);
        }
    }
    let want = index_by_id(records).remove(gone);
    assert forall|id: Seq<char>| index_by_id(after).contains_key(id) <==> want.contains_key(
        id,
    ) by {
        if holds_id(after, id) {
            let p = position_of(after, id);
            let rp = if p < i { p } else { p + 1 };
            assert(after[p] == records[rp]);
            assert(records[rp].id == id);
            if rp < i {
                assert(records[rp].id != records[i].id);
            } else {
                assert(records[i].id != records[rp].id);
            }
        }
        if holds_id(records, id) && id != gone {
            let p = position_of(records, id);
            let ap = if p < i { p } else { p - 1 };
            assert(after[ap] == records[p]);
            assert(after[ap].id == id);
        }
    }
    assert forall|id: Seq<char>| index_by_id(after).contains_key(id) implies index_by_id(after)[id]
        == want[id] by {
        let p = position_of(after, id);
        let rp = if p < i { p } else { p + 1 };
        lemma_index_lookup(after, p);
        assert(after[p] == records[rp]);
        lemma_index_lookup(records, rp);
    }
    assert(index_by_id(after) =~= want);
}

} // verus!
