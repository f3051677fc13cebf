//! What holds of the store and the handlers across several calls, stated over
//! the same maps and outcomes that the functions' own contracts speak of.

use crate::handlers::{
    created_user, delete_outcome, lookup_outcome, ApiError, ReplyBodyView, ReplyView, STATUS_OK,
};
use crate::records::{distinct_ids, holds_id};
use crate::store::is_listing_of;
use crate::user::UserView;
use vstd::prelude::*;

verus! {

/// One call on the store, with its arguments as plain values.
pub enum StoreOp {
    /// `insert` of a record.
    Insert(UserView),
    /// `remove` of an id.
    Remove(Seq<char>),
    /// `get` of an id.
    Get(Seq<char>),
    /// `list`.
    List,
}

/// `op` inserts a record under `id`.
pub open spec fn inserts(op: StoreOp, id: Seq<char>) -> bool {
    op matches StoreOp::Insert(user) && user.id == id
}

/// `op` removes `id`.
pub open spec fn removes(op: StoreOp, id: Seq<char>) -> bool {
    op matches StoreOp::Remove(gone) && gone == id
}

/// The store after `op`, as the contracts of `insert` and `remove` give it;
/// reads leave it as it was.
pub open spec fn apply(records: Map<Seq<char>, UserView>, op: StoreOp) -> Map<
    Seq<char>,
    UserView,
> {
    match op {
        StoreOp::Insert(user) => records.insert(user.id, user),
        StoreOp::Remove(id) => records.remove(id),
        StoreOp::Get(_) => records,
        StoreOp::List => records,
    }
}

/// The store after the calls `ops`, in order, on a store that held `records`.
pub open spec fn run(records: Map<Seq<char>, UserView>, ops: Seq<StoreOp>) -> Map<
    Seq<char>,
    UserView,
>
    decreases ops.len(),
{
    if ops.len() == 0 {
        records
    } else {
        apply(run(records, ops.drop_last()), ops.last())
    }
}

/// The store after the calls `ops` on a new, empty store.
pub open spec fn replay(ops: Seq<StoreOp>) -> Map<Seq<char>, UserView> {
    run(Map::empty(), ops)
}

/// Some call in `ops` inserted `id`, and no later call removed it.
pub open spec fn is_live(ops: Seq<StoreOp>, id: Seq<char>) -> bool {
    exists|i: int|
        0 <= i < ops.len() && inserts(#[trigger] ops[i], id) && forall|j: int|
            i < j < ops.len() ==> !removes(#[trigger] ops[j], id)
}

/// The store after inserting `users` one after the other, in order.
pub open spec fn insert_all(records: Map<Seq<char>, UserView>, users: Seq<UserView>) -> Map<
    Seq<char>,
    UserView,
>
    decreases users.len(),
{
    if users.len() == 0 {
        records
    } else {
        insert_all(records, users.drop_last()).insert(users.last().id, users.last())
    }
}

/// After any sequence of calls on a new store, the stored ids are exactly those
/// that were inserted and not removed afterwards, and there are finitely many.
pub proof fn law_stored_ids_follow_history(ops: Seq<StoreOp>)
    ensures
        replay(ops).dom().finite(),
        forall|id: Seq<char>| #[trigger] replay(ops).contains_key(id) <==> is_live(ops, id),
    decreases ops.len(),
{
    if ops.len() == 0 {
    } else {
        let earlier = ops.drop_last();
        let op = ops.last();
        let last = ops.len() - 1;
        law_stored_ids_follow_history(earlier);
        assert forall|id: Seq<char>| #[trigger]
            replay(ops).contains_key(id) <==> is_live(ops, id) by {
            assert(replay(earlier).contains_key(id) <==> is_live(earlier, id));
            if is_live(earlier, id) {
                let i = choose|i: int|
                    0 <= i < earlier.len() && inserts(#[trigger] earlier[i], id) && forall|j: int|
                        i < j < earlier.len() ==> !removes(#[trigger] earlier[j], id);
                assert(ops[i] == earlier[i]);
                if !removes(op, id) {
                    assert forall|j: int| i < j < ops.len() implies !removes(
                        #[trigger] ops[j],
                        id,
                    ) by {
                        if j < last {
                            assert(ops[j] == earlier[j]);
                        }
                    }
                    assert(is_live(ops, id));
                }
            }
            if inserts(op, id) {
                assert(inserts(ops[last], id));
                assert(is_live(ops, id));
            }
            if is_live(ops, id) {
                let i = choose|i: int|
                    0 <= i < ops.len() && inserts(#[trigger] ops[i], id) && forall|j: int|
                        i < j < ops.len() ==> !removes(#[trigger] ops[j], id);
                if i < last {
                    assert(!removes(ops[last], id));
                    assert(earlier[i] == ops[i]);
                    assert forall|j: int| i < j < earlier.len() implies !removes(
                        #[trigger] earlier[j],
                        id,
                    ) by {
                        assert(earlier[j] == ops[j]);
                    }
                    assert(is_live(earlier, id));
                }
            }
        }
    }
}

/// Listing a store after any sequence of calls on a new store shows exactly the
/// ids inserted and not removed afterwards: none is missing, none is spurious,
/// none occurs twice, and each entry is the record last inserted under its id.
pub proof fn law_listing_follows_history(ops: Seq<StoreOp>, listing: Seq<UserView>)
    requires
        is_listing_of(listing, replay(ops)),
    ensures
        forall|id: Seq<char>| holds_id(listing, id) <==> is_live(ops, id),
        distinct_ids(listing),
        forall|i: int|
            0 <= i < listing.len() ==> replay(ops)[(#[trigger] listing[i]).id] == listing[i],
{
    law_stored_ids_follow_history(ops);
    assert forall|id: Seq<char>| holds_id(listing, id) <==> is_live(ops, id) by {
        if holds_id(listing, id) {
            let i = choose|i: int| 0 <= i < listing.len() && (#[trigger] listing[i]).id == id;
            assert(replay(ops).contains_key(listing[i].id));
        }
        if is_live(ops, id) {
            assert(replay(ops).contains_key(id));
        }
    }
}

/// Creating a record under an id that is not stored yet adds one record and
/// changes no other: the new id differs from every id stored before.
pub proof fn law_create_under_unused_id(
    records: Map<Seq<char>, UserView>,
    name: Seq<char>,
    email: Seq<char>,
    id: Seq<char>,
    created_at: Seq<char>,
)
    requires
        records.dom().finite(),
        !records.contains_key(id),
    ensures
        forall|other: Seq<char>| #[trigger] records.contains_key(other) ==> other != id,
        records.insert(id, created_user(name, email, id, created_at)).len() == records.len() + 1,
        forall|other: Seq<char>| #[trigger]
            records.contains_key(other) ==> records.insert(
                id,
                created_user(name, email, id, created_at),
            )[other] == records[other],
{
}

/// Looking up an id right after inserting a record under it finds that record,
/// equal in every field.
pub proof fn law_get_after_insert(records: Map<Seq<char>, UserView>, user: UserView)
    ensures
        records.insert(user.id, user).contains_key(user.id),
        records.insert(user.id, user)[user.id] == user,
        lookup_outcome(records.insert(user.id, user), user.id) == Ok::<ReplyView, ApiError>(
            ReplyView { status: STATUS_OK, body: ReplyBodyView::User(user) },
        ),
{
}

/// Removing an id leaves no record under it, so a second removal of the same id
/// finds nothing and changes nothing.
pub proof fn law_remove_only_once(records: Map<Seq<char>, UserView>, id: Seq<char>)
    ensures
        !records.remove(id).contains_key(id),
        records.remove(id).remove(id) == records.remove(id),
        delete_outcome(records.remove(id), id) == Err::<ReplyView, ApiError>(ApiError::NotFound),
        lookup_outcome(records.remove(id), id) == Err::<ReplyView, ApiError>(ApiError::NotFound),
{
    assert(records.remove(id).remove(id) =~= records.remove(id));
}

/// An id that no call ever inserted is not stored: a lookup and a delete both
/// report `NotFound`, and the delete leaves the store as it was.
pub proof fn law_never_inserted_is_absent(ops: Seq<StoreOp>, id: Seq<char>)
    requires
        forall|i: int| 0 <= i < ops.len() ==> !inserts(#[trigger] ops[i], id),
    ensures
        !replay(ops).contains_key(id),
        lookup_outcome(replay(ops), id) == Err::<ReplyView, ApiError>(ApiError::NotFound),
        delete_outcome(replay(ops), id) == Err::<ReplyView, ApiError>(ApiError::NotFound),
        replay(ops).remove(id) == replay(ops),
{
    law_stored_ids_follow_history(ops);
    assert(!is_live(ops, id));
    assert(replay(ops).remove(id) =~= replay(ops));
}

/// Inserts under pairwise distinct ids do not disturb one another: afterwards
/// every inserted record is stored as it was given, every other record is
/// untouched, and nothing else is stored. The result does not depend on the
/// order in which the inserts took effect.
pub proof fn law_distinct_inserts_all_visible(
    records: Map<Seq<char>, UserView>,
    users: Seq<UserView>,
)
    requires
        distinct_ids(users),
    ensures
        forall|i: int|
            0 <= i < users.len() ==> insert_all(records, users).contains_key(
                (#[trigger] users[i]).id,
            ) && insert_all(records, users)[users[i].id] == users[i],
        forall|id: Seq<char>|
            !holds_id(users, id) ==> (#[trigger] insert_all(records, users).contains_key(id)
                <==> records.contains_key(id)),
        forall|id: Seq<char>|
            !holds_id(users, id) && records.contains_key(id) ==> #[trigger] insert_all(
                records,
                users,
            )[id] == records[id],
    decreases users.len(),
{
    if users.len() == 0 {
    } else {
        let earlier = users.drop_last();
        let newest = users.last();
        let last = users.len() - 1;
        assert(distinct_ids(earlier)) by {
            assert forall|i: int, j: int| 0 <= i < j < earlier.len() implies (
            #[trigger] earlier[i]).id != (#[trigger] earlier[j]).id by {
                assert(users[i].id != users[j].id);
            }
        }
        law_distinct_inserts_all_visible(records, earlier);
        assert forall|i: int| 0 <= i < users.len() implies insert_all(records, users).contains_key(
            (#[trigger] users[i]).id,
        ) && insert_all(records, users)[users[i].id] == users[i] by {
            if i < last {
                assert(earlier[i] == users[i]);
                assert(users[i].id != users[last].id);
            }
        }
        assert forall|id: Seq<char>| !holds_id(users, id) implies !holds_id(earlier, id)
            && newest.id != id by {
            assert(users[last].id != id);
            if holds_id(earlier, id) {
                let k = choose|k: int| 0 <= k < earlier.len() && (#[trigger] earlier[k]).id == id;
                assert(users[k].id == id);
            }
        }
        let before = insert_all(records, earlier);
        assert forall|id: Seq<char>| !holds_id(users, id) implies (#[trigger] insert_all(
            records,
            users,
        ).contains_key(id) <==> records.contains_key(id)) by {
            assert(before.contains_key(id) <==> records.contains_key(id));
        }
        assert forall|id: Seq<char>|
            !holds_id(users, id) && records.contains_key(id) implies #[trigger] insert_all(
            records,
            users,
        )[id] == records[id] by {
            assert(before[id] == records[id]);
        }
    }
}

/// Two inserts under different ids give the same store in either order.
pub proof fn law_distinct_inserts_commute(
    records: Map<Seq<char>, UserView>,
    first: UserView,
    second: UserView,
)
    requires
        first.id != second.id,
    ensures
        records.insert(first.id, first).insert(second.id, second) == records.insert(
            second.id,
            second,
        ).insert(first.id, first),
{
    assert(records.insert(first.id, first).insert(second.id, second) =~= records.insert(
        second.id,
        second,
    ).insert(first.id, first));
}

} // verus!
