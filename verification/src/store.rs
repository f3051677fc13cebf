//! The record store: every user the service knows, at most one per id.

use crate::records::{
    distinct_ids, holds_id, index_by_id, lemma_index_len, lemma_index_lookup, lemma_index_push,
    lemma_index_remove, lemma_index_update,
};
use crate::user::{views_of, User, UserView};
use vstd::prelude::*;

verus! {

/// `listing` shows `records` exactly: every entry is a stored record, every
/// stored id has an entry, and no id is listed twice. The order is left open.
pub open spec fn is_listing_of(listing: Seq<UserView>, records: Map<Seq<char>, UserView>) -> bool {
    &&& forall|i: int|
        0 <= i < listing.len() ==> records.contains_key((#[trigger] listing[i]).id)
            && records[listing[i].id] == listing[i]
    &&& forall|id: Seq<char>| #[trigger] records.contains_key(id) ==> holds_id(listing, id)
    &&& distinct_ids(listing)
}

/// The authoritative set of users, viewed as a map from id to record.
///
/// The store owns its records; callers get copies or shared references.
pub struct UserStore {
    users: Vec<User>,
}

impl View for UserStore {
    type V = Map<Seq<char>, UserView>;

    closed spec fn view(&self) -> Map<Seq<char>, UserView> {
        index_by_id(views_of(self.users@))
    }
}

impl UserStore {
    #[verifier::type_invariant]
    spec fn one_record_per_id(&self) -> bool {
        distinct_ids(views_of(self.users@))
    }

    /// An empty store.
    pub fn new() -> (store: Self)
        ensures
            store@ == Map::<Seq<char>, UserView>::empty(),
    {
        let store = UserStore { users: Vec::new() };
        assert(store@ =~= Map::<Seq<char>, UserView>::empty());
        store
    }

    /// Where the record with `id` sits, if there is one.
    fn position(&self, id: &String) -> (found: Option<usize>)
        ensures
            match found {
                Some(i) => i < self.users.len() && self.users[i as int].id@ == id@,
                None => !holds_id(views_of(self.users@), id@),
            },
    {
        let mut i: usize = 0;
        while i < self.users.len()
            invariant
                i <= self.users.len(),
                forall|k: int| 0 <= k < i ==> self.users[k].id@ != id@,
            decreases self.users.len() - i,
        {
            if self.users[i].id == *id {
                return Some(i);
            }
            i += 1;
        }
        proof {
            let stored = views_of(self.users@);
            assert forall|k: int| 0 <= k < stored.len() implies (#[trigger] stored[k]).id
                != id@ by {
                assert(self.users[k].id@ != id@);
            }
        }
        None
    }

    /// The number of records.
    pub fn len(&self) -> (n: usize)
        ensures
            self@.dom().finite(),
            n == self@.len(),
    {
        proof {
            use_type_invariant(self);
            lemma_index_len(views_of(self.users@));
        }
        self.users.len()
    }

    /// Whether a record is stored under `id`.
    pub fn contains(&self, id: &String) -> (present: bool)
        ensures
            present == self@.contains_key(id@),
    {
        match self.position(id) {
            Some(i) => {
                proof {
                    use_type_invariant(self);
                    lemma_index_lookup(views_of(self.users@), i as int);
                }
                true
            },
            None => false,
        }
    }

    /// A snapshot copy of all current records, each exactly once.
    pub fn list(&self) -> (listing: Vec<User>)
        ensures
            is_listing_of(views_of(listing@), self@),
            self@.dom().finite(),
            listing.len() == self@.len(),
    {
        let mut listing: Vec<User> = Vec::new();
        let mut i: usize = 0;
        while i < self.users.len()
            invariant
                i <= self.users.len(),
                listing.len() == i,
                forall|k: int| 0 <= k < i ==> listing[k]@ == self.users[k]@,
            decreases self.users.len() - i,
        {
            listing.push(self.users[i].clone());
            i += 1;
        }
        proof {
            use_type_invariant(self);
            let stored = views_of(self.users@);
            assert(views_of(listing@) =~= stored);
            lemma_index_len(stored);
            assert forall|k: int| 0 <= k < stored.len() implies self@.contains_key(
                (#[trigger] stored[k]).id,
            ) && self@[stored[k].id] == stored[k] by {
                lemma_index_lookup(stored, k);
            }
        }
        listing
    }

    /// Adds `user`, or overwrites the record already stored under `user.id`.
    pub fn insert(&mut self, user: User)
        ensures
            final(self)@ == old(self)@.insert(user.id@, user@),
    {
        proof {
            use_type_invariant(&*self);
        }
        let found = self.position(&user.id);
        let ghost before = views_of(self.users@);
        let mut users: Vec<User> = Vec::new();
        std::mem::swap(&mut users, &mut self.users);
        match found {
            Some(i) => {
                proof {
                    lemma_index_update(before, i as int, user@);
                    assert(views_of(users@.update(i as int, user)) =~= before.update(
                        i as int,
                        user@,
                    ));
                }
                users[i] = user;
            },
            None => {
                proof {
                    lemma_index_push(before, user@);
                    assert(views_of(users@.push(user)) =~= before.push(user@));
                }
                users.push(user);
            },
        }
        self.users = users;
    }

    /// The record stored under `id`, if there is one.
    pub fn get(&self, id: &String) -> (found: Option<&User>)
        ensures
            match found {
                Some(user) => self@.contains_key(id@) && user@ == self@[id@],
                None => !self@.contains_key(id@),
            },
    {
        match self.position(id) {
            Some(i) => {
                proof {
                    use_type_invariant(self);
                    lemma_index_lookup(views_of(self.users@), i as int);
                }
                Some(&self.users[i])
            },
            None => None,
        }
    }

    /// Deletes the record stored under `id` and says whether there was one.
    pub fn remove(&mut self, id: &String) -> (existed: bool)
        ensures
            existed == old(self)@.contains_key(id@),
            final(self)@ == old(self)@.remove(id@),
    {
        proof {
            use_type_invariant(&*self);
        }
        let ghost before = views_of(self.users@);
        match self.position(id) {
            Some(i) => {
                proof {
                    lemma_index_lookup(before, i as int);
                    lemma_index_remove(before, i as int);
                    assert(views_of(self.users@.remove(i as int)) =~= before.remove(i as int));
                }
                let mut users: Vec<User> = Vec::new();
                std::mem::swap(&mut users, &mut self.users);
                users.remove(i);
                self.users = users;
                true
            },
            None => {
                assert(old(self)@.remove(id@) =~= old(self)@);
                false
            },
        }
    }
}

} // verus!
