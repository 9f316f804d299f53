//! The batch loader of users: fetched users are indexed by identifier.

use std::collections::HashMap;

use vstd::prelude::*;

use crate::domain::user::{User, UserId};

verus! {

broadcast use vstd::std_specs::hash::group_hash_axioms;

/// Loads users in batches from a repository provider.
pub struct UserLoader<R> {
    repos: R,
}

impl<R> UserLoader<R> {
    /// The provider the loader fetches from.
    pub closed spec fn source(&self) -> R {
        self.repos
    }

    /// A loader over a repository provider.
    pub fn new(repos: R) -> (loader: Self)
        ensures
            loader.source() == repos,
    {
        UserLoader { repos }
    }

    /// The provider the loader fetches from.
    pub fn repos(&self) -> (repos: &R)
        ensures
            *repos == self.source(),
    {
        &self.repos
    }
}

/// The users of a list indexed by identifier; where several share an
/// identifier, the last of them is kept.
pub open spec fn index_by_id(users: Seq<User>) -> Map<UserId, User>
    decreases users.len(),
{
    if users.len() == 0 {
        Map::empty()
    } else {
        let rest = index_by_id(users.drop_first());
        if rest.contains_key(users[0].id) {
            rest
        } else {
            rest.insert(users[0].id, users[0])
        }
    }
}

/// Indexes fetched users by identifier, as the loader answers a batch.
pub fn index_users(users: Vec<User>) -> (index: HashMap<UserId, User>)
    ensures
        index@ == index_by_id(users@),
        forall|id: UserId|
            #[trigger] index@.contains_key(id) <==> exists|i: int| 0 <= i < users@.len() && users@[i].id == id,
        forall|id: UserId|
            #[trigger] index@.contains_key(id) ==> exists|i: int|
                0 <= i < users@.len() && users@[i] == index@[id] && users@[i].id == id && forall|j: int|
                    i < j < users@.len() ==> #[trigger] users@[j].id != id,
{
    let ghost all = users@;
    let mut rest = users;
    let mut index: HashMap<UserId, User> = HashMap::new();
    while rest.len() > 0
        invariant
            rest@.len() <= all.len(),
            rest@ == all.take(rest@.len() as int),
            index@ == index_by_id(all.skip(rest@.len() as int)),
        decreases rest@.len(),
    {
        let ghost n = rest@.len();
        let user = rest.pop().unwrap();
        proof {
            assert(all.skip(n - 1).drop_first() =~= all.skip(n as int));
            assert(all.skip(n - 1)[0] == user);
            assert(rest@ =~= all.take(n - 1));
        }
        if !index.contains_key(&user.id) {
            index.insert(user.id, user);
        }
    }
    assert(all.skip(0) =~= all);
    assert forall|id: UserId| #[trigger] index@.contains_key(id) <==> exists|i: int|
        0 <= i < all.len() && all[i].id == id by {
        lemma_index_by_id(all, id);
    }
    assert forall|id: UserId| #[trigger] index@.contains_key(id) implies exists|i: int|
        0 <= i < all.len() && all[i] == index@[id] && all[i].id == id && forall|j: int|
            i < j < all.len() ==> #[trigger] all[j].id != id by {
        lemma_index_by_id(all, id);
    }
    index
}

/// An identifier is indexed exactly when some user of the list has it, and it
/// is indexed to a user of the list with that identifier, after which no other
/// user of the list has it.
pub proof fn lemma_index_by_id(users: Seq<User>, id: UserId)
    ensures
        index_by_id(users).contains_key(id) <==> exists|i: int| 0 <= i < users.len() && #[trigger] users[i].id == id,
        index_by_id(users).contains_key(id) ==> exists|i: int|
            0 <= i < users.len() && #[trigger] users[i] == index_by_id(users)[id] && users[i].id == id
                && forall|j: int| i < j < users.len() ==> #[trigger] users[j].id != id,
    decreases users.len(),
{
    if users.len() > 0 {
        let rest = users.drop_first();
        lemma_index_by_id(rest, id);
        assert forall|i: int| 0 <= i < rest.len() implies rest[i] == #[trigger] users[i + 1] by {}
        if exists|i: int| 0 <= i < users.len() && #[trigger] users[i].id == id {
            let i = choose|i: int| 0 <= i < users.len() && #[trigger] users[i].id == id;
            if i > 0 {
                assert(rest[i - 1].id == id);
            }
        }
        if index_by_id(rest).contains_key(id) {
            let k = choose|k: int|
                0 <= k < rest.len() && #[trigger] rest[k] == index_by_id(rest)[id] && rest[k].id == id
                    && forall|j: int| k < j < rest.len() ==> #[trigger] rest[j].id != id;
            assert(users[k + 1] == index_by_id(users)[id]);
            assert forall|j: int| k + 1 < j < users.len() implies #[trigger] users[j].id != id by {
                assert(rest[j - 1].id != id);
            }
        } else if users[0].id == id {
            assert(users[0] == index_by_id(users)[id]);
            assert forall|j: int| 0 < j < users.len() implies #[trigger] users[j].id != id by {
                assert(rest[j - 1] == users[j]);
                if users[j].id == id {
                    assert(rest[j - 1].id == id);
                }
            }
        }
    }
}

} // verus!
