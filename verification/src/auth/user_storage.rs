use vstd::prelude::*;

use std::collections::HashMap;

use crate::auth::users::{Identifiable, User, WithHashedPassword, WithoutPassword};

verus! {

broadcast use vstd::std_specs::hash::group_hash_axioms;

/// How a user is looked up.
pub enum Query {
    Name(String),
    Id(u128),
}

/// Why the user store refused a request.
#[derive(Debug, Clone, PartialEq, Eq)]
pub enum Error {
    UserNotFoundById(u128),
    UserNotFoundByName(String),
    UserAlreadyExistsWithName(String),
}

/// Some stored user has this name.
pub open spec fn has_user_named(users: Map<u128, User<WithHashedPassword>>, name: Seq<char>) -> bool {
    exists|k: u128| #[trigger] users.contains_key(k) && users[k].username@ == name
}

/// Users kept in memory, by UUID.
pub struct MemoryUserStorage {
    pub map: HashMap<u128, User<WithHashedPassword>>,
}

/// The outcomes a lookup may have, given the stored users: by UUID, the user
/// stored there or `UserNotFoundById`; by name, a stored user of that name (which
/// one, when several share it, is up to the store) or `UserNotFoundByName` when
/// there is none.
pub open spec fn lookup_outcome_allowed(
    users: Map<u128, User<WithHashedPassword>>,
    query: Query,
    r: Result<Identifiable<User<WithHashedPassword>>, Error>,
) -> bool {
    match query {
        Query::Id(id) => match r {
            Ok(found) => users.contains_key(id) && found.uuid == id && found.data == users[id],
            Err(e) => !users.contains_key(id) && e == Error::UserNotFoundById(id),
        },
        Query::Name(name) => match r {
            Ok(found) => users.contains_key(found.uuid) && found.data == users[found.uuid]
                && found.data.username@ == name@,
            Err(e) => !has_user_named(users, name@) && e == Error::UserNotFoundByName(name),
        },
    }
}

/// A place users are kept in, by UUID.
pub trait UserStorage {
    /// The stored users, by UUID.
    spec fn users(&self) -> Map<u128, User<WithHashedPassword>>;

    /// Whether this store takes `user` when asked to add it.
    spec fn admits(&self, user: Identifiable<User<WithHashedPassword>>) -> bool;

    /// Stores a user under its UUID, replacing any user stored there, exactly when
    /// the store admits it; a store that refuses keeps what it had.
    fn add(&mut self, user: Identifiable<User<WithHashedPassword>>) -> (r: Result<(), Error>)
        ensures
            r is Ok <==> old(self).admits(user),
            r is Ok ==> final(self).users() == old(self).users().insert(user.uuid, user.data),
            r is Err ==> final(self).users() == old(self).users(),
    ;

    /// Looks a user up by UUID or by name.
    fn get(&self, query: Query) -> (r: Result<Identifiable<User<WithHashedPassword>>, Error>)
        ensures
            lookup_outcome_allowed(self.users(), query, r),
    ;

    /// Removes the user stored under `user_id`, if any; a store may refuse, and
    /// then keeps what it had.
    fn remove(&mut self, user_id: u128) -> (r: Result<(), Error>)
        ensures
            r is Ok ==> final(self).users() == old(self).users().remove(user_id),
            r is Err ==> final(self).users() == old(self).users(),
    ;
}

impl MemoryUserStorage {
    /// A store with no users.
    pub fn empty() -> (r: Self)
        ensures
            r.users() == Map::<u128, User<WithHashedPassword>>::empty(),
    {
        MemoryUserStorage { map: HashMap::new() }
    }
}

impl UserStorage for MemoryUserStorage {
    open spec fn users(&self) -> Map<u128, User<WithHashedPassword>> {
        self.map@
    }

    /// This store takes every user: it does not check that names are unique.
    open spec fn admits(&self, user: Identifiable<User<WithHashedPassword>>) -> bool {
        true
    }

    /// Always succeeds.
    fn add(&mut self, user: Identifiable<User<WithHashedPassword>>) -> (r: Result<(), Error>)
        ensures
            r is Ok,
    {
        let id = user.uuid;
        let data = user.data;
        self.map.insert(id, data);
        Ok(())
    }

    fn get(&self, query: Query) -> (r: Result<Identifiable<User<WithHashedPassword>>, Error>) {
        match query {
            Query::Id(uuid) => match self.map.get(&uuid) {
                Some(user) => Ok(Identifiable { uuid, data: user.clone() }),
                None => Err(Error::UserNotFoundById(uuid)),
            },
            Query::Name(name) => {
                for entry in it: self.map.iter()
                    invariant
                        query matches Query::Name(n) && n == name,
                        forall|j: int| 0 <= j < it.index()
                            ==> (#[trigger] it.seq()[j]).1.username@ != name@,
                {
                    let (id, user) = entry;
                    if user.username == name {
                        return Ok(Identifiable { uuid: *id, data: user.clone() });
                    }
                }
                Err(Error::UserNotFoundByName(name))
            },
        }
    }

    /// Always succeeds.
    fn remove(&mut self, user_id: u128) -> (r: Result<(), Error>)
        ensures
            r is Ok,
    {
        self.map.remove(&user_id);
        Ok(())
    }
}

/// Looks a user up as [`UserStorage::get`] does, and returns its public form,
/// without the password hash.
pub fn get_without_password<S: UserStorage>(store: &S, query: Query) -> (r: Result<Identifiable<User<WithoutPassword>>, Error>)
    ensures
        match query {
            Query::Id(id) => match r {
                Ok(found) => store.users().contains_key(id) && found.uuid == id
                    && found.data.username == store.users()[id].username,
                Err(e) => !store.users().contains_key(id) && e == Error::UserNotFoundById(id),
            },
            Query::Name(name) => match r {
                Ok(found) => store.users().contains_key(found.uuid)
                    && found.data.username == store.users()[found.uuid].username
                    && found.data.username@ == name@,
                Err(e) => !has_user_named(store.users(), name@)
                    && e == Error::UserNotFoundByName(name),
            },
        },
{
    match store.get(query) {
        Ok(found) => {
            let uuid = found.uuid;
            Ok(Identifiable { uuid, data: User::<WithoutPassword>::from(found.data) })
        },
        Err(e) => Err(e),
    }
}

/// What a store gives back of what was stored: once `add` has stored `user`
/// under `id`, looking `id` up answers exactly that user and looking its name up
/// answers some user of that name; once `remove` has taken `id` out, looking it
/// up answers that no user has it.
pub proof fn lemma_store_reads_back_writes(
    users: Map<u128, User<WithHashedPassword>>,
    id: u128,
    user: User<WithHashedPassword>,
    by_id: Result<Identifiable<User<WithHashedPassword>>, Error>,
    by_name: Result<Identifiable<User<WithHashedPassword>>, Error>,
    after_remove: Result<Identifiable<User<WithHashedPassword>>, Error>,
)
    requires
        lookup_outcome_allowed(users.insert(id, user), Query::Id(id), by_id),
        lookup_outcome_allowed(users.insert(id, user), Query::Name(user.username), by_name),
        lookup_outcome_allowed(users.remove(id), Query::Id(id), after_remove),
    ensures
        by_id matches Ok(found) && found.uuid == id && found.data == user,
        by_name matches Ok(found) && found.data.username@ == user.username@,
        after_remove == Err::<Identifiable<User<WithHashedPassword>>, Error>(Error::UserNotFoundById(id)),
{
    assert(users.insert(id, user).contains_key(id));
    assert(has_user_named(users.insert(id, user), user.username@));
}

} // verus!
