//! What a store of users owes its callers.

use vstd::prelude::*;
use crate::types::AppError;
use crate::user::domain;
use crate::user::domain::User;

pub mod memory;
pub mod pg;
pub mod sqlite;

verus! {

/// What a store holds: the name of each user, by the number it is kept
/// under.
pub type Users = Map<u64, Seq<char>>;

/// Whether `after` is `before` with one more user, named `name`, under
/// a number that was free.
pub open spec fn stored(before: Users, name: Seq<char>, after: Users) -> bool {
    exists|id: u64| stored_at(before, id, name, after)
}

/// Whether `after` is `before` with `name` added under the number `id`,
/// which was free.
pub open spec fn stored_at(before: Users, id: u64, name: Seq<char>, after: Users) -> bool {
    !before.contains_key(id) && after == before.insert(id, name)
}

/// Whether `names` lists every user of `users` once, in the order of
/// the numbers `ids`.
pub open spec fn listed_by(users: Users, ids: Seq<u64>, names: Seq<Seq<char>>) -> bool {
    &&& ids.no_duplicates()
    &&& ids.to_set() == users.dom()
    &&& names.len() == ids.len()
    &&& forall|i: int| 0 <= i < ids.len() ==> #[trigger] names[i] == users[ids[i]]
}

/// Whether `names` lists every user of `users` once, in some order.
pub open spec fn listing(users: Users, names: Seq<Seq<char>>) -> bool {
    exists|ids: Seq<u64>| listed_by(users, ids, names)
}

/// What every operation of a store answers with while its statements
/// are not written.
pub open spec fn pending() -> Seq<char> {
    "not yet implemented"@
}

/// A store of users.
///
/// An operation either is carried out, and then says what the store
/// held or holds now, or fails with a general error and leaves the store
/// as it was. A number under which nothing is kept is no failure:
/// looking it up, replacing it and removing it answer with `None` or
/// `false`.
pub trait Repository: Send + Sync + 'static {
    /// The users that are kept. A store that says nothing of itself
    /// keeps nobody.
    open spec fn view(&self) -> Users {
        Map::empty()
    }

    /// Whether the store is sure to carry out the next operation,
    /// whichever it is. Only keeping a further user can change this. A
    /// store that says nothing of itself promises nothing.
    open spec fn ready(&self) -> bool {
        false
    }

    /// The user kept under `id`.
    fn find_by_id(&self, id: &u64) -> (found: Result<Option<User>, AppError>)
        ensures
            self.ready() ==> found is Ok,
            (match found {
                Ok(Some(user)) => self@.contains_key(*id) && user@ == self@[*id],
                Ok(None) => !self@.contains_key(*id),
                Err(error) => error is General,
            }),
    ;

    /// Every user that is kept.
    fn list(&self) -> (all: Result<Vec<User>, AppError>)
        ensures
            self.ready() ==> all is Ok,
            (match all {
                Ok(users) => listing(self@, domain::names(users@)),
                Err(error) => error is General,
            }),
    ;

    /// Keeps `user` under a number that was free, and hands it back.
    fn create(&mut self, user: User) -> (created: Result<User, AppError>)
        ensures
            old(self).ready() ==> created is Ok,
            (match created {
                Ok(kept) => kept@ == user@ && stored(old(self)@, user@, final(self)@),
                Err(error) => error is General && final(self)@ == old(self)@,
            }),
    ;

    /// Puts `user` in the place of the one kept under `id`, and hands it
    /// back.
    fn update(&mut self, id: u64, user: User) -> (updated: Result<Option<User>, AppError>)
        ensures
            old(self).ready() ==> updated is Ok,
            final(self).ready() == old(self).ready(),
            (match updated {
                Ok(Some(kept)) => old(self)@.contains_key(id) && kept@ == user@ && final(self)@
                    == old(self)@.insert(id, user@),
                Ok(None) => !old(self)@.contains_key(id) && final(self)@ == old(self)@,
                Err(error) => error is General && final(self)@ == old(self)@,
            }),
    ;

    /// Removes the user kept under `id`, and says whether there was one.
    fn delete(&mut self, id: &u64) -> (deleted: Result<bool, AppError>)
        ensures
            old(self).ready() ==> deleted is Ok,
            final(self).ready() == old(self).ready(),
            (match deleted {
                Ok(true) => old(self)@.contains_key(*id) && final(self)@ == old(self)@.remove(*id),
                Ok(false) => !old(self)@.contains_key(*id) && final(self)@ == old(self)@,
                Err(error) => error is General && final(self)@ == old(self)@,
            }),
    ;
}

} // verus!
