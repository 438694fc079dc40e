//! The service through which requests reach the store.

use vstd::prelude::*;
use crate::types::AppError;
use crate::user::domain;
use crate::user::domain::User;
use crate::user::repository;
use crate::user::repository::pg::PgRepository;
use crate::user::repository::sqlite::SqliteRepository;
use crate::user::repository::Repository;
use crate::user::repository::Users;

verus! {

/// The users of one store, as the rest of the program sees them. The
/// service adds nothing of its own: every operation is the store's.
#[derive(Clone)]
pub struct Service<R: Repository> {
    repo: R,
}

impl<R: Repository> Service<R> {
    /// The users that the store keeps.
    pub closed spec fn view(&self) -> Users {
        self.repo@
    }

    /// Whether the store is sure to carry out the next operation.
    pub closed spec fn ready(&self) -> bool {
        self.repo.ready()
    }

    /// The store behind the service.
    pub closed spec fn repository(&self) -> R {
        self.repo
    }

    /// The service over `repo`.
    pub fn new(repo: R) -> (service: Self)
        ensures
            service.repository() == repo,
            service@ == repo@,
            service.ready() == repo.ready(),
    {
        Service { repo }
    }

    /// The user kept under `id`.
    pub fn find_by_id(&self, id: &u64) -> (found: Result<Option<User>, AppError>)
        ensures
            self.ready() ==> found is Ok,
            (match found {
                Ok(Some(user)) => self@.contains_key(*id) && user@ == self@[*id],
                Ok(None) => !self@.contains_key(*id),
                Err(error) => error is General,
            }),
    {
        self.repo.find_by_id(id)
    }

    /// Keeps `user` under a number that was free, and hands it back.
    pub fn create(&mut self, user: User) -> (created: Result<User, AppError>)
        ensures
            old(self).ready() ==> created is Ok,
            (match created {
                Ok(kept) => kept@ == user@ && repository::stored(
                    old(self)@,
                    user@,
                    final(self)@,
                ),
                Err(error) => error is General && final(self)@ == old(self)@,
            }),
    {
        self.repo.create(user)
    }

    /// Every user that is kept.
    pub fn list(&self) -> (all: Result<Vec<User>, AppError>)
        ensures
            self.ready() ==> all is Ok,
            (match all {
                Ok(users) => repository::listing(
                    self@,
                    domain::names(users@),
                ),
                Err(error) => error is General,
            }),
    {
        self.repo.list()
    }

    /// Puts `user` in the place of the one kept under `id`, and hands it
    /// back.
    pub fn update(&mut self, id: u64, user: User) -> (updated: Result<Option<User>, AppError>)
        ensures
            old(self).ready() ==> updated is Ok,
            final(self).ready() == old(self).ready(),
            (match updated {
                Ok(Some(kept)) => old(self)@.contains_key(id) && kept@ == user@ && final(self)@
                    == old(self)@.insert(id, user@),
                Ok(None) => !old(self)@.contains_key(id) && final(self)@ == old(self)@,
                Err(error) => error is General && final(self)@ == old(self)@,
            }),
    {
        self.repo.update(id, user)
    }

    /// Removes the user kept under `id`, and says whether there was one.
    pub fn delete(&mut self, id: &u64) -> (deleted: Result<bool, AppError>)
        ensures
            old(self).ready() ==> deleted is Ok,
            final(self).ready() == old(self).ready(),
            (match deleted {
                Ok(true) => old(self)@.contains_key(*id) && final(self)@ == old(self)@.remove(*id),
                Ok(false) => !old(self)@.contains_key(*id) && final(self)@ == old(self)@,
                Err(error) => error is General && final(self)@ == old(self)@,
            }),
    {
        self.repo.delete(id)
    }
}

impl<P: Send + Sync + 'static> Service<PgRepository<P>> {
    /// The service over the client-server database that the pool `db`
    /// leads to.
    pub fn new_pg(db: P) -> (service: Self)
        ensures
            service.repository().pool() == db,
    {
        let repo = PgRepository::new(db);
        Self::new(repo)
    }
}

impl<P: Send + Sync + 'static> Service<SqliteRepository<P>> {
    /// The service over the database file that the pool `db` leads to.
    pub fn new_sqlite(db: P) -> (service: Self)
        ensures
            service.repository().pool() == db,
    {
        let repo = SqliteRepository::new(db);
        Self::new(repo)
    }
}

} // verus!
