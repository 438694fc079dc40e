//! The store of users in a database file.

use vstd::prelude::*;
use crate::types::AppError;
use crate::user::domain::User;
use crate::user::repository;
use crate::user::repository::Repository;

verus! {

/// The store of users in a database file, reached through a pool of
/// connections of type `P`.
///
/// Its statements are not written yet. Until they are, every operation
/// fails with a general error that says so, the pool is left alone, and
/// a client is answered with 500.
#[derive(Clone)]
pub struct SqliteRepository<P>(pub(crate) P);

impl<P> SqliteRepository<P> {
    /// The pool that the store reaches its database through.
    pub closed spec fn pool(&self) -> P {
        self.0
    }

    /// The store of the database file that the pool `db` leads to.
    pub fn new(db: P) -> (store: Self)
        ensures
            store.pool() == db,
    {
        SqliteRepository(db)
    }
}

impl<P: Send + Sync + 'static> Repository for SqliteRepository<P> {
    fn find_by_id(&self, _id: &u64) -> (found: Result<Option<User>, AppError>)
        ensures
            found matches Err(AppError::General(text)) && text@ == repository::pending(),
    {
        Err(AppError::string("not yet implemented"))
    }

    fn list(&self) -> (all: Result<Vec<User>, AppError>)
        ensures
            all matches Err(AppError::General(text)) && text@ == repository::pending(),
    {
        Err(AppError::string("not yet implemented"))
    }

    fn create(&mut self, _user: User) -> (created: Result<User, AppError>)
        ensures
            created matches Err(AppError::General(text)) && text@ == repository::pending(),
    {
        Err(AppError::string("not yet implemented"))
    }

    fn update(&mut self, _id: u64, _user: User) -> (updated: Result<Option<User>, AppError>)
        ensures
            updated matches Err(AppError::General(text)) && text@ == repository::pending(),
    {
        Err(AppError::string("not yet implemented"))
    }

    fn delete(&mut self, _id: &u64) -> (deleted: Result<bool, AppError>)
        ensures
            deleted matches Err(AppError::General(text)) && text@ == repository::pending(),
    {
        Err(AppError::string("not yet implemented"))
    }
}

} // verus!
