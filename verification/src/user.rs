//! Users: what one is, what a store of them owes its callers, and the
//! service that stands between the store and the requests.

pub mod api;
pub mod domain;
pub mod repository;

pub use api::Service;
pub use domain::User;
pub use repository::memory::MemoryRepository;
pub use repository::pg::PgRepository;
pub use repository::sqlite::SqliteRepository;
pub use repository::Repository;
