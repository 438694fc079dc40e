//! The core of a small service that keeps a collection of users: its
//! domain types, its error values, the replies it gives to each request,
//! and the contract of the storage behind it.

pub mod context;
pub mod infrastructure;
pub mod router;
pub mod types;
pub mod user;

pub use context::{AppApiCtx, AppCtx};
pub use types::AppResult;
