//! What the running service holds.

use vstd::prelude::*;
use crate::infrastructure::config::Config;
use crate::user::api::Service;
use crate::user::repository::Repository;

verus! {

/// The services that the routes call.
#[derive(Clone)]
pub struct AppApiCtx<R: Repository> {
    pub user: Service<R>,
}

/// Everything the running service holds: what it was configured with,
/// and the services behind its routes. It is put together once, when
/// the process starts.
#[derive(Clone)]
pub struct AppCtx<R: Repository> {
    pub is_production: bool,
    pub config: Config,
    pub api: AppApiCtx<R>,
}

} // verus!
