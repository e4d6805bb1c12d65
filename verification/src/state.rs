//! The state shared by every request handler.

use std::sync::Arc;
use vstd::prelude::*;
use crate::config::Config;

verus! {

/// Shared application state, generic over the database pool `P`, the topic
/// registry `T` and the per-visitor rate limiter `V`. Cheap to clone when `P` is.
#[derive(Clone)]
pub struct AppState<P, T, V> {
    pub config: Arc<Config>,
    /// Message cache database (always open).
    pub db: P,
    /// Auth database: a separate pool when an auth file is set, `None` otherwise.
    pub auth_db: Option<P>,
    pub topics: Arc<T>,
    pub visitors: Arc<V>,
}

impl<P, T, V> AppState<P, T, V> {
    /// Shared state over the given configuration, databases, topic registry
    /// and rate limiter.
    pub fn new(config: Config, db: P, auth_db: Option<P>, topics: T, visitors: V) -> (s: Self)
        ensures
            *s.config == config,
            s.db == db,
            s.auth_db == auth_db,
            *s.topics == topics,
            *s.visitors == visitors,
    {
        AppState {
            config: Arc::new(config),
            db,
            auth_db,
            topics: Arc::new(topics),
            visitors: Arc::new(visitors),
        }
    }

    /// The auth database pool, falling back to the message database pool.
    pub fn effective_auth_db(&self) -> (p: &P)
        ensures
            *p == match self.auth_db {
                Some(a) => a,
                None => self.db,
            },
    {
        match &self.auth_db {
            Some(a) => a,
            None => &self.db,
        }
    }
}

} // verus!
