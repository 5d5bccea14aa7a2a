//! The application state: the one aggregate of long-lived dependencies,
//! from which a handler takes only the handles it needs.

use crate::init::StartOptions;
use crate::shared::{share, share_client};
use std::sync::Arc;
use vstd::prelude::*;

verus! {

/// The application state, over the type `P` of the connection pool of the
/// database. It is built once and not changed afterwards.
pub struct AppState<P> {
    pub start_options: StartOptions,
    pub pool: Arc<P>,
    pub memcached_client: memcached::Client,
}

impl<P> AppState<P> {
    /// The start-up options, as a copy of their own.
    pub fn start_options(&self) -> (options: StartOptions)
        ensures
            options@ == self.start_options@,
    {
        self.start_options.clone()
    }

    /// A handle on the connection pool of the database.
    pub fn pool(&self) -> (handle: Arc<P>)
        ensures
            handle == self.pool,
    {
        share(&self.pool)
    }

    /// A handle on the cache client.
    pub fn memcached_client(&self) -> (handle: memcached::Client)
        ensures
            handle == self.memcached_client,
    {
        share_client(&self.memcached_client)
    }
}

impl<P> Clone for AppState<P> {
    fn clone(&self) -> (copy: Self)
        ensures
            copy.start_options@ == self.start_options@,
            copy.pool == self.pool,
            copy.memcached_client == self.memcached_client,
    {
        AppState {
            start_options: self.start_options(),
            pool: self.pool(),
            memcached_client: self.memcached_client(),
        }
    }
}

} // verus!
