//! The long-lived dependencies that the service shares between requests.

use std::sync::Arc;
use vstd::prelude::*;

verus! {

/// `memcached::Client`, the handle on the cache. It is carried and shared,
/// never looked into.
#[verifier::external_type_specification]
#[verifier::external_body]
pub struct ExCacheClient(memcached::Client);

/// Makes another handle on the same resource with `Arc::clone`.
///
/// Trusted: the new handle points to the same allocation, so it stands for
/// the same resource.
#[verifier::external_body]
pub(crate) fn share<T>(handle: &Arc<T>) -> (other: Arc<T>)
    ensures
        other == *handle,
{
    Arc::clone(handle)
}

/// Makes another handle on the same cache client with the `Clone` that
/// `memcached::Client` derives.
///
/// Trusted: the client is a list of connection pools, each a shared
/// pointer, and a function pointer; its clone holds the same pools and the
/// same function.
#[verifier::external_body]
pub(crate) fn share_client(client: &memcached::Client) -> (handle: memcached::Client)
    ensures
        handle == *client,
{
    client.clone()
}

} // verus!
