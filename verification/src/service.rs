//! Requests against the store and the answers to them.
//!
//! Whatever carries the requests (a listener, a decoder for their bodies) is the caller's. What
//! is decided here is which operation a request asks for, what the operation does to the store,
//! and the text that answers it.

use crate::clock::Timestamp;
use crate::model::{after_delete, after_set, read};
use crate::store::{RedisStore, Store};
use vstd::prelude::*;

verus! {

/// A request that names a key: to read it, or to delete it.
#[derive(Debug)]
pub struct GetRequest {
    /// The key.
    pub key: String,
}

/// A request to put a value under a key.
#[derive(Debug)]
pub struct SetRequest {
    /// The key.
    pub key: String,
    /// The value.
    pub data: String,
    /// The seconds for which the value is to live.
    pub expires_in: u64,
}

/// The operation that a request asks for.
#[derive(Clone, Copy, Debug, PartialEq, Eq, Structural)]
pub enum Route {
    /// Read a key.
    GetKey,
    /// Put a value under a key.
    SetKey,
    /// Delete a key.
    DeleteKey,
    /// None that is offered.
    NotFound,
}

/// The operation asked for by a request with the method `method` for the path `path`: the
/// three operations are offered to `POST` alone, each at its own path.
pub open spec fn route_of(method: Seq<char>, path: Seq<char>) -> Route {
    if method != "POST"@ {
        Route::NotFound
    } else if path == "/get"@ {
        Route::GetKey
    } else if path == "/set"@ {
        Route::SetKey
    } else if path == "/delete"@ {
        Route::DeleteKey
    } else {
        Route::NotFound
    }
}

/// Whether two strings hold the same text.
fn same_text(left: &str, right: &str) -> (same: bool)
    ensures
        same == (left@ == right@),
{
    left.to_owned() == right.to_owned()
}

/// Picks the operation that a request asks for by its method and path.
pub fn route(method: &str, path: &str) -> (route: Route)
    ensures
        route == route_of(method@, path@),
{
    if !same_text(method, "POST") {
        Route::NotFound
    } else if same_text(path, "/get") {
        Route::GetKey
    } else if same_text(path, "/set") {
        Route::SetKey
    } else if same_text(path, "/delete") {
        Route::DeleteKey
    } else {
        Route::NotFound
    }
}

/// The answer to a request for no operation that is offered.
pub fn handle_not_found() -> (body: String)
    ensures
        body@ == "Not Found."@,
{
    "Not Found.".to_owned()
}

/// Answers a request to read a key with the value under it, or with the empty string if the
/// key holds nothing or its entry is gone by now. The store is left as it is.
pub fn handle_get(req: GetRequest, store: &Store) -> (body: String)
    ensures
        exists|now: Timestamp| body@ == read(store@, req.key@, #[trigger] now.nanos()),
{
    store.get(req.key)
}

/// Carries out a request to put a value under a key, and answers that it is done.
pub fn handle_set(req: SetRequest, store: &mut Store) -> (body: String)
    ensures
        exists|now: Timestamp|
            final(store)@ == after_set(
                old(store)@,
                req.key@,
                req.data@,
                req.expires_in,
                #[trigger] now.nanos(),
            ),
        body@ == "Completed..."@,
{
    store.set(req.key, req.data, req.expires_in);
    "Completed...".to_owned()
}

/// Carries out a request to delete a key, and answers that it is done.
pub fn handle_delete(req: GetRequest, store: &mut Store) -> (body: String)
    ensures
        final(store)@ == after_delete(old(store)@, req.key@),
        body@ == "Completed..."@,
{
    store.delete(req.key);
    "Completed...".to_owned()
}

} // verus!
