//! The two requests a host application can make of a shared store. Each is a
//! plain function on a store handle: whatever carries the request to the
//! process calls it and passes the answer back.

use crate::error::LockError;
use crate::store::BookmarkStore;
use vstd::prelude::*;

verus! {

/// An operation's outcome as the requester sees it: a value passes through
/// unchanged, an error becomes its message.
pub fn report<T>(outcome: Result<T, LockError>) -> (r: Result<T, String>)
    ensures
        match outcome {
            Ok(value) => r == Ok::<T, String>(value),
            Err(e) => r is Err && r->Err_0@ == e.text(),
        },
{
    match outcome {
        Ok(value) => Ok(value),
        Err(e) => Err(e.message()),
    }
}

/// Adds `url` to the end of the store's bookmarks. `url` is taken as it is:
/// nothing is validated, trimmed or left out as a duplicate. Fails, with the
/// lock error's message, only where the store's guard is poisoned.
pub fn add_bookmark(store: &BookmarkStore, url: String) -> (r: Result<(), String>)
    ensures
        r is Err ==> r->Err_0@ == LockError::Poisoned.text(),
{
    report(store.append(url))
}

/// The store's bookmarks, oldest first, as a copy. Fails, with the lock
/// error's message, only where the store's guard is poisoned.
pub fn get_bookmarks(store: &BookmarkStore) -> (r: Result<Vec<String>, String>)
    ensures
        r is Err ==> r->Err_0@ == LockError::Poisoned.text(),
{
    report(store.snapshot())
}

} // verus!
