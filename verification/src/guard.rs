//! What the library takes from `std::sync::Mutex`: the guard's types, the
//! calls that make and take a guard, and access to the collection behind a
//! guard that is held. Nothing in this file is proved; every contract here is
//! taken on trust from the standard library's documentation.

use crate::collection::BookmarkCollection;
use std::ops::Deref;
use std::ops::DerefMut;
use std::sync::LockResult;
use std::sync::Mutex;
use std::sync::MutexGuard;
use std::sync::PoisonError;
use vstd::prelude::*;

verus! {

/// `std::sync::Mutex`, carried as an opaque value.
#[verifier::external_type_specification]
#[verifier::external_body]
#[verifier::reject_recursive_types(T)]
pub struct ExMutex<T: ?Sized>(Mutex<T>);

/// `std::sync::MutexGuard`, carried as an opaque value. While one exists, its
/// holder is the only party that can reach the data behind the mutex.
#[verifier::external_type_specification]
#[verifier::external_body]
#[verifier::reject_recursive_types(T)]
pub struct ExMutexGuard<'a, T: ?Sized + 'a>(MutexGuard<'a, T>);

/// `std::sync::PoisonError`, carried as an opaque value.
#[verifier::external_type_specification]
#[verifier::external_body]
#[verifier::reject_recursive_types(T)]
pub struct ExPoisonError<T>(PoisonError<T>);

/// The items of the collection that a held guard gives access to, oldest
/// first: what `MutexGuard`'s `deref` hands out, taken by its view.
pub uninterp spec fn held_items(held: MutexGuard<'_, BookmarkCollection>) -> Seq<Seq<char>>;

/// The items of the collection that a mutex was made around, oldest first:
/// what was handed to `Mutex::new` when the mutex was made, taken by its view.
/// It is a fact about how the mutex began and stays the same for as long as
/// the mutex lives; it says nothing of what the mutex holds later.
pub uninterp spec fn made_around(guard: Mutex<BookmarkCollection>) -> Seq<Seq<char>>;

/// `Mutex::new`: a fresh, unlocked, unpoisoned mutex around `initial`. The
/// contract claims that the collection the mutex begins with is `initial`.
#[verifier::external_body]
pub(crate) fn guard_around(initial: BookmarkCollection) -> (r: Mutex<BookmarkCollection>)
    ensures
        made_around(r) == initial@,
{
    Mutex::new(initial)
}

/// `Mutex::lock`: waits until the guard is free and takes it, or reports that
/// the mutex is poisoned. Which of the two comes back depends on what other
/// holders did, so nothing is claimed of the result.
///
/// The standard library leaves open what happens when the calling thread
/// already holds the guard, except that the call does not return. No contract
/// can name that state, so the discipline is kept by the callers: each takes
/// the guard once and lets go of it before it returns.
#[verifier::external_body]
pub(crate) fn acquire<'a>(guard: &'a Mutex<BookmarkCollection>) -> (r: LockResult<
    MutexGuard<'a, BookmarkCollection>,
>) {
    guard.lock()
}

/// `MutexGuard`'s `Deref::deref`: shared access to the collection behind a
/// held guard. The contract claims that what is handed out is the guarded
/// collection.
#[verifier::external_body]
pub(crate) fn held_ref<'a, 'b>(held: &'a MutexGuard<'b, BookmarkCollection>) -> (r:
    &'a BookmarkCollection)
    ensures
        r@ == held_items(*held),
{
    held.deref()
}

/// `MutexGuard`'s `DerefMut::deref_mut`: exclusive access to the collection
/// behind a held guard. The contract claims that what is handed out is the
/// guarded collection, and that whatever the borrower leaves in it is what the
/// guard holds afterwards.
#[verifier::external_body]
pub(crate) fn held_mut<'a, 'b>(held: &'a mut MutexGuard<'b, BookmarkCollection>) -> (r:
    &'a mut BookmarkCollection)
    ensures
        r@ == held_items(*old(held)),
        final(r)@ == held_items(*final(held)),
{
    held.deref_mut()
}

} // verus!
