//! The shared store: one collection behind one exclusive guard.
//!
//! Many callers may hold a handle to the same store and call it at the same
//! time. Every read and every write of the collection happens while the guard
//! is held, so the operations take effect one at a time, in the order in which
//! the guard was granted. What one operation does with the guard's answer is
//! proved here; when the guard is granted, and to whom first, is the guard's
//! business and is not.

use crate::collection::BookmarkCollection;
use crate::error::LockError;
use crate::guard::acquire;
use crate::guard::guard_around;
use crate::guard::held_items;
use crate::guard::held_mut;
use crate::guard::held_ref;
use crate::guard::made_around;
use crate::replay::after_appends;
use std::sync::LockResult;
use std::sync::Mutex;
use std::sync::MutexGuard;
use vstd::prelude::*;

verus! {

/// The append as it happens inside the critical section: `item` goes to the
/// end of the guarded collection and everything before it stays as it was.
pub fn append_held(held: &mut MutexGuard<'_, BookmarkCollection>, item: String)
    ensures
        held_items(*final(held)) == held_items(*old(held)).push(item@),
        held_items(*final(held)) == after_appends(held_items(*old(held)), seq![item@]),
{
    let items = held_mut(held);
    items.append(item);
}

/// The read as it happens inside the critical section: a copy of the guarded
/// collection's items, in order. The copy is the caller's own. The guard is
/// only borrowed, so the guarded collection is as it was.
pub fn snapshot_held(held: &MutexGuard<'_, BookmarkCollection>) -> (r: Vec<String>)
    ensures
        r.deep_view() == held_items(*held),
{
    held_ref(held).snapshot()
}

/// The whole append, given what the guard answered.
///
/// Where the guard was granted, the result is `Ok(())` and the guard now holds
/// what it held before, followed by `item`: nothing else is added, removed,
/// moved or changed, whatever `item` is and whether or not it is there
/// already. Where the mutex reported poisoning, the result is
/// `LockError::Poisoned` and the answer, with the collection behind it, is
/// exactly as it was handed in.
pub fn append_with(
    acquired: &mut LockResult<MutexGuard<'_, BookmarkCollection>>,
    item: String,
) -> (r: Result<(), LockError>)
    ensures
        match *old(acquired) {
            Ok(held) => {
                &&& r == Ok::<(), LockError>(())
                &&& *final(acquired) is Ok
                &&& held_items(final(acquired)->Ok_0) == held_items(held).push(item@)
                &&& held_items(final(acquired)->Ok_0) == after_appends(
                    held_items(held),
                    seq![item@],
                )
            },
            Err(_) => {
                &&& r == Err::<(), LockError>(LockError::Poisoned)
                &&& *final(acquired) == *old(acquired)
            },
        },
{
    match acquired {
        Ok(held) => {
            append_held(held, item);
            Ok(())
        },
        Err(_) => Err(LockError::Poisoned),
    }
}

/// The whole read, given what the guard answered.
///
/// Where the guard was granted, the result is a copy of the items it holds, in
/// order. Where the mutex reported poisoning, the result is
/// `LockError::Poisoned`. Either way the answer is only borrowed: the
/// collection behind it is as it was, so a second read of the same answer
/// gives the same items.
pub fn snapshot_with(acquired: &LockResult<MutexGuard<'_, BookmarkCollection>>) -> (r: Result<
    Vec<String>,
    LockError,
>)
    ensures
        match *acquired {
            Ok(held) => r is Ok && r->Ok_0.deep_view() == held_items(held),
            Err(_) => r == Err::<Vec<String>, LockError>(LockError::Poisoned),
        },
{
    match acquired {
        Ok(held) => Ok(snapshot_held(held)),
        Err(_) => Err(LockError::Poisoned),
    }
}

/// An ordered, append-only collection of bookmarks that many callers can use
/// at once. The collection is reachable only through `append` and `snapshot`,
/// each of which takes the guard, does its work and lets go of the guard
/// before it returns.
pub struct BookmarkStore {
    guard: Mutex<BookmarkCollection>,
}

impl BookmarkStore {
    /// The items the store began with when it was made, oldest first.
    pub closed spec fn made_with(&self) -> Seq<Seq<char>> {
        made_around(self.guard)
    }

    /// A store that begins with no bookmarks, its guard free.
    pub fn new() -> (r: Self)
        ensures
            r.made_with() == Seq::<Seq<char>>::empty(),
    {
        BookmarkStore { guard: guard_around(BookmarkCollection::new()) }
    }

    /// Waits for the guard, puts `item` at the end of the collection and lets
    /// go of the guard. `item` is taken as it is, whatever it holds.
    ///
    /// Nothing is claimed at this function. Whether the guard is granted
    /// depends on what earlier holders did, and what the collection holds is
    /// no function of the handle that callers share. All that is done with
    /// the guard's answer is one call of `append_with`, whose contract says
    /// what is returned and how the guarded collection changes for each
    /// answer.
    pub fn append(&self, item: String) -> (r: Result<(), LockError>) {
        let mut acquired = acquire(&self.guard);
        append_with(&mut acquired, item)
    }

    /// Waits for the guard, copies the collection as it is at that moment and
    /// lets go of the guard. Later appends do not reach the copy.
    ///
    /// Nothing is claimed at this function, for the reasons given at
    /// `append`. All that is done with the guard's answer is one call of
    /// `snapshot_with`, whose contract says what is returned for each answer.
    pub fn snapshot(&self) -> (r: Result<Vec<String>, LockError>) {
        let acquired = acquire(&self.guard);
        snapshot_with(&acquired)
    }
}

} // verus!
