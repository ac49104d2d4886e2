//! The one way an operation on the store can fail.

use vstd::prelude::*;

verus! {

/// The guard could not be taken: an earlier holder ended abnormally while it
/// held the guard and left it poisoned. The store does not try to recover;
/// the failed operation has changed nothing.
#[derive(Debug, Clone, Copy, PartialEq, Eq, Structural)]
pub enum LockError {
    Poisoned,
}

impl LockError {
    /// The text shown to a caller for this error.
    pub open spec fn text(self) -> Seq<char> {
        "Failed to lock state"@
    }

    /// The error as a message for whoever made the request.
    pub fn message(&self) -> (r: String)
        ensures
            r@ == self.text(),
    {
        "Failed to lock state".to_string()
    }
}

} // verus!
