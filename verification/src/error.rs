//! The error taxonomy crossing the core's output boundary: a lock whose
//! previous holder panicked, or an index-based lookup past the end of the
//! timer list. Both carry a human-readable description.

use vstd::prelude::*;

verus! {

/// A reportable failure of a state operation.
#[derive(Debug, Clone)]
pub enum Error {
    /// A prior critical section panicked while holding the lock for the
    /// target state object; the state is potentially inconsistent and every
    /// later acquisition reports this again until process restart.
    PoisonedLock(String),
    /// An index-based lookup exceeded the current bounds of the timer list.
    NotFound(String),
}

impl Error {
    /// True of the variant reporting a poisoned lock.
    pub open spec fn is_poisoned_lock(&self) -> bool {
        self is PoisonedLock
    }

    /// True of the variant reporting a failed lookup.
    pub open spec fn is_not_found(&self) -> bool {
        self is NotFound
    }

    /// The human-readable description carried by the error.
    pub fn message(&self) -> (r: String)
        ensures
            match self {
                Error::PoisonedLock(d) => r@ == d@,
                Error::NotFound(d) => r@ == d@,
            },
    {
        match self {
            Error::PoisonedLock(d) => d.clone(),
            Error::NotFound(d) => d.clone(),
        }
    }

    /// Reports that a lookup ran past the end of the timer list.
    pub fn not_found_index() -> (r: Error)
        ensures
            r.is_not_found(),
    {
        Error::NotFound("Index not found on timer list.".to_owned())
    }

    /// Reports that the lock for a state object was poisoned; `detail` is
    /// whatever the lock implementation said about the failed acquisition.
    pub fn poisoned_lock(detail: String) -> (r: Error)
        ensures
            r.is_poisoned_lock(),
            r == (Error::PoisonedLock(detail)),
    {
        Error::PoisonedLock(detail)
    }

    /// True in execution iff the error is the not-found variant.
    pub fn reports_not_found(&self) -> (r: bool)
        ensures
            r == self.is_not_found(),
    {
        match self {
            Error::NotFound(_) => true,
            Error::PoisonedLock(_) => false,
        }
    }
}

} // verus!
