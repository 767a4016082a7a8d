//! The errors that the store's decisions report.

use vstd::prelude::*;

verus! {

/// What the store reports when a request cannot be served.
#[derive(Debug, Clone, PartialEq, Eq)]
pub enum StoreError {
    /// A prefix that names more than one saved prompt; the names it matched,
    /// in the order the store listed them.
    AmbiguousPrefix { prefix: String, matches: Vec<String> },
    /// Every name that the search for a free name may try was taken.
    NameSearchExhausted,
    /// A prompt just saved under `name` could not be read back.
    MissingAfterSave { name: String },
    /// The system clock could not be read as a time after the Unix epoch.
    ClockUnavailable,
}

} // verus!
