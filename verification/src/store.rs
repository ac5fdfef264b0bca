//! The cached status store: one cell that holds exactly one snapshot.
//!
//! The store is the sequential object that a lock serialises: whoever holds it
//! exclusively may replace the snapshot, whoever holds it shared may read it.
//! It knows nothing of where snapshots come from nor of how often they change.

use vstd::prelude::*;
use crate::status::NetworkStatus;

verus! {

/// The cell that request handlers read and the refresh loop writes.
#[derive(Debug)]
pub struct SharedNetworkStatus {
    status: NetworkStatus,
}

impl View for SharedNetworkStatus {
    type V = NetworkStatus;

    /// The snapshot that the store currently holds.
    closed spec fn view(&self) -> NetworkStatus {
        self.status
    }
}

impl SharedNetworkStatus {
    /// A store that was never refreshed: it holds the zero snapshot.
    pub fn new() -> (store: SharedNetworkStatus)
        ensures
            store@ == NetworkStatus::zero(),
    {
        SharedNetworkStatus { status: NetworkStatus::default() }
    }

    /// A copy of the current snapshot, whole.
    pub fn read(&self) -> (snapshot: NetworkStatus)
        ensures
            snapshot == self@,
    {
        self.status
    }

    /// Swaps the stored snapshot for `new` as one unit.
    pub fn replace(&mut self, new: NetworkStatus)
        ensures
            final(self)@ == new,
    {
        self.status = new;
    }
}

impl Default for SharedNetworkStatus {
    fn default() -> (store: SharedNetworkStatus)
        ensures
            store@ == NetworkStatus::zero(),
    {
        SharedNetworkStatus::new()
    }
}

} // verus!
