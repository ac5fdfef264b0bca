//! The snapshot value that the cache holds.

use vstd::prelude::*;

verus! {

/// The number of a block: zero stands for "no block yet".
#[derive(Clone, Copy, Debug, PartialEq, Eq, PartialOrd, Ord, Hash)]
pub struct BlockNumber(pub u32);

/// A point-in-time snapshot of the aggregate network state.
///
/// A snapshot is only ever built and replaced as a whole.
#[derive(Clone, Copy, Debug, PartialEq, Eq)]
pub struct NetworkStatus {
    /// Reserved estimate of the next block's deadline; no snapshot built here carries one.
    pub next_block_at_max: Option<u64>,
    pub last_committed: BlockNumber,
    pub last_verified: BlockNumber,
    pub total_transactions: u32,
    /// Proofs outstanding since `last_verified`.
    pub outstanding_txs: u32,
    pub mempool_size: u32,
}

impl NetworkStatus {
    /// The snapshot of a network that was never observed: every counter zero, no deadline.
    pub open spec fn zero() -> NetworkStatus {
        NetworkStatus {
            next_block_at_max: None,
            last_committed: BlockNumber(0),
            last_verified: BlockNumber(0),
            total_transactions: 0,
            outstanding_txs: 0,
            mempool_size: 0,
        }
    }
}

impl Default for NetworkStatus {
    fn default() -> (status: NetworkStatus)
        ensures
            status == NetworkStatus::zero(),
    {
        NetworkStatus {
            next_block_at_max: None,
            last_committed: BlockNumber(0),
            last_verified: BlockNumber(0),
            total_transactions: 0,
            outstanding_txs: 0,
            mempool_size: 0,
        }
    }
}

} // verus!
