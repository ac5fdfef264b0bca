use status_cache::status::BlockNumber;
use status_cache::status::NetworkStatus;
use status_cache::store::SharedNetworkStatus;

fn sample(seed: u32) -> NetworkStatus {
    NetworkStatus {
        next_block_at_max: None,
        last_committed: BlockNumber(seed + 5),
        last_verified: BlockNumber(seed),
        total_transactions: seed * 50,
        outstanding_txs: seed % 7,
        mempool_size: seed % 13,
    }
}

#[test]
fn default_status_is_all_zero() {
    let status = NetworkStatus::default();
    assert_eq!(status.next_block_at_max, None);
    assert_eq!(status.last_committed, BlockNumber(0));
    assert_eq!(status.last_verified, BlockNumber(0));
    assert_eq!(status.total_transactions, 0);
    assert_eq!(status.outstanding_txs, 0);
    assert_eq!(status.mempool_size, 0);
}

#[test]
fn new_store_reads_zero_before_any_replace() {
    let store = SharedNetworkStatus::new();
    assert_eq!(store.read(), NetworkStatus::default());
    assert_eq!(store.read().last_committed, BlockNumber(0));
    assert_eq!(store.read().last_verified, BlockNumber(0));
    assert_eq!(store.read().next_block_at_max, None);
}

#[test]
fn default_store_reads_zero() {
    let store = SharedNetworkStatus::default();
    assert_eq!(store.read(), NetworkStatus::default());
}

#[test]
fn read_returns_what_replace_put_in() {
    let mut store = SharedNetworkStatus::new();
    let status = NetworkStatus {
        next_block_at_max: None,
        last_committed: BlockNumber(105),
        last_verified: BlockNumber(100),
        total_transactions: 5000,
        outstanding_txs: 3,
        mempool_size: 12,
    };
    store.replace(status);
    assert_eq!(store.read(), status);
    assert_ne!(store.read(), NetworkStatus::default());
}

#[test]
fn read_does_not_change_the_store() {
    let mut store = SharedNetworkStatus::new();
    store.replace(sample(9));
    let first = store.read();
    let second = store.read();
    assert_eq!(first, sample(9));
    assert_eq!(second, sample(9));
}

#[test]
fn replace_keeps_a_deadline_that_the_caller_put_in() {
    let mut store = SharedNetworkStatus::new();
    let mut status = sample(1);
    status.next_block_at_max = Some(1_700_000_000);
    store.replace(status);
    assert_eq!(store.read().next_block_at_max, Some(1_700_000_000));
}

#[test]
fn replace_takes_the_largest_values() {
    let mut store = SharedNetworkStatus::new();
    let status = NetworkStatus {
        next_block_at_max: Some(u64::MAX),
        last_committed: BlockNumber(u32::MAX),
        last_verified: BlockNumber(u32::MAX),
        total_transactions: u32::MAX,
        outstanding_txs: u32::MAX,
        mempool_size: u32::MAX,
    };
    store.replace(status);
    assert_eq!(store.read(), status);
}

#[test]
fn every_read_sees_the_latest_replace_whole() {
    let mut store = SharedNetworkStatus::new();
    let mut latest = NetworkStatus::default();
    // Reads and replaces interleaved: two reads, a replace, one read, two replaces, ...
    for round in 0..40u32 {
        if round % 3 == 2 || round % 7 == 4 {
            latest = sample(round);
            store.replace(latest);
        } else {
            let seen = store.read();
            assert_eq!(seen, latest);
            // No field comes from another snapshot than the rest.
            assert_eq!(seen.last_committed, latest.last_committed);
            assert_eq!(seen.last_verified, latest.last_verified);
            assert_eq!(seen.total_transactions, latest.total_transactions);
            assert_eq!(seen.outstanding_txs, latest.outstanding_txs);
            assert_eq!(seen.mempool_size, latest.mempool_size);
        }
    }
}

#[test]
fn a_second_replace_leaves_nothing_of_the_first() {
    let mut store = SharedNetworkStatus::new();
    let one = NetworkStatus {
        next_block_at_max: Some(7),
        last_committed: BlockNumber(10),
        last_verified: BlockNumber(9),
        total_transactions: 8,
        outstanding_txs: 7,
        mempool_size: 6,
    };
    let two = NetworkStatus {
        next_block_at_max: None,
        last_committed: BlockNumber(20),
        last_verified: BlockNumber(0),
        total_transactions: 0,
        outstanding_txs: 0,
        mempool_size: 1,
    };
    store.replace(one);
    store.replace(two);
    assert_eq!(store.read(), two);
}

#[test]
fn block_numbers_order_by_their_number() {
    assert!(BlockNumber(100) < BlockNumber(105));
    assert!(BlockNumber(0) <= BlockNumber(0));
    assert_eq!(BlockNumber(7).0, 7);
}
