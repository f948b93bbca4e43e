use consensus_orchestrator::clock::{deadline_after, deadline_from, now_epoch_millis, CLOCK_MILLIS_BOUND};
use consensus_orchestrator::store::ProposalStore;
use consensus_orchestrator::trie_config::OriginalSkeletonContractsTrieConfig;
use consensus_orchestrator::types::Transaction;

fn tx(payload: u64) -> Transaction {
    Transaction { payload }
}

#[test]
fn store_lookup_finds_what_was_inserted() {
    let mut store = ProposalStore::new();
    assert!(store.get(1, 10).is_none());
    store.insert(1, 10, vec![tx(1), tx(2)], 0);
    let rec = store.get(1, 10).unwrap();
    assert_eq!(rec.transactions, vec![tx(1), tx(2)]);
    assert_eq!(rec.proposal_id, 0);
    assert!(store.get(1, 11).is_none());
    assert!(store.get(2, 10).is_none());
}

#[test]
fn store_insert_replaces_the_record_under_the_same_key() {
    let mut store = ProposalStore::new();
    store.insert(1, 10, vec![tx(1)], 0);
    store.insert(1, 10, vec![tx(2)], 1);
    let rec = store.get(1, 10).unwrap();
    assert_eq!(rec.transactions, vec![tx(2)]);
    assert_eq!(rec.proposal_id, 1);
}

#[test]
fn store_prune_keeps_only_strictly_greater_heights() {
    let mut store = ProposalStore::new();
    store.insert(3, 30, vec![tx(3)], 0);
    store.insert(5, 50, vec![tx(5)], 1);
    store.insert(5, 51, vec![tx(7)], 2);
    store.insert(6, 60, vec![tx(6)], 3);
    store.prune_up_to(5);
    assert!(store.get(3, 30).is_none());
    assert!(store.get(5, 50).is_none());
    assert!(store.get(5, 51).is_none());
    assert_eq!(store.get(6, 60).unwrap().transactions, vec![tx(6)]);
}

#[test]
fn store_prune_at_height_zero_drops_only_height_zero() {
    let mut store = ProposalStore::new();
    store.insert(0, 1, vec![tx(1)], 0);
    store.insert(1, 2, vec![tx(2)], 1);
    store.prune_up_to(0);
    assert!(store.get(0, 1).is_none());
    assert!(store.get(1, 2).is_some());
}

#[test]
fn deadline_from_is_the_exact_sum() {
    assert_eq!(deadline_from(1_000, 500), Some(1_500));
    assert_eq!(deadline_from(-2_000, 500), Some(-1_500));
    assert_eq!(deadline_from(i64::MAX - 10, 10), Some(i64::MAX));
    assert_eq!(deadline_from(i64::MAX - 9, 10), None);
    assert_eq!(deadline_from(0, u64::MAX), None);
}

#[test]
fn deadline_after_tracks_the_clock() {
    let before = now_epoch_millis();
    let deadline = deadline_after(1_000).unwrap();
    let after = now_epoch_millis();
    assert!(deadline >= before + 1_000);
    assert!(deadline <= after + 1_000);
}

#[test]
fn oversized_timeout_has_no_deadline() {
    assert_eq!(deadline_after(u64::MAX), None);
}

#[test]
fn deadline_exists_for_every_practical_timeout() {
    let day_ms: u64 = 86_400_000;
    let deadline = deadline_after(day_ms).unwrap();
    assert!(deadline >= day_ms as i64);
    assert!(deadline <= CLOCK_MILLIS_BOUND + day_ms as i64);
}

#[test]
fn contracts_trie_config_compares_nothing() {
    let config = OriginalSkeletonContractsTrieConfig::new();
    assert!(!config.compare_modified_leaves());
    assert_eq!(config.compare_leaf(7, 9), Ok(false));
}
