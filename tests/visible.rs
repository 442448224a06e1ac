use mvcc::row::{Row, RowVersion};
use mvcc::value::Value;
use mvcc::visibility::visible;
use std::collections::HashSet;

fn create_test_row() -> Row {
    Row {
        values: vec![Value::Integer(1), Value::String("test".to_string())],
    }
}

fn create_version(id: u64, t_created: u64, t_deleted: Option<u64>) -> RowVersion {
    RowVersion {
        id,
        row: create_test_row(),
        t_created,
        t_deleted,
    }
}

#[test]
fn test_visible_created_by_current_tx() {
    let version = create_version(1, 10, None);
    let active_txs = HashSet::new();

    assert!(visible(&version, 10, &active_txs));
}

#[test]
fn test_not_visible_created_and_deleted_by_current_tx() {
    let version = create_version(1, 10, Some(10));
    let active_txs = HashSet::new();

    assert!(!visible(&version, 10, &active_txs));
}

#[test]
fn test_not_visible_created_by_uncommitted_tx() {
    let version = create_version(1, 5, None);
    let mut active_txs = HashSet::new();
    active_txs.insert(5);

    assert!(!visible(&version, 10, &active_txs));
}

#[test]
fn test_not_visible_created_by_future_tx() {
    let version = create_version(1, 15, None);
    let active_txs = HashSet::new();

    assert!(!visible(&version, 10, &active_txs));
}

#[test]
fn test_visible_created_by_committed_past_tx() {
    let version = create_version(1, 5, None);
    let active_txs = HashSet::new();

    assert!(visible(&version, 10, &active_txs));
}

// The reader deleted a row that a committed transaction wrote: it keeps
// seeing the version it deleted, up to and including its own delete.
#[test]
fn test_not_visible_deleted_by_current_tx() {
    let version = create_version(1, 5, Some(10));
    let active_txs = HashSet::new();

    assert!(visible(&version, 10, &active_txs));
}

#[test]
fn test_not_visible_deleted_by_committed_past_tx() {
    let version = create_version(1, 3, Some(8));
    let active_txs = HashSet::new();

    assert!(!visible(&version, 10, &active_txs));
}

#[test]
fn test_visible_deleted_by_uncommitted_tx() {
    let version = create_version(1, 3, Some(8));
    let mut active_txs = HashSet::new();
    active_txs.insert(8);

    assert!(visible(&version, 10, &active_txs));
}

#[test]
fn test_visible_deleted_by_future_tx() {
    let version = create_version(1, 3, Some(15));
    let active_txs = HashSet::new();

    assert!(visible(&version, 10, &active_txs));
}

#[test]
fn test_visible_with_multiple_active_txs() {
    let version = create_version(1, 3, None);
    let mut active_txs = HashSet::new();
    active_txs.insert(5);
    active_txs.insert(7);
    active_txs.insert(12);

    assert!(visible(&version, 10, &active_txs));
}

#[test]
fn test_visible_created_by_current_deleted_by_other() {
    let version = create_version(1, 10, Some(15));
    let active_txs = HashSet::new();

    assert!(visible(&version, 10, &active_txs));
}

#[test]
fn test_visible_created_by_current_deleted_by_other2() {
    let version = create_version(1, 10, Some(10));
    let mut active_txs = HashSet::new();
    active_txs.insert(10);

    assert!(!visible(&version, 10, &active_txs));
}

#[test]
fn committed_delete_after_reader_start_stays_visible() {
    let version = create_version(1, 3, Some(8));
    let active_txs = HashSet::new();

    assert!(!visible(&version, 10, &active_txs));
    assert!(visible(&version, 5, &active_txs));
}

#[test]
fn delete_by_reader_id_boundary() {
    // deleted by a committed transaction with the reader's id minus one, and with the reader's id plus one
    let empty = HashSet::new();
    assert!(!visible(&create_version(1, 3, Some(9)), 10, &empty));
    assert!(visible(&create_version(1, 3, Some(11)), 10, &empty));
}

#[test]
fn uncommitted_write_hidden_from_every_other_reader() {
    let version = create_version(1, 7, None);
    let mut active_txs = HashSet::new();
    active_txs.insert(7);
    for reader in [1u64, 6, 8, 100, u64::MAX] {
        assert!(!visible(&version, reader, &active_txs));
    }
    // the writer itself still sees it
    assert!(visible(&version, 7, &active_txs));
}

#[test]
fn future_write_hidden_whatever_is_active() {
    let version = create_version(1, 20, None);
    let mut active_txs = HashSet::new();
    assert!(!visible(&version, 10, &active_txs));
    active_txs.insert(10);
    active_txs.insert(3);
    assert!(!visible(&version, 10, &active_txs));
    active_txs.insert(20);
    assert!(!visible(&version, 10, &active_txs));
}

#[test]
fn own_write_deleted_by_others_stays_visible() {
    let mut active_txs = HashSet::new();
    active_txs.insert(4);
    assert!(visible(&create_version(1, 10, Some(4)), 10, &active_txs));
    assert!(visible(&create_version(1, 10, None), 10, &active_txs));
    assert!(!visible(&create_version(1, 10, Some(10)), 10, &active_txs));
}

#[test]
fn version_created_and_deleted_by_active_foreign_tx_is_hidden() {
    let mut active_txs = HashSet::new();
    active_txs.insert(6);
    assert!(!visible(&create_version(1, 6, Some(6)), 10, &active_txs));
}

#[test]
fn extreme_transaction_ids() {
    let empty = HashSet::new();
    assert!(visible(&create_version(1, 0, None), 0, &empty));
    assert!(visible(&create_version(1, 0, None), u64::MAX, &empty));
    assert!(!visible(&create_version(1, u64::MAX, None), 0, &empty));
    assert!(visible(&create_version(1, 0, Some(u64::MAX)), u64::MAX, &empty));
}
