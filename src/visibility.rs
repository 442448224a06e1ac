use std::collections::HashSet;
use vstd::prelude::*;

use crate::row::RowVersion;

verus! {

broadcast use vstd::std_specs::hash::group_hash_axioms;

/// Whether a version with creator `created` and deleter `deleted` is visible to
/// reader `tx_id`, given the transactions `active` at snapshot time. The rules
/// are checked in order; the first that applies decides.
pub open spec fn visible_to(created: u64, deleted: Option<u64>, tx_id: u64, active: Set<u64>) -> bool {
    if created == tx_id {
        // the reader's own write, hidden only once the reader deleted it too
        deleted != Some(tx_id)
    } else if active.contains(created) {
        // written by a transaction that has not committed
        false
    } else if created > tx_id {
        // written by a transaction that started after the reader
        false
    } else {
        match deleted {
            None => true,
            Some(d) => d == tx_id || active.contains(d) || d >= tx_id,
        }
    }
}

/// Decides whether `version` is visible to transaction `tx_id`, whose snapshot
/// saw the transactions in `active_txs` still running.
pub fn visible(version: &RowVersion, tx_id: u64, active_txs: &HashSet<u64>) -> (r: bool)
    ensures
        r == visible_to(version.t_created, version.t_deleted, tx_id, active_txs@),
        // a transaction sees its own write until it deletes it itself
        version.t_created == tx_id ==> (r <==> version.t_deleted != Some(tx_id)),
        // no dirty reads: another transaction's uncommitted write is never seen
        version.t_created != tx_id && active_txs@.contains(version.t_created) ==> !r,
        // no transaction sees a write of one that started after it
        version.t_created > tx_id ==> !r,
{
    if version.t_created == tx_id {
        if let Some(deleted) = version.t_deleted {
            if deleted == tx_id {
                return false;
            }
        }
        return true;
    }
    if active_txs.contains(&version.t_created) {
        return false;
    }
    if version.t_created > tx_id {
        return false;
    }
    if let Some(deleted) = version.t_deleted {
        if deleted == tx_id {
            return true;
        }
        if !active_txs.contains(&deleted) && deleted < tx_id {
            return false;
        }
    }
    true
}

} // verus!
