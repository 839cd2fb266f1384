//! Deciding, from the target's version history, whether an install whose
//! outcome was ambiguous took effect.

use vstd::prelude::*;

use crate::types::{ChangeDetails, ChangeRecord, TargetStatus};

verus! {

/// What a status report taken after an ambiguous install says about it.
#[derive(Debug, Clone, Copy, PartialEq, Eq, Structural)]
pub enum Reconciliation {
    /// The version has not moved: the install did not take effect.
    RetryInstall,
    /// Exactly our install took effect.
    Installed,
    /// Someone else changed the target meanwhile.
    ConcurrentChange,
}

impl ChangeRecord {
    /// Whether this change deployed a module with the given hash.
    pub open spec fn deploys(self, hash: Seq<u8>) -> bool {
        match self.details {
            ChangeDetails::CodeDeployment { module_hash } => module_hash@ == hash,
            ChangeDetails::Other => false,
        }
    }
}

/// The verdict on an ambiguous install, given the version recorded before it,
/// the target's status afterwards, and the hash of the module submitted.
pub open spec fn reconcile_spec(baseline: u64, status: TargetStatus, expected_hash: Seq<u8>) -> Reconciliation {
    if status.total_num_changes <= baseline {
        Reconciliation::RetryInstall
    } else if status.total_num_changes == baseline + 1 && status.recent_changes@.len() == 1
        && status.recent_changes@[0].deploys(expected_hash) {
        Reconciliation::Installed
    } else {
        Reconciliation::ConcurrentChange
    }
}

fn bytes_equal(a: &[u8], b: &[u8]) -> (r: bool)
    ensures
        r == (a@ == b@),
{
    if a.len() != b.len() {
        return false;
    }
    let mut i: usize = 0;
    while i < a.len()
        invariant
            a@.len() == b@.len(),
            0 <= i <= a@.len(),
            forall|j: int| 0 <= j < i ==> a@[j] == b@[j],
        decreases a@.len() - i,
    {
        if a[i] != b[i] {
            return false;
        }
        i = i + 1;
    }
    assert(a@ =~= b@);
    true
}

/// Reconciles an install whose outcome was ambiguous against the version
/// recorded before it (`baseline`) and a fresh status report: a version that
/// has not advanced means the install did not happen and may be retried; a
/// version advanced by exactly one, with exactly one reported change that
/// deployed a module of the expected hash, means it happened; anything else
/// means a third party changed the target concurrently.
pub fn reconcile(baseline: u64, status: &TargetStatus, expected_hash: &[u8]) -> (r: Reconciliation)
    ensures
        r == reconcile_spec(baseline, *status, expected_hash@),
        r is Installed <==> (status.total_num_changes == baseline + 1
            && status.recent_changes@.len() == 1 && status.recent_changes@[0].deploys(
            expected_hash@,
        )),
        r is RetryInstall <==> status.total_num_changes <= baseline,
        r is ConcurrentChange <==> !(r is Installed) && !(r is RetryInstall),
{
    let new_version = status.total_num_changes;
    if new_version <= baseline {
        return Reconciliation::RetryInstall;
    }
    if new_version - 1 != baseline || status.recent_changes.len() != 1 {
        return Reconciliation::ConcurrentChange;
    }
    match &status.recent_changes[0].details {
        ChangeDetails::CodeDeployment { module_hash } => {
            if bytes_equal(module_hash.as_slice(), expected_hash) {
                Reconciliation::Installed
            } else {
                Reconciliation::ConcurrentChange
            }
        },
        ChangeDetails::Other => Reconciliation::ConcurrentChange,
    }
}

} // verus!
