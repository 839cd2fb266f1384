use candid::Principal;
use safe_upgrades::{
    reconcile, ChangeDetails, ChangeRecord, ChunkedModule, Reconciliation, TargetStatus, WasmModule,
};

fn deployment(hash: &[u8]) -> ChangeRecord {
    ChangeRecord { details: ChangeDetails::CodeDeployment { module_hash: hash.to_vec() } }
}

fn status(total: u64, changes: Vec<ChangeRecord>) -> TargetStatus {
    TargetStatus { total_num_changes: total, recent_changes: changes }
}

#[test]
fn version_not_moved_means_retry() {
    assert_eq!(reconcile(5, &status(5, vec![deployment(&[1])]), &[1]), Reconciliation::RetryInstall);
    assert_eq!(reconcile(5, &status(4, vec![]), &[1]), Reconciliation::RetryInstall);
}

#[test]
fn one_matching_deployment_means_installed() {
    assert_eq!(reconcile(5, &status(6, vec![deployment(&[1, 2])]), &[1, 2]), Reconciliation::Installed);
}

#[test]
fn hash_mismatch_is_a_concurrent_change() {
    assert_eq!(reconcile(5, &status(6, vec![deployment(&[1, 3])]), &[1, 2]), Reconciliation::ConcurrentChange);
    assert_eq!(reconcile(5, &status(6, vec![deployment(&[1])]), &[1, 2]), Reconciliation::ConcurrentChange);
}

#[test]
fn version_jump_is_a_concurrent_change() {
    assert_eq!(reconcile(5, &status(7, vec![deployment(&[1])]), &[1]), Reconciliation::ConcurrentChange);
}

#[test]
fn wrong_change_count_is_a_concurrent_change() {
    assert_eq!(reconcile(5, &status(6, vec![]), &[1]), Reconciliation::ConcurrentChange);
    assert_eq!(
        reconcile(5, &status(6, vec![deployment(&[1]), deployment(&[1])]), &[1]),
        Reconciliation::ConcurrentChange
    );
}

#[test]
fn other_change_kind_is_a_concurrent_change() {
    let other = ChangeRecord { details: ChangeDetails::Other };
    assert_eq!(reconcile(5, &status(6, vec![other]), &[1]), Reconciliation::ConcurrentChange);
}

#[test]
fn largest_baseline_never_overflows() {
    assert_eq!(reconcile(u64::MAX, &status(u64::MAX, vec![]), &[1]), Reconciliation::RetryInstall);
}

#[test]
fn expected_hash_of_inline_bytes_is_their_digest() {
    let m = WasmModule::Bytes(b"abc".to_vec());
    let expected: Vec<u8> = vec![
        0xba, 0x78, 0x16, 0xbf, 0x8f, 0x01, 0xcf, 0xea, 0x41, 0x41, 0x40, 0xde, 0x5d, 0xae, 0x22, 0x23,
        0xb0, 0x03, 0x61, 0xa3, 0x96, 0x17, 0x7a, 0x9c, 0xb4, 0x10, 0xff, 0x61, 0xf2, 0x00, 0x15, 0xad,
    ];
    assert_eq!(m.expected_hash(), expected);
}

#[test]
fn expected_hash_of_chunked_module_is_the_given_hash() {
    let m = WasmModule::ChunkedModule(ChunkedModule {
        wasm_module_hash: vec![9u8; 32],
        store_canister_id: Principal::anonymous(),
        chunk_hashes_list: vec![],
    });
    assert_eq!(m.expected_hash(), vec![9u8; 32]);
}
