use candid::Principal;
use ic_cdk::call::{CallFailed, CallRejected};
use safe_upgrades::{
    Action, ChaosPolicy, Verdict, CallKind, ChangeDetails, ChangeRecord, ChunkedModule, Deadline, ErrorCause,
    RetryError, TargetStatus, UpgradeError, UpgradeErrorReason, UpgradeMachine, UpgradeStage,
    UpgradeStep, WasmModule,
};
use sha2::{Digest, Sha256};

/// How the simulated runtime answers one call.
#[derive(Clone, Copy, PartialEq)]
enum Fault {
    /// The call runs and succeeds.
    Pass,
    /// Cleanly rejected: the call did not run.
    Transient,
    /// Timed out without running.
    LostRequest,
    /// Timed out after running.
    LostReply,
    /// Rejected by the callee itself: not a clean rejection.
    Rejected,
}

struct Target {
    running: bool,
    total_num_changes: u64,
    history: Vec<Vec<u8>>,
}

impl Target {
    fn new() -> Self {
        Target { running: true, total_num_changes: 1, history: vec![vec![1u8; 32]] }
    }

    fn third_party_install(&mut self, bytes: &[u8]) {
        self.total_num_changes += 1;
        self.history.push(Sha256::digest(bytes).to_vec());
    }

    fn status(&self, n: Option<u64>) -> TargetStatus {
        let n = n.unwrap_or(0) as usize;
        let start = self.history.len().saturating_sub(n);
        let recent_changes = self.history[start..]
            .iter()
            .map(|h| ChangeRecord { details: ChangeDetails::CodeDeployment { module_hash: h.clone() } })
            .collect();
        TargetStatus { total_num_changes: self.total_num_changes, recent_changes }
    }
}

fn rejected(code: u32) -> CallFailed {
    CallFailed::CallRejected(CallRejected::with_rejection(code, "simulated".to_string()))
}

fn module_hash(m: &WasmModule) -> Vec<u8> {
    match m {
        WasmModule::Bytes(b) => Sha256::digest(b).to_vec(),
        WasmModule::ChunkedModule(c) => c.wasm_module_hash.clone(),
    }
}

/// Drives the machine against the simulated target. `keep` answers the
/// continuation predicate; `fault` decides how each call goes. Returns the
/// result and every call issued.
fn drive(
    m: &mut UpgradeMachine,
    target: &mut Target,
    mut keep: impl FnMut(usize) -> bool,
    mut fault: impl FnMut(CallKind, usize) -> Fault,
) -> (Result<(), UpgradeError>, Vec<CallKind>) {
    let mut calls = Vec::new();
    loop {
        let kind = match m.poll(keep(calls.len())) {
            Action::Finished(r) => return (r, calls),
            Action::Call(kind) => kind,
        };
        calls.push(kind);
        let f = fault(kind, calls.len());
        let runs = f == Fault::Pass || f == Fault::LostReply;
        if runs {
            match kind {
                CallKind::StopCanister => target.running = false,
                CallKind::StartCanister => target.running = true,
                CallKind::InstallCode | CallKind::InstallChunkedCode => {
                    target.total_num_changes += 1;
                    target.history.push(module_hash(&m.module));
                }
                CallKind::CanisterInfo { .. } => {}
            }
        }
        let reply = match f {
            Fault::Pass => match kind {
                CallKind::CanisterInfo { num_requested_changes } => {
                    m.on_status(target.status(num_requested_changes))
                }
                _ => m.on_done(),
            },
            Fault::Transient => {
                m.on_failure(rejected(2));
                None
            }
            Fault::LostRequest | Fault::LostReply => {
                m.on_failure(rejected(6));
                None
            }
            Fault::Rejected => {
                m.on_failure(rejected(5));
                None
            }
        };
        if let Some(r) = reply {
            return (r, calls);
        }
    }
}

fn machine() -> UpgradeMachine {
    UpgradeMachine::new(Principal::anonymous(), WasmModule::Bytes(b"new module".to_vec()), vec![])
}

fn stage_rank(s: UpgradeStage) -> u8 {
    match s {
        UpgradeStage::Stopping => 0,
        UpgradeStage::ObtainingInfo => 1,
        UpgradeStage::Installing => 2,
        UpgradeStage::Starting => 3,
    }
}

/// Calls other than the post-install query follow the stage order.
fn stages_in_order(calls: &[CallKind]) -> bool {
    let ranks: Vec<u8> = calls
        .iter()
        .filter(|c| **c != CallKind::CanisterInfo { num_requested_changes: Some(1) })
        .map(|c| stage_rank(c.stage()))
        .collect();
    ranks.windows(2).all(|w| w[0] <= w[1])
}

#[test]
fn upgrade_succeeds_without_faults() {
    let mut m = machine();
    let mut t = Target::new();
    let (r, calls) = drive(&mut m, &mut t, |_| true, |_, _| Fault::Pass);
    assert!(r.is_ok());
    assert_eq!(
        calls,
        vec![
            CallKind::StopCanister,
            CallKind::CanisterInfo { num_requested_changes: None },
            CallKind::InstallCode,
            CallKind::StartCanister,
        ]
    );
    assert_eq!(t.total_num_changes, 2);
    assert_eq!(t.history.len(), 2);
    assert!(t.running);
    assert!(m.done);
}

#[test]
fn chunked_module_uses_chunked_install() {
    let chunked = ChunkedModule {
        wasm_module_hash: vec![7u8; 32],
        store_canister_id: Principal::management_canister(),
        chunk_hashes_list: vec![vec![1u8; 32], vec![2u8; 32]],
    };
    let mut m = UpgradeMachine::new(Principal::anonymous(), WasmModule::ChunkedModule(chunked), vec![1, 2]);
    let mut t = Target::new();
    let (r, calls) = drive(&mut m, &mut t, |_| true, |k, n| {
        if k == CallKind::InstallChunkedCode && n == 3 { Fault::LostReply } else { Fault::Pass }
    });
    assert!(r.is_ok());
    assert!(calls.contains(&CallKind::InstallChunkedCode));
    assert_eq!(t.history.last(), Some(&vec![7u8; 32]));
    assert_eq!(t.history.len(), 2);
}

#[test]
fn fail_at_installing_retries_until_version_advances() {
    let mut m = machine();
    let mut t = Target::new();
    let mut installs = 0;
    let (r, calls) = drive(&mut m, &mut t, |_| true, |k, _| {
        if k == CallKind::InstallCode {
            installs += 1;
            match installs {
                1 => Fault::LostRequest,
                2 => Fault::Transient,
                3 => Fault::Transient,
                _ => Fault::LostReply,
            }
        } else {
            Fault::Pass
        }
    });
    assert!(r.is_ok());
    assert_eq!(installs, 4);
    assert_eq!(t.history.len(), 2);
    assert_eq!(t.total_num_changes, 2);
    assert_eq!(t.history[1], Sha256::digest(b"new module").to_vec());
    assert_eq!(calls.iter().filter(|c| **c == CallKind::CanisterInfo { num_requested_changes: Some(1) }).count(), 2);
    assert_eq!(calls.last(), Some(&CallKind::StartCanister));
    assert!(stages_in_order(&calls));
}

#[test]
fn concurrent_change_aborts_without_starting() {
    let mut m = machine();
    let mut t = Target::new();
    let mut calls = Vec::new();
    let r = loop {
        let kind = match m.poll(true) {
            Action::Finished(r) => break r,
            Action::Call(kind) => kind,
        };
        calls.push(kind);
        let reply = match kind {
            CallKind::StopCanister => {
                t.running = false;
                m.on_done()
            }
            CallKind::StartCanister => {
                t.running = true;
                m.on_done()
            }
            CallKind::CanisterInfo { num_requested_changes } => {
                m.on_status(t.status(num_requested_changes))
            }
            CallKind::InstallCode | CallKind::InstallChunkedCode => {
                // Our install times out while someone else installs other code.
                t.third_party_install(b"someone else's module");
                m.on_failure(rejected(6));
                None
            }
        };
        if let Some(r) = reply {
            break r;
        }
    };
    let err = r.unwrap_err();
    assert_eq!(err.stage, UpgradeStage::Installing);
    assert!(matches!(err.reason, UpgradeErrorReason::ConcurrentChangeDetected));
    assert_eq!(calls.len(), 4);
    assert!(!calls.contains(&CallKind::StartCanister));
    assert!(!t.running);
    assert!(m.done);
}

#[test]
fn deadline_in_the_past_fails_before_any_call() {
    let deadline = Deadline::TimeOrStopping(1_000);
    let now = 2_000;
    let mut m = machine();
    let mut t = Target::new();
    let (r, calls) = drive(&mut m, &mut t, |_| deadline.keep_going(now, false), |_, _| Fault::Pass);
    let err = r.unwrap_err();
    assert_eq!(err.stage, UpgradeStage::Stopping);
    assert!(matches!(err.reason, UpgradeErrorReason::RetryError(RetryError::StatusUnknown(ErrorCause::GaveUpRetrying))));
    assert!(calls.is_empty());
    assert_eq!(t.total_num_changes, 1);
    assert_eq!(t.history.len(), 1);
}

#[test]
fn deadline_during_install_leaves_version_unchanged() {
    let mut m = machine();
    let mut t = Target::new();
    let (r, calls) = drive(&mut m, &mut t, |n| n < 6, |k, _| {
        if k.stage() == UpgradeStage::Installing { Fault::Transient } else { Fault::Pass }
    });
    let err = r.unwrap_err();
    assert_eq!(err.stage, UpgradeStage::Installing);
    assert!(matches!(err.reason, UpgradeErrorReason::RetryError(RetryError::CallFailed(ErrorCause::GaveUpRetrying))));
    assert_eq!(calls.len(), 6);
    assert_eq!(t.total_num_changes, 1);
    assert!(!t.running);
}

#[test]
fn deadline_during_start_keeps_the_install() {
    let mut m = machine();
    let mut t = Target::new();
    let (r, calls) = drive(&mut m, &mut t, |n| n < 8, |k, _| {
        if k == CallKind::StartCanister { Fault::LostRequest } else { Fault::Pass }
    });
    let err = r.unwrap_err();
    assert_eq!(err.stage, UpgradeStage::Starting);
    assert!(matches!(err.reason, UpgradeErrorReason::RetryError(RetryError::StatusUnknown(ErrorCause::GaveUpRetrying))));
    assert_eq!(calls.len(), 8);
    assert_eq!(t.total_num_changes, 2);
    assert!(!t.running);
}

#[test]
fn upgrade_respects_deadline_at_each_stage() {
    let stages = [
        UpgradeStage::Stopping,
        UpgradeStage::ObtainingInfo,
        UpgradeStage::Installing,
        UpgradeStage::Starting,
    ];
    for stage in stages {
        let mut policy = ChaosPolicy::FailAtStage(stage);
        let mut m = machine();
        let mut t = Target::new();
        let (r, calls) = drive(&mut m, &mut t, |n| n < 10, |k, _| match policy.allow(Some(k.stage())) {
            Verdict::Allow => Fault::Pass,
            Verdict::Reject => Fault::Transient,
        });
        let err = r.unwrap_err();
        assert_eq!(err.stage, stage);
        if stage == UpgradeStage::Installing {
            assert!(matches!(err.reason, UpgradeErrorReason::RetryError(RetryError::CallFailed(ErrorCause::GaveUpRetrying))));
        } else {
            assert!(matches!(err.reason, UpgradeErrorReason::RetryError(RetryError::StatusUnknown(ErrorCause::GaveUpRetrying))));
        }
        assert_eq!(calls.len(), 10);
        assert!(stages_in_order(&calls));
        let (version, versions) = if stage == UpgradeStage::Starting { (2, 2) } else { (1, 1) };
        assert_eq!(t.total_num_changes, version);
        assert_eq!(t.history.len(), versions);
        assert_eq!(t.running, stage == UpgradeStage::Stopping);
    }
}

#[test]
fn callee_rejections_are_retried_for_idempotent_stages() {
    let mut m = machine();
    let mut t = Target::new();
    let mut rejected_stops = 0;
    let (r, calls) = drive(&mut m, &mut t, |_| true, |k, _| {
        if k == CallKind::StopCanister && rejected_stops < 3 {
            rejected_stops += 1;
            Fault::Rejected
        } else {
            Fault::Pass
        }
    });
    assert!(r.is_ok());
    assert_eq!(calls.iter().filter(|c| **c == CallKind::StopCanister).count(), 4);
    assert_eq!(t.history.len(), 2);
}

#[test]
fn upgrade_works_with_allow_every_other_policy() {
    let mut policy = ChaosPolicy::AllowEveryOther { allow_next: false };
    let mut m = machine();
    let mut t = Target::new();
    let (r, calls) = drive(&mut m, &mut t, |n| n < 50, |_, _| match policy.allow(None) {
        Verdict::Allow => Fault::Pass,
        Verdict::Reject => Fault::Transient,
    });
    assert!(r.is_ok());
    assert_eq!(calls.len(), 8);
    assert_eq!(t.total_num_changes, 2);
    assert_eq!(t.history.len(), 2);
    assert_eq!(t.history[1], Sha256::digest(b"new module").to_vec());
    assert!(t.running);
}

#[test]
fn machine_starts_stopping() {
    let m = machine();
    assert_eq!(m.step, UpgradeStep::Stop);
    assert!(!m.awaiting_reply);
    assert!(!m.done);
}

#[test]
fn fail_at_installing_policy_then_recovery_succeeds() {
    // The policy rejects every install until it is replaced; the replacement
    // lets calls through, and the first install it lets through loses its reply.
    let mut policy = ChaosPolicy::FailAtStage(UpgradeStage::Installing);
    let mut rejected_installs = 0;
    let mut lost = false;
    let mut m = machine();
    let mut t = Target::new();
    let (r, calls) = drive(&mut m, &mut t, |_| true, |k, _| {
        if rejected_installs == 3 {
            policy = ChaosPolicy::AllowAll;
            rejected_installs += 1;
        }
        match policy.allow(Some(k.stage())) {
            Verdict::Reject => {
                rejected_installs += 1;
                Fault::Transient
            }
            Verdict::Allow if k == CallKind::InstallCode && !lost => {
                lost = true;
                Fault::LostReply
            }
            Verdict::Allow => Fault::Pass,
        }
    });
    assert!(r.is_ok());
    assert_eq!(calls.iter().filter(|c| **c == CallKind::InstallCode).count(), 4);
    assert_eq!(t.history.len(), 2);
    assert_eq!(t.total_num_changes, 2);
    assert!(t.running);
    assert!(stages_in_order(&calls));
}
