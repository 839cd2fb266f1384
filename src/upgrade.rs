//! The upgrade orchestrator: stop, record the version, install, start.

use vstd::prelude::*;

use crate::gateway::{class_of, classify_failure, FailureClass};
use crate::reconcile::{reconcile, reconcile_spec, Reconciliation};
use crate::retry::{Idempotency, RetryError, RetryLoop, RetryNext, RetryStep};
use crate::types::{CallKind, CanisterId, TargetStatus, UpgradeStage, WasmModule};

verus! {

/// Why an upgrade failed.
#[derive(Debug, Clone)]
pub enum UpgradeErrorReason {
    /// A call of the stage failed for good, or the predicate said stop.
    RetryError(RetryError),
    /// A third party changed the target while our install was in doubt.
    ConcurrentChangeDetected,
}

/// The failure of an upgrade, tagged with the stage it happened in.
#[derive(Debug, Clone)]
pub struct UpgradeError {
    pub stage: UpgradeStage,
    pub reason: UpgradeErrorReason,
}

/// The operation the upgrade is carrying out.
#[derive(Debug, Clone, Copy, PartialEq, Eq, Structural)]
pub enum UpgradeStep {
    /// Stopping the target.
    Stop,
    /// Recording the target's version before the install.
    Info,
    /// Installing the new module.
    Install,
    /// Querying the target after an ambiguous install.
    Reconcile,
    /// Starting the target again.
    Start,
}

/// What the embedder is to do next.
pub enum Action {
    /// Issue this call to the management canister and report its reply.
    Call(CallKind),
    /// The upgrade is over, with this result.
    Finished(Result<(), UpgradeError>),
}

/// One move of an upgrade, as the laws over whole runs see it.
#[derive(Debug, Clone, Copy, PartialEq, Eq, Structural)]
pub enum Move {
    /// The predicate was asked, and answered this.
    Poll(bool),
    /// A success reply was handed back; a post-install query is read through
    /// its reconciliation verdict.
    Success(Reconciliation),
    /// A failed attempt was handed back, with the retry discipline's verdict.
    Failure(RetryNext),
}

impl UpgradeStep {
    /// The stage the operation belongs to.
    pub open spec fn stage_spec(self) -> UpgradeStage {
        match self {
            UpgradeStep::Stop => UpgradeStage::Stopping,
            UpgradeStep::Info => UpgradeStage::ObtainingInfo,
            UpgradeStep::Install => UpgradeStage::Installing,
            UpgradeStep::Reconcile => UpgradeStage::Installing,
            UpgradeStep::Start => UpgradeStage::Starting,
        }
    }

    /// The retry discipline of the operation's call.
    pub open spec fn idempotency_spec(self) -> Idempotency {
        if self is Install {
            Idempotency::NonIdempotent
        } else {
            Idempotency::Idempotent
        }
    }

    /// The call that carries out the operation for the given module.
    pub open spec fn call_spec(self, module: WasmModule) -> CallKind {
        match self {
            UpgradeStep::Stop => CallKind::StopCanister,
            UpgradeStep::Info => CallKind::CanisterInfo { num_requested_changes: None },
            UpgradeStep::Install => if module is Bytes {
                CallKind::InstallCode
            } else {
                CallKind::InstallChunkedCode
            },
            UpgradeStep::Reconcile => CallKind::CanisterInfo { num_requested_changes: Some(1) },
            UpgradeStep::Start => CallKind::StartCanister,
        }
    }

    /// The operation that follows a success reply to this one; `None` once
    /// the upgrade is complete. A success of the post-install query is read
    /// through its reconciliation verdict.
    pub open spec fn after_success(self, verdict: Reconciliation) -> Option<UpgradeStep> {
        match self {
            UpgradeStep::Stop => Some(UpgradeStep::Info),
            UpgradeStep::Info => Some(UpgradeStep::Install),
            UpgradeStep::Install => Some(UpgradeStep::Start),
            UpgradeStep::Reconcile => match verdict {
                Reconciliation::RetryInstall => Some(UpgradeStep::Install),
                Reconciliation::Installed => Some(UpgradeStep::Start),
                Reconciliation::ConcurrentChange => None,
            },
            UpgradeStep::Start => None,
        }
    }

    /// The operation that follows a failed attempt: the same one again, or,
    /// after an install of unknown status, the query that reconciles it.
    pub open spec fn after_failure(self, next: RetryNext) -> UpgradeStep {
        if next is StatusUnknown && self is Install {
            UpgradeStep::Reconcile
        } else {
            self
        }
    }

    fn stage(&self) -> (r: UpgradeStage)
        ensures
            r == self.stage_spec(),
    {
        match self {
            UpgradeStep::Stop => UpgradeStage::Stopping,
            UpgradeStep::Info => UpgradeStage::ObtainingInfo,
            UpgradeStep::Install => UpgradeStage::Installing,
            UpgradeStep::Reconcile => UpgradeStage::Installing,
            UpgradeStep::Start => UpgradeStage::Starting,
        }
    }

    fn retry_loop(&self) -> (r: RetryLoop)
        ensures
            r.idempotency == self.idempotency_spec(),
    {
        match self {
            UpgradeStep::Install => RetryLoop::new(Idempotency::NonIdempotent),
            _ => RetryLoop::new(Idempotency::Idempotent),
        }
    }
}

/// One upgrade attempt of a target canister, as a state machine.
///
/// The embedder repeatedly asks the continuation predicate and hands its
/// answer to `poll`; when `poll` asks for a call, the embedder issues it and
/// hands the reply to `on_done`, `on_status` or `on_failure`, until the
/// upgrade finishes.
pub struct UpgradeMachine {
    /// The canister being upgraded.
    pub target: CanisterId,
    /// The module to install.
    pub module: WasmModule,
    /// The argument for the install.
    pub arg: Vec<u8>,
    /// The operation in progress.
    pub step: UpgradeStep,
    /// Retry state of the operation's call.
    pub retry: RetryLoop,
    /// The version recorded before the install.
    pub baseline: u64,
    /// Whether a call has been issued and its reply not yet handed back.
    pub awaiting_reply: bool,
    /// Whether the upgrade has finished.
    pub done: bool,
}

impl UpgradeMachine {
    /// The retry state matches the operation in progress.
    pub open spec fn wf(self) -> bool {
        self.retry.idempotency == self.step.idempotency_spec()
    }

    /// Ready to consult the predicate before the next attempt.
    pub open spec fn ready(self) -> bool {
        self.wf() && !self.awaiting_reply && !self.done
    }

    /// Waiting for the reply to an issued call.
    pub open spec fn waiting(self) -> bool {
        self.wf() && self.awaiting_reply && !self.done
    }

    /// The machine moved on to `step` with a fresh retry state, or finished.
    pub open spec fn moved_to(self, old: UpgradeMachine, next: Option<UpgradeStep>) -> bool {
        &&& self.target == old.target
        &&& self.module == old.module
        &&& self.arg == old.arg
        &&& !self.awaiting_reply
        &&& match next {
            Some(step) => {
                &&& self.step == step
                &&& self.retry.idempotency == step.idempotency_spec()
                &&& !self.done
            },
            None => self.done && self.step == old.step,
        }
    }

    /// The rank of the stage in progress.
    pub open spec fn rank(self) -> nat {
        self.step.stage_spec().rank()
    }

    /// `new` follows `self` by the move `mv`.
    pub open spec fn moves(self, mv: Move, new: UpgradeMachine) -> bool {
        match mv {
            Move::Poll(keep_going) => {
                &&& self.ready()
                &&& new.target == self.target
                &&& new.module == self.module
                &&& new.arg == self.arg
                &&& new.step == self.step
                &&& new.retry == self.retry
                &&& new.baseline == self.baseline
                &&& keep_going ==> new.waiting()
                &&& !keep_going ==> new.wf() && new.done && !new.awaiting_reply
            },
            Move::Success(verdict) => {
                &&& self.waiting()
                &&& new.moved_to(self, self.step.after_success(verdict))
            },
            Move::Failure(next) => {
                &&& self.waiting()
                &&& new.target == self.target
                &&& new.module == self.module
                &&& new.arg == self.arg
                &&& new.baseline == self.baseline
                &&& new.ready()
                &&& new.step == self.step.after_failure(next)
            },
        }
    }

    /// A machine about to stop `target`, then install `module` with `arg`.
    pub fn new(target: CanisterId, module: WasmModule, arg: Vec<u8>) -> (r: UpgradeMachine)
        ensures
            r.target == target,
            r.module == module,
            r.arg == arg,
            r.step == UpgradeStep::Stop,
            r.retry == (RetryLoop { idempotency: Idempotency::Idempotent }),
            r.ready(),
    {
        UpgradeMachine {
            target,
            module,
            arg,
            step: UpgradeStep::Stop,
            retry: RetryLoop::new(Idempotency::Idempotent),
            baseline: 0,
            awaiting_reply: false,
            done: false,
        }
    }

    /// Before each attempt: with the predicate's answer, either the call to
    /// issue, or, when the predicate says stop, the failure of the stage in
    /// progress. No call is issued once the predicate has said stop.
    pub fn poll(&mut self, keep_going: bool) -> (r: Action)
        requires
            old(self).ready(),
        ensures
            final(self).target == old(self).target,
            final(self).module == old(self).module,
            final(self).arg == old(self).arg,
            final(self).step == old(self).step,
            final(self).retry == old(self).retry,
            final(self).baseline == old(self).baseline,
            final(self).wf(),
            old(self).moves(Move::Poll(keep_going), *final(self)),
            keep_going ==> r == Action::Call(old(self).step.call_spec(old(self).module))
                && final(self).waiting(),
            !keep_going ==> r == Action::Finished(
                Err(
                    UpgradeError {
                        stage: old(self).step.stage_spec(),
                        reason: UpgradeErrorReason::RetryError(old(self).retry.give_up_error()),
                    },
                ),
            ) && final(self).done && !final(self).awaiting_reply,
    {
        match self.retry.before_attempt(keep_going) {
            Some(err) => {
                self.done = true;
                Action::Finished(
                    Err(
                        UpgradeError {
                            stage: self.step.stage(),
                            reason: UpgradeErrorReason::RetryError(err),
                        },
                    ),
                )
            },
            None => {
                self.awaiting_reply = true;
                let call = match self.step {
                    UpgradeStep::Stop => CallKind::StopCanister,
                    UpgradeStep::Info => CallKind::CanisterInfo { num_requested_changes: None },
                    UpgradeStep::Install => match self.module {
                        WasmModule::Bytes(_) => CallKind::InstallCode,
                        WasmModule::ChunkedModule(_) => CallKind::InstallChunkedCode,
                    },
                    UpgradeStep::Reconcile => CallKind::CanisterInfo {
                        num_requested_changes: Some(1),
                    },
                    UpgradeStep::Start => CallKind::StartCanister,
                };
                Action::Call(call)
            },
        }
    }

    /// Hands back the success reply of a stop, install or start call. The
    /// machine moves on to the next operation; after the start it finishes
    /// with success (`Some(Ok(()))`).
    pub fn on_done(&mut self) -> (r: Option<Result<(), UpgradeError>>)
        requires
            old(self).waiting(),
            old(self).step is Stop || old(self).step is Install || old(self).step is Start,
        ensures
            final(self).wf(),
            final(self).baseline == old(self).baseline,
            final(self).moved_to(
                *old(self),
                old(self).step.after_success(Reconciliation::Installed),
            ),
            old(self).moves(Move::Success(Reconciliation::Installed), *final(self)),
            old(self).step is Start ==> r == Some(Ok::<(), UpgradeError>(())),
            !(old(self).step is Start) ==> r is None,
    {
        self.awaiting_reply = false;
        match self.step {
            UpgradeStep::Start => {
                self.done = true;
                Some(Ok(()))
            },
            _ => {
                let next = if self.step == UpgradeStep::Stop {
                    UpgradeStep::Info
                } else {
                    UpgradeStep::Start
                };
                self.step = next;
                self.retry = next.retry_loop();
                None
            },
        }
    }

    /// Hands back the status reply of a `canister_info` call. Before the
    /// install it records the version as the baseline; after an ambiguous
    /// install it reconciles: retry the install, move on to the start, or
    /// fail with a concurrent change detected.
    pub fn on_status(&mut self, status: TargetStatus) -> (r: Option<Result<(), UpgradeError>>)
        requires
            old(self).waiting(),
            old(self).step is Info || old(self).step is Reconcile,
        ensures
            final(self).wf(),
            old(self).moves(
                Move::Success(
                    reconcile_spec(old(self).baseline, status, old(self).module.expected_hash_spec()),
                ),
                *final(self),
            ),
            old(self).step is Info ==> final(self).baseline == status.total_num_changes
                && final(self).moved_to(*old(self), Some(UpgradeStep::Install)) && r is None,
            old(self).step is Reconcile ==> {
                let verdict = reconcile_spec(
                    old(self).baseline,
                    status,
                    old(self).module.expected_hash_spec(),
                );
                &&& final(self).baseline == old(self).baseline
                &&& final(self).moved_to(*old(self), old(self).step.after_success(verdict))
                &&& verdict is ConcurrentChange ==> r == Some(
                    Err::<(), UpgradeError>(
                        UpgradeError {
                            stage: UpgradeStage::Installing,
                            reason: UpgradeErrorReason::ConcurrentChangeDetected,
                        },
                    ),
                )
                &&& !(verdict is ConcurrentChange) ==> r is None
            },
    {
        self.awaiting_reply = false;
        if self.step == UpgradeStep::Info {
            self.baseline = status.total_num_changes;
            self.step = UpgradeStep::Install;
            self.retry = RetryLoop::new(Idempotency::NonIdempotent);
            return None;
        }
        let expected = self.module.expected_hash();
        match reconcile(self.baseline, &status, expected.as_slice()) {
            Reconciliation::RetryInstall => {
                self.step = UpgradeStep::Install;
                self.retry = RetryLoop::new(Idempotency::NonIdempotent);
                None
            },
            Reconciliation::Installed => {
                self.step = UpgradeStep::Start;
                self.retry = RetryLoop::new(Idempotency::Idempotent);
                None
            },
            Reconciliation::ConcurrentChange => {
                self.done = true;
                Some(
                    Err(
                        UpgradeError {
                            stage: UpgradeStage::Installing,
                            reason: UpgradeErrorReason::ConcurrentChangeDetected,
                        },
                    ),
                )
            },
        }
    }

    /// Hands back a failed attempt, already classified. The call is retried
    /// as its retry discipline says, and an install of unknown status leads to
    /// the query that reconciles it; a failure never ends the upgrade by itself.
    pub fn on_classified_failure(&mut self, class: FailureClass, e: ic_cdk::call::CallFailed)
        requires
            old(self).waiting(),
        ensures
            final(self).ready(),
            final(self).target == old(self).target,
            final(self).module == old(self).module,
            final(self).arg == old(self).arg,
            final(self).baseline == old(self).baseline,
            final(self).step == old(self).step.after_failure(old(self).retry.failure_next(class)),
            old(self).moves(Move::Failure(old(self).retry.failure_next(class)), *final(self)),
    {
        self.awaiting_reply = false;
        match self.retry.on_failure(class, e) {
            RetryStep::Retry => {},
            RetryStep::Failed(_) => {
                self.step = UpgradeStep::Reconcile;
                self.retry = RetryLoop::new(Idempotency::Idempotent);
            },
        }
    }

    /// Hands back a failed attempt. It is classified as the runtime reports it
    /// (definite for a clean rejection, ambiguous otherwise) and handled as
    /// `on_classified_failure` does for that class.
    pub fn on_failure(&mut self, e: ic_cdk::call::CallFailed)
        requires
            old(self).waiting(),
        ensures
            final(self).ready(),
            final(self).target == old(self).target,
            final(self).module == old(self).module,
            final(self).arg == old(self).arg,
            final(self).baseline == old(self).baseline,
            final(self).step == old(self).step.after_failure(
                old(self).retry.failure_next(class_of(e)),
            ),
            old(self).moves(Move::Failure(old(self).retry.failure_next(class_of(e))), *final(self)),
    {
        let class = classify_failure(&e);
        self.on_classified_failure(class, e)
    }
}

/// Stages are passed in order. The call issued for an operation belongs to the
/// operation's stage or an earlier one; a failed attempt never leaves the stage;
/// only a success reply moves the upgrade on, and then by at most one stage.
pub proof fn lemma_monotonic_stages(
    step: UpgradeStep,
    module: WasmModule,
    verdict: Reconciliation,
    next: RetryNext,
)
    ensures
        step.call_spec(module).stage_spec().rank() <= step.stage_spec().rank(),
        step.after_failure(next).stage_spec() == step.stage_spec(),
        step.after_success(verdict) is Some ==> step.stage_spec().rank()
            <= step.after_success(verdict)->0.stage_spec().rank() <= step.stage_spec().rank() + 1,
{
}

/// One move never goes back a stage, goes forward by at most one, and goes
/// forward only on a success reply.
pub proof fn lemma_move_rank(m: UpgradeMachine, mv: Move, n: UpgradeMachine)
    requires
        m.moves(mv, n),
    ensures
        m.rank() <= n.rank() <= m.rank() + 1,
        n.rank() > m.rank() ==> mv is Success,
{
    match mv {
        Move::Success(verdict) => {
            lemma_monotonic_stages(m.step, m.module, verdict, RetryNext::Again);
        },
        Move::Failure(next) => {
            lemma_monotonic_stages(m.step, m.module, Reconciliation::Installed, next);
        },
        Move::Poll(_) => {},
    }
}

/// Stages are passed in order along a whole run: `ms[i + 1]` follows `ms[i]`
/// by the move `mvs[i]`. The stage never goes back; it goes forward by one
/// stage at a time and only on a success reply; and every call issued belongs
/// to the stage in progress or an earlier one.
pub proof fn lemma_stages_in_order(ms: Seq<UpgradeMachine>, mvs: Seq<Move>)
    requires
        ms.len() == mvs.len() + 1,
        forall|i: int| 0 <= i < mvs.len() ==> #[trigger] ms[i].moves(mvs[i], ms[i + 1]),
    ensures
        forall|i: int, j: int| 0 <= i <= j < ms.len() ==> ms[i].rank() <= ms[j].rank(),
        forall|i: int|
            0 <= i < mvs.len() && ms[i + 1].rank() > ms[i].rank() ==> #[trigger] mvs[i] is Success
                && ms[i + 1].rank() == ms[i].rank() + 1,
        forall|i: int|
            0 <= i < mvs.len() && #[trigger] mvs[i] == Move::Poll(true) ==> ms[i].step.call_spec(
                ms[i].module,
            ).stage_spec().rank() <= ms[i].rank(),
    decreases mvs.len(),
{
    if mvs.len() > 0 {
        let k = mvs.len() - 1;
        let ms0 = ms.drop_last();
        let mvs0 = mvs.drop_last();
        assert forall|i: int| 0 <= i < mvs0.len() implies #[trigger] ms0[i].moves(
            mvs0[i],
            ms0[i + 1],
        ) by {
            assert(ms[i].moves(mvs[i], ms[i + 1]));
        }
        lemma_stages_in_order(ms0, mvs0);
        assert(ms[k].moves(mvs[k], ms[k + 1]));
        lemma_move_rank(ms[k], mvs[k], ms[k + 1]);
        assert forall|i: int, j: int| 0 <= i <= j < ms.len() implies ms[i].rank()
            <= ms[j].rank() by {
            if j < ms.len() - 1 {
                assert(ms0[i] == ms[i] && ms0[j] == ms[j]);
            } else if i < j {
                assert(ms0[i] == ms[i] && ms0[k] == ms[k]);
            }
        }
        assert forall|i: int|
            0 <= i < mvs.len() && ms[i + 1].rank() > ms[i].rank() implies #[trigger] mvs[i] is Success
            && ms[i + 1].rank() == ms[i].rank() + 1 by {
            assert(ms[i].moves(mvs[i], ms[i + 1]));
            lemma_move_rank(ms[i], mvs[i], ms[i + 1]);
        }
        assert forall|i: int|
            0 <= i < mvs.len() && #[trigger] mvs[i] == Move::Poll(true) implies ms[i].step.call_spec(
            ms[i].module,
        ).stage_spec().rank() <= ms[i].rank() by {
            lemma_monotonic_stages(ms[i].step, ms[i].module, Reconciliation::Installed, RetryNext::Again);
        }
    }
}

/// A run that is still in, or ended in, the stopping or version-recording
/// stage never issued an install call: the target's code is untouched.
pub proof fn lemma_no_install_before_installing(ms: Seq<UpgradeMachine>, mvs: Seq<Move>)
    requires
        ms.len() == mvs.len() + 1,
        forall|i: int| 0 <= i < mvs.len() ==> #[trigger] ms[i].moves(mvs[i], ms[i + 1]),
        ms.last().rank() <= UpgradeStage::ObtainingInfo.rank(),
    ensures
        forall|i: int|
            0 <= i < mvs.len() && #[trigger] mvs[i] == Move::Poll(true) ==> !(ms[i].step.call_spec(
                ms[i].module,
            ) is InstallCode) && !(ms[i].step.call_spec(ms[i].module) is InstallChunkedCode),
{
    lemma_stages_in_order(ms, mvs);
    assert forall|i: int|
        0 <= i < mvs.len() && #[trigger] mvs[i] == Move::Poll(true) implies !(ms[i].step.call_spec(
        ms[i].module,
    ) is InstallCode) && !(ms[i].step.call_spec(ms[i].module) is InstallChunkedCode) by {
        assert(ms[i].rank() <= ms[ms.len() - 1].rank());
    }
}

} // verus!
