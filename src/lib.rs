//! Safe, cancellable upgrades of a target canister.
//!
//! The library is a set of verified state machines: the retry discipline for
//! idempotent and non-idempotent calls, the upgrade orchestrator that stops,
//! inspects, installs and restarts a target, and the fault-injection policies
//! used to exercise both. Whoever embeds the library performs the calls the
//! machines ask for and hands the replies back.

pub mod chaos;
pub mod deadline;
pub mod gateway;
pub mod hash;
pub mod reconcile;
pub mod retry;
pub mod types;
pub mod upgrade;

pub use chaos::{ChaosPolicy, Verdict};
pub use deadline::Deadline;
pub use gateway::{classify_failure, FailureClass};
pub use reconcile::{reconcile, Reconciliation};
pub use retry::{ErrorCause, Idempotency, RetryError, RetryLoop, RetryNext, RetryStep, RunEnd};
pub use types::{
    CallKind, CanisterId, ChangeDetails, ChangeRecord, ChunkedModule, TargetStatus, UpgradeStage,
    WasmModule,
};
pub use upgrade::{Action, Move, UpgradeError, UpgradeErrorReason, UpgradeMachine, UpgradeStep};
