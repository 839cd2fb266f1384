//! The data the upgrade works on.

use vstd::prelude::*;

verus! {

/// The principal of a canister on the Internet Computer.
pub type CanisterId = candid::Principal;

#[verifier::external_type_specification]
#[verifier::external_body]
pub struct ExPrincipal(candid::Principal);

/// Relies on the `Clone` of `Principal`, a `Copy` type: the copy is the same
/// principal.
pub assume_specification[ <candid::Principal as Clone>::clone ](p: &candid::Principal) -> (r:
    candid::Principal)
    ensures
        r == *p,
;

/// Describes the stage of the upgrade during which an error occurred
/// or after which we could not confirm status.
#[derive(Debug, Clone, Copy, PartialEq, Eq, Structural)]
pub enum UpgradeStage {
    Stopping,
    ObtainingInfo,
    Installing,
    Starting,
}

impl UpgradeStage {
    /// Position of the stage in the upgrade sequence.
    pub open spec fn rank(self) -> nat {
        match self {
            UpgradeStage::Stopping => 0,
            UpgradeStage::ObtainingInfo => 1,
            UpgradeStage::Installing => 2,
            UpgradeStage::Starting => 3,
        }
    }
}

/// Holds the meta-information needed for a chunked module install.
#[derive(Debug, Clone)]
pub struct ChunkedModule {
    /// SHA-256 hash of the entire module to be installed.
    pub wasm_module_hash: Vec<u8>,
    /// The canister storing the chunks (must be on the same subnet).
    pub store_canister_id: CanisterId,
    /// The list of chunk hashes that compose the module.
    pub chunk_hashes_list: Vec<Vec<u8>>,
}

/// The module to be installed.
#[derive(Debug, Clone)]
pub enum WasmModule {
    /// A small module that can be installed in a single message.
    Bytes(Vec<u8>),
    /// A large module whose chunks have already been uploaded.
    ChunkedModule(ChunkedModule),
}

/// What a recorded change of a canister did.
#[derive(Debug, Clone)]
pub enum ChangeDetails {
    /// New code was deployed; the hash of the installed module.
    CodeDeployment { module_hash: Vec<u8> },
    /// Any other kind of change (creation, controllers, uninstall, ...).
    Other,
}

/// One recorded change in a canister's history.
#[derive(Debug, Clone)]
pub struct ChangeRecord {
    pub details: ChangeDetails,
}

/// What a status query of the target reports.
#[derive(Debug, Clone)]
pub struct TargetStatus {
    /// Total number of changes ever applied to the target.
    pub total_num_changes: u64,
    /// The most recent changes, oldest first.
    pub recent_changes: Vec<ChangeRecord>,
}

/// The management-canister calls the upgrade issues.
#[derive(Debug, Clone, Copy, PartialEq, Eq, Structural)]
pub enum CallKind {
    /// `stop_canister` on the target.
    StopCanister,
    /// `canister_info` on the target, asking for this many recent changes.
    CanisterInfo { num_requested_changes: Option<u64> },
    /// `install_code` in upgrade mode with the inline module.
    InstallCode,
    /// `install_chunked_code` in upgrade mode with the pre-uploaded chunks.
    InstallChunkedCode,
    /// `start_canister` on the target.
    StartCanister,
}

impl CallKind {
    /// The stage that a call of this kind characterises.
    pub open spec fn stage_spec(self) -> UpgradeStage {
        match self {
            CallKind::StopCanister => UpgradeStage::Stopping,
            CallKind::CanisterInfo { .. } => UpgradeStage::ObtainingInfo,
            CallKind::InstallCode => UpgradeStage::Installing,
            CallKind::InstallChunkedCode => UpgradeStage::Installing,
            CallKind::StartCanister => UpgradeStage::Starting,
        }
    }

    /// The stage that a call of this kind characterises.
    pub fn stage(&self) -> (r: UpgradeStage)
        ensures
            r == self.stage_spec(),
    {
        match self {
            CallKind::StopCanister => UpgradeStage::Stopping,
            CallKind::CanisterInfo { .. } => UpgradeStage::ObtainingInfo,
            CallKind::InstallCode => UpgradeStage::Installing,
            CallKind::InstallChunkedCode => UpgradeStage::Installing,
            CallKind::StartCanister => UpgradeStage::Starting,
        }
    }
}

} // verus!
