//! Fault-injection policies that decide, call by call, whether to let an
//! outbound call through or to fail it with a synthetic rejection.

use vstd::prelude::*;

use crate::types::UpgradeStage;

verus! {

/// A fault-injection decision on one outbound call.
#[derive(Debug, Clone, Copy, PartialEq, Eq, Structural)]
pub enum Verdict {
    /// Let the call through to the runtime.
    Allow,
    /// Fail the call with a synthetic, clean, transient rejection.
    Reject,
}

/// A fault-injection policy, consulted once per outbound call.
#[derive(Debug, Clone, Copy, PartialEq, Eq, Structural)]
pub enum ChaosPolicy {
    /// Allow every call.
    AllowAll,
    /// Reject every call.
    DenyAll,
    /// Alternate, starting with a rejection when `allow_next` is false: the
    /// flag flips on every call, and the call is allowed when it ends false.
    AllowEveryOther { allow_next: bool },
    /// Reject exactly the calls that belong to one stage of an upgrade.
    FailAtStage(UpgradeStage),
}

impl ChaosPolicy {
    /// The verdict on a call belonging to `stage` (`None` for a call outside
    /// any upgrade stage).
    pub open spec fn verdict_spec(self, stage: Option<UpgradeStage>) -> Verdict {
        match self {
            ChaosPolicy::AllowAll => Verdict::Allow,
            ChaosPolicy::DenyAll => Verdict::Reject,
            ChaosPolicy::AllowEveryOther { allow_next } => if allow_next {
                Verdict::Allow
            } else {
                Verdict::Reject
            },
            ChaosPolicy::FailAtStage(failing) => if stage == Some(failing) {
                Verdict::Reject
            } else {
                Verdict::Allow
            },
        }
    }

    /// The policy after it has judged a call.
    pub open spec fn after_call(self) -> ChaosPolicy {
        match self {
            ChaosPolicy::AllowEveryOther { allow_next } => ChaosPolicy::AllowEveryOther {
                allow_next: !allow_next,
            },
            _ => self,
        }
    }

    /// How many of `n` consecutive calls, each belonging to `stage`, are allowed.
    pub open spec fn allowed_count(self, stage: Option<UpgradeStage>, n: nat) -> nat
        decreases n,
    {
        if n == 0 {
            0
        } else {
            let rest = self.after_call().allowed_count(stage, (n - 1) as nat);
            if self.verdict_spec(stage) is Allow {
                rest + 1
            } else {
                rest
            }
        }
    }

    /// Judges an outbound call that belongs to `stage`, updating the policy's
    /// own state.
    pub fn allow(&mut self, stage: Option<UpgradeStage>) -> (r: Verdict)
        ensures
            r == old(self).verdict_spec(stage),
            *final(self) == old(self).after_call(),
    {
        match self {
            ChaosPolicy::AllowAll => Verdict::Allow,
            ChaosPolicy::DenyAll => Verdict::Reject,
            ChaosPolicy::AllowEveryOther { allow_next } => {
                let verdict = if *allow_next {
                    Verdict::Allow
                } else {
                    Verdict::Reject
                };
                *allow_next = !*allow_next;
                verdict
            },
            ChaosPolicy::FailAtStage(failing) => {
                let rejected = match stage {
                    Some(s) => s == *failing,
                    None => false,
                };
                if rejected {
                    Verdict::Reject
                } else {
                    Verdict::Allow
                }
            },
        }
    }
}

/// Of `2 * n` consecutive calls judged by the alternating policy, exactly `n`
/// are allowed, and the policy ends in the state it started in.
pub proof fn lemma_allow_every_other_halves(allow_next: bool, stage: Option<UpgradeStage>, n: nat)
    ensures
        (ChaosPolicy::AllowEveryOther { allow_next }).allowed_count(stage, 2 * n) == n,
    decreases n,
{
    if n > 0 {
        let p = ChaosPolicy::AllowEveryOther { allow_next };
        let q = p.after_call();
        let m = (2 * n - 1) as nat;
        lemma_allow_every_other_halves(allow_next, stage, (n - 1) as nat);
        assert(q.after_call() == p);
        assert((m - 1) as nat == 2 * (n - 1) as nat);
        assert(q.allowed_count(stage, m) == p.allowed_count(stage, (m - 1) as nat) + if q.verdict_spec(
            stage,
        ) is Allow {
            1nat
        } else {
            0nat
        });
        assert(p.allowed_count(stage, 2 * n) == q.allowed_count(stage, m) + if p.verdict_spec(
            stage,
        ) is Allow {
            1nat
        } else {
            0nat
        });
    }
}

/// Every call is allowed under the permissive policy, and none under the
/// denying one.
pub proof fn lemma_allow_all_and_deny_all(stage: Option<UpgradeStage>, n: nat)
    ensures
        ChaosPolicy::AllowAll.allowed_count(stage, n) == n,
        ChaosPolicy::DenyAll.allowed_count(stage, n) == 0,
    decreases n,
{
    if n > 0 {
        lemma_allow_all_and_deny_all(stage, (n - 1) as nat);
    }
}

} // verus!
