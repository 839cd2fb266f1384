//! The retry discipline for idempotent and non-idempotent calls, and a model
//! of whole runs of attempts with the laws it obeys.

use vstd::prelude::*;

use crate::gateway::FailureClass;

verus! {

/// Whether an operation may be re-issued blindly.
#[derive(Debug, Clone, Copy, PartialEq, Eq, Structural)]
pub enum Idempotency {
    Idempotent,
    NonIdempotent,
}

/// Why a retried call ended in failure.
#[derive(Debug, Clone)]
pub enum ErrorCause {
    /// The last attempt failed with this error.
    CallFailed(ic_cdk::call::CallFailed),
    /// The continuation predicate said to stop before another attempt.
    GaveUpRetrying,
}

/// The failure of a retried call.
#[derive(Debug, Clone)]
pub enum RetryError {
    /// The call is known not to have taken effect.
    CallFailed(ErrorCause),
    /// It is unknown whether the call took effect.
    StatusUnknown(ErrorCause),
}

/// What the retry discipline does after a failed attempt.
#[derive(Debug, Clone, Copy, PartialEq, Eq, Structural)]
pub enum RetryNext {
    /// Issue the call again (after asking the continuation predicate).
    Again,
    /// Stop and report that it is unknown whether the call took effect.
    StatusUnknown,
}

/// The outcome of handing a failed attempt to the retry discipline.
#[derive(Debug, Clone)]
pub enum RetryStep {
    /// Ask the continuation predicate, then issue the call again.
    Retry,
    /// The call has failed for good.
    Failed(RetryError),
}

/// State of one retried call: its idempotency class.
#[derive(Debug, Clone, Copy, PartialEq, Eq, Structural)]
pub struct RetryLoop {
    pub idempotency: Idempotency,
}

/// How a run of attempts ended, in the model of the retry discipline.
#[derive(Debug, Clone, Copy, PartialEq, Eq, Structural)]
pub enum RunEnd {
    Succeeded,
    Failed { status_unknown: bool },
    /// The given attempts ran out before the call was settled.
    Open,
}

impl RetryLoop {
    /// Whether giving up reports an unknown status. Every failure of an
    /// idempotent call is retried, so giving up on one leaves its effect
    /// unknown; a non-idempotent call is only retried after clean rejections,
    /// so giving up on one means it never took effect.
    pub open spec fn give_up_unknown(self) -> bool {
        self.idempotency == Idempotency::Idempotent
    }

    /// The error reported when the continuation predicate says stop.
    pub open spec fn give_up_error(self) -> RetryError {
        if self.give_up_unknown() {
            RetryError::StatusUnknown(ErrorCause::GaveUpRetrying)
        } else {
            RetryError::CallFailed(ErrorCause::GaveUpRetrying)
        }
    }

    /// What follows a failed attempt of the given class: an idempotent call is
    /// retried after any failure, a non-idempotent one only after a definite
    /// (clean) failure; an ambiguous failure of a non-idempotent call is
    /// reported at once as of unknown status.
    pub open spec fn failure_next(self, class: FailureClass) -> RetryNext {
        if self.idempotency == Idempotency::NonIdempotent && class == FailureClass::Ambiguous {
            RetryNext::StatusUnknown
        } else {
            RetryNext::Again
        }
    }

    /// A run of attempts: before attempt `i` the predicate answers `keep[i]`,
    /// and the attempt ends in `outcomes[i]` (`None` for success). Returns how
    /// the run ended and how many calls it issued.
    pub open spec fn run(self, keep: Seq<bool>, outcomes: Seq<Option<FailureClass>>) -> (RunEnd, nat)
        decreases outcomes.len(),
    {
        if keep.len() == 0 || outcomes.len() == 0 {
            (RunEnd::Open, 0)
        } else if !keep[0] {
            (RunEnd::Failed { status_unknown: self.give_up_unknown() }, 0)
        } else {
            match outcomes[0] {
                None => (RunEnd::Succeeded, 1),
                Some(class) => match self.failure_next(class) {
                    RetryNext::StatusUnknown => (RunEnd::Failed { status_unknown: true }, 1),
                    RetryNext::Again => {
                        let (end, calls) = self.run(keep.drop_first(), outcomes.drop_first());
                        (end, calls + 1)
                    },
                },
            }
        }
    }

    /// A retry state for a call of the given class.
    pub fn new(idempotency: Idempotency) -> (r: RetryLoop)
        ensures
            r.idempotency == idempotency,
    {
        RetryLoop { idempotency }
    }

    /// Consulted before every attempt, the first included: `None` when the call
    /// is to be issued, else the error to report because the predicate said stop.
    pub fn before_attempt(&self, keep_going: bool) -> (r: Option<RetryError>)
        ensures
            keep_going ==> r is None,
            !keep_going ==> r == Some(self.give_up_error()),
    {
        if keep_going {
            None
        } else if self.idempotency == Idempotency::Idempotent {
            Some(RetryError::StatusUnknown(ErrorCause::GaveUpRetrying))
        } else {
            Some(RetryError::CallFailed(ErrorCause::GaveUpRetrying))
        }
    }

    /// Hands a failed attempt, of the given class, to the retry discipline.
    pub fn on_failure(&self, class: FailureClass, e: ic_cdk::call::CallFailed) -> (r: RetryStep)
        ensures
            self.failure_next(class) is Again ==> r is Retry,
            self.failure_next(class) is StatusUnknown ==> r == RetryStep::Failed(
                RetryError::StatusUnknown(ErrorCause::CallFailed(e)),
            ),
    {
        match (self.idempotency, class) {
            (Idempotency::NonIdempotent, FailureClass::Ambiguous) => RetryStep::Failed(
                RetryError::StatusUnknown(ErrorCause::CallFailed(e)),
            ),
            _ => RetryStep::Retry,
        }
    }
}

/// An idempotent call that eventually succeeds is, under a predicate that never
/// says stop, retried through any failures until that success, one call per
/// attempt.
pub proof fn lemma_idempotent_retry_liveness(
    r: RetryLoop,
    keep: Seq<bool>,
    outcomes: Seq<Option<FailureClass>>,
)
    requires
        r.idempotency == Idempotency::Idempotent,
        outcomes.len() > 0,
        outcomes.last() is None,
        forall|i: int| 0 <= i < outcomes.len() - 1 ==> #[trigger] outcomes[i] is Some,
        keep.len() >= outcomes.len(),
        forall|i: int| 0 <= i < keep.len() ==> #[trigger] keep[i],
    ensures
        r.run(keep, outcomes) == (RunEnd::Succeeded, outcomes.len()),
    decreases outcomes.len(),
{
    if outcomes.len() > 1 {
        let ks = keep.drop_first();
        let os = outcomes.drop_first();
        assert forall|i: int| 0 <= i < os.len() - 1 implies #[trigger] os[i] is Some by {
            assert(os[i] == outcomes[i + 1]);
        }
        assert forall|i: int| 0 <= i < ks.len() implies #[trigger] ks[i] by {
            assert(ks[i] == keep[i + 1]);
        }
        lemma_idempotent_retry_liveness(r, ks, os);
    }
}

/// A non-idempotent call is never re-issued after an ambiguous failure: if the
/// attempt numbered `k` is issued and fails ambiguously, the run ends there with
/// an unknown status, having issued exactly `k + 1` calls.
pub proof fn lemma_nonidempotent_no_blind_retry(
    r: RetryLoop,
    keep: Seq<bool>,
    outcomes: Seq<Option<FailureClass>>,
    k: nat,
)
    requires
        r.idempotency == Idempotency::NonIdempotent,
        k < outcomes.len(),
        outcomes[k as int] == Some(FailureClass::Ambiguous),
        r.run(keep, outcomes).1 > k,
    ensures
        r.run(keep, outcomes) == (RunEnd::Failed { status_unknown: true }, k + 1),
    decreases k,
{
    if k > 0 {
        let os = outcomes.drop_first();
        assert(os[k - 1] == outcomes[k as int]);
        lemma_nonidempotent_no_blind_retry(r, keep.drop_first(), os, (k - 1) as nat);
    }
}

/// Once the predicate says stop before attempt `k`, no attempt numbered `k`
/// or later is issued.
pub proof fn lemma_cancellation_respected(
    r: RetryLoop,
    keep: Seq<bool>,
    outcomes: Seq<Option<FailureClass>>,
    k: nat,
)
    requires
        k < keep.len(),
        !keep[k as int],
    ensures
        r.run(keep, outcomes).1 <= k,
    decreases k,
{
    if k > 0 && outcomes.len() > 0 && keep[0] {
        if let Some(class) = outcomes[0] {
            if r.failure_next(class) is Again {
                let ks = keep.drop_first();
                assert(ks[k - 1] == keep[k as int]);
                lemma_cancellation_respected(r, ks, outcomes.drop_first(), (k - 1) as nat);
            }
        }
    }
}

} // verus!
