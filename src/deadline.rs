//! The continuation predicate: when retrying is to stop.

use vstd::prelude::*;

verus! {

/// When to stop retrying.
#[derive(Debug, Clone, Copy, PartialEq, Eq, Structural)]
pub enum Deadline {
    /// Never stop on account of the deadline.
    Unbounded,
    /// Stop once this canister itself is stopping.
    Stopping,
    /// Stop once the time (in nanoseconds since the epoch) reaches the bound,
    /// or once this canister itself is stopping.
    TimeOrStopping(u64),
}

impl Deadline {
    /// Whether to keep retrying at time `now`, with `stopping` telling whether
    /// this canister is being stopped.
    pub open spec fn keep_going_spec(self, now: u64, stopping: bool) -> bool {
        match self {
            Deadline::Unbounded => true,
            Deadline::Stopping => !stopping,
            Deadline::TimeOrStopping(bound) => !stopping && now < bound,
        }
    }

    /// Whether to keep retrying at time `now`, with `stopping` telling whether
    /// this canister is being stopped.
    pub fn keep_going(&self, now: u64, stopping: bool) -> (r: bool)
        ensures
            r == self.keep_going_spec(now, stopping),
    {
        match self {
            Deadline::Unbounded => true,
            Deadline::Stopping => !stopping,
            Deadline::TimeOrStopping(bound) => !stopping && now < *bound,
        }
    }

    /// Whether to keep retrying now, judged by the system clock and this
    /// canister's own status. It reads both from the Internet Computer's system
    /// API, so it panics when called outside a canister.
    pub fn keep_going_now(&self) -> (r: bool)
        ensures
            *self is Unbounded ==> r,
            exists|now: u64, stopping: bool| r == self.keep_going_spec(now, stopping),
    {
        let now = system_time();
        let stopping = self_is_stopping();
        self.keep_going(now, stopping)
    }
}

/// Relies on ic_cdk's `api::time`: the current system time in nanoseconds.
#[verifier::external_body]
fn system_time() -> (r: u64) {
    ic_cdk::api::time()
}

/// Relies on ic_cdk's `api::canister_status`: whether this canister's status
/// is `Stopping`.
#[verifier::external_body]
fn self_is_stopping() -> (r: bool) {
    ic_cdk::api::canister_status() == ic_cdk::api::CanisterStatusCode::Stopping
}

} // verus!
