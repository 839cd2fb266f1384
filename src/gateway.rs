//! Failed calls, and how they are classified for retrying.

use vstd::prelude::*;

verus! {

#[verifier::external_type_specification]
#[verifier::external_body]
pub struct ExCallFailed(ic_cdk::call::CallFailed);

/// Relies on the `Clone` that ic_cdk derives for `CallFailed`; nothing is
/// claimed of the copy.
pub assume_specification[ <ic_cdk::call::CallFailed as Clone>::clone ](
    e: &ic_cdk::call::CallFailed,
) -> ic_cdk::call::CallFailed;

/// Whether the runtime reports the failed call as a clean rejection.
pub uninterp spec fn clean_reject_of(e: ic_cdk::call::CallFailed) -> bool;

/// How a failed call may be handled, as far as a retry is concerned.
#[derive(Debug, Clone, Copy, PartialEq, Eq, Structural)]
pub enum FailureClass {
    /// Cleanly rejected: the call is known not to have executed.
    Definite,
    /// The callee may or may not have executed the call.
    Ambiguous,
}

/// The class of a failed call: definite exactly when it was a clean rejection.
pub open spec fn class_of(e: ic_cdk::call::CallFailed) -> FailureClass {
    if clean_reject_of(e) {
        FailureClass::Definite
    } else {
        FailureClass::Ambiguous
    }
}

/// Relies on ic_cdk's `CallErrorExt::is_clean_reject` for `CallFailed`: whether the
/// callee's state is known to be unchanged.
#[verifier::external_body]
fn is_clean_reject(e: &ic_cdk::call::CallFailed) -> (r: bool)
    ensures
        r == clean_reject_of(*e),
{
    ic_cdk::call::CallErrorExt::is_clean_reject(e)
}

/// Classifies a failed call: definite when the runtime reports a clean
/// rejection, ambiguous otherwise.
pub fn classify_failure(e: &ic_cdk::call::CallFailed) -> (r: FailureClass)
    ensures
        r == class_of(*e),
{
    if is_clean_reject(e) {
        FailureClass::Definite
    } else {
        FailureClass::Ambiguous
    }
}

} // verus!
