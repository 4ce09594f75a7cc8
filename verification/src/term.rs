//! The termination-reporting protocol: a pure mapping from a program's
//! logical outcome to a numeric process exit status.

use vstd::prelude::*;

verus! {

/// A value that can report a process exit status.
///
/// The protocol is a closed, two-case mapping over the built-in variants:
/// the no-value result always reports success (`0`); a dual-state result
/// delegates to its success payload's own report, and reports `1` on
/// failure whatever the failure payload holds.  Any further payload type
/// defines its own report, and nesting resolves by repeated delegation.
pub trait Termination: Sized {
    /// The exit status this value stands for.
    spec fn report_spec(self) -> int;

    /// Resolve this value into its exit status.
    fn report(self) -> (status: i32)
        ensures
            status as int == self.report_spec(),
    ;
}

impl Termination for () {
    open spec fn report_spec(self) -> int {
        0
    }

    fn report(self) -> (status: i32) {
        0
    }
}

impl<T: Termination, E> Termination for Result<T, E> {
    open spec fn report_spec(self) -> int {
        match self {
            Ok(value) => value.report_spec(),
            Err(_) => 1,
        }
    }

    fn report(self) -> (status: i32) {
        match self {
            Ok(value) => value.report(),
            Err(_) => 1,
        }
    }
}

/// The no-value outcome always reports success.
pub proof fn lemma_unit_reports_zero(outcome: ())
    ensures
        outcome.report_spec() == 0,
{
}

/// A dual-state outcome in its success state reports exactly what its
/// success payload reports; in its failure state it reports `1`,
/// whatever the failure payload holds.
pub proof fn lemma_dual_state_report<T: Termination, E>(outcome: Result<T, E>)
    ensures
        outcome matches Ok(value) ==> outcome.report_spec() == value.report_spec(),
        outcome matches Err(_) ==> outcome.report_spec() == 1,
{
}

/// A dual-state result nested inside another dual-state result resolves
/// by repeated delegation: the outer success hands the report on to the
/// inner value, and a failure at either depth reports `1`.
pub proof fn lemma_nested_report<T: Termination, E1, E2>(outcome: Result<Result<T, E2>, E1>)
    ensures
        outcome.report_spec() == (match outcome {
            Ok(Ok(value)) => value.report_spec(),
            Ok(Err(_)) => 1int,
            Err(_) => 1int,
        }),
{
}

} // verus!
