//! Privilege checking for the native backend of a web-view desktop
//! application.
//!
//! The one question this library answers is whether the current process runs
//! with administrative rights. The operating-system query itself is platform
//! plumbing that lives outside the library; the library fixes what the answer
//! means: the check reports `true` exactly when the host reported an elevated
//! security context, and a query that failed at the OS level counts as not
//! elevated, with no error propagated.

use vstd::prelude::*;

verus! {

/// What the host operating system reports about the security context of the
/// current process.
#[derive(Clone, Copy, PartialEq, Eq, Structural, Debug)]
pub enum SecurityContextReport {
    /// The process holds administrative rights.
    Elevated,
    /// The process runs in a standard user context.
    Standard,
    /// The query could not be answered at the OS level.
    Unavailable,
}

/// The meaning of the admin check: `true` exactly when the host reported an
/// elevated context. A missing or negative report counts as not elevated, so
/// the check never errs on the side of claiming privilege.
pub open spec fn spec_is_elevated(report: SecurityContextReport) -> bool {
    report == SecurityContextReport::Elevated
}

/// Answers the UI's `check_admin_status` query from the host's report.
///
/// There is no precondition: the check is safe to invoke before any other
/// application state is established, and any number of times. It returns
/// `true` if and only if the report says the process is elevated; an
/// unavailable report is answered with `false`, with no error propagated.
pub fn check_admin_status(report: SecurityContextReport) -> (elevated: bool)
    ensures
        elevated == spec_is_elevated(report),
{
    match report {
        SecurityContextReport::Elevated => true,
        SecurityContextReport::Standard => false,
        SecurityContextReport::Unavailable => false,
    }
}

/// Builds the report from the raw answer of a host API that says whether the
/// current user is an administrator, where `None` stands for a query that
/// failed at the OS level.
pub fn report_from_os_answer(answer: Option<bool>) -> (report: SecurityContextReport)
    ensures
        report == (match answer {
            Some(true) => SecurityContextReport::Elevated,
            Some(false) => SecurityContextReport::Standard,
            None => SecurityContextReport::Unavailable,
        }),
{
    match answer {
        Some(true) => SecurityContextReport::Elevated,
        Some(false) => SecurityContextReport::Standard,
        None => SecurityContextReport::Unavailable,
    }
}

/// Builds the report from the effective user id, for hosts where elevation
/// means running as the superuser. Such a query always has an answer, so the
/// report is never `Unavailable`.
pub fn report_from_euid(euid: u32) -> (report: SecurityContextReport)
    ensures
        report == (if euid == 0 {
            SecurityContextReport::Elevated
        } else {
            SecurityContextReport::Standard
        }),
{
    if euid == 0 {
        SecurityContextReport::Elevated
    } else {
        SecurityContextReport::Standard
    }
}

/// The check has no observable side effects: its answer is a function of the
/// host's report alone, so invocations that observe the same security context
/// agree, however many are made and in whatever order, and none changes any
/// state.
pub proof fn lemma_check_is_pure(first: SecurityContextReport, second: SecurityContextReport)
    requires
        first == second,
    ensures
        spec_is_elevated(first) == spec_is_elevated(second),
{
}

} // verus!
