//! The liveness prober: classifies the outcome of an OS process-table
//! query into a status report.
//!
//! The embedding application runs the enumeration tool (a command-line
//! pattern search over the process table) and hands the observed outcome
//! in as a [`ProbeOutcome`]; everything from there on is decided and
//! verified here. A process is considered alive exactly when the tool ran
//! and printed at least one match.

use vstd::prelude::*;
use vstd::string::*;

use crate::text::contains_seq;

verus! {

/// What the embedding application observed when it ran the process
/// enumeration tool.
pub enum ProbeOutcome {
    /// The tool ran; `stdout` is everything it printed (one line per
    /// matching process, so empty output means no match).
    Output { stdout: Vec<u8> },
    /// The tool could not be run at all; `detail` is the OS error text.
    ToolError { detail: String },
}

/// Mathematical image of a [`ProbeOutcome`].
pub enum ProbeOutcomeView {
    Output { stdout: Seq<u8> },
    ToolError { detail: Seq<char> },
}

impl View for ProbeOutcome {
    type V = ProbeOutcomeView;

    open spec fn view(&self) -> ProbeOutcomeView {
        match self {
            ProbeOutcome::Output { stdout } => ProbeOutcomeView::Output { stdout: stdout@ },
            ProbeOutcome::ToolError { detail } => ProbeOutcomeView::ToolError { detail: detail@ },
        }
    }
}

/// The prober concludes the backend is alive: the tool ran and printed at
/// least one match.
pub open spec fn probe_running(p: ProbeOutcomeView) -> bool {
    match p {
        ProbeOutcomeView::Output { stdout } => stdout.len() > 0,
        ProbeOutcomeView::ToolError { .. } => false,
    }
}

pub open spec fn running_message() -> Seq<char> {
    "Python backend is running"@
}

pub open spec fn not_running_message() -> Seq<char> {
    "Python backend is not running"@
}

pub open spec fn probe_error_message(detail: Seq<char>) -> Seq<char> {
    "Error checking backend status: "@ + detail
}

/// Mathematical image of a report: success or failure, each carrying a
/// message.
pub open spec fn report_view(r: Result<String, String>) -> Result<Seq<char>, Seq<char>> {
    match r {
        Ok(m) => Ok(m@),
        Err(m) => Err(m@),
    }
}

/// The report the prober owes for each possible outcome: success with the
/// running message when a match was printed, failure with the not-running
/// message when none was, and failure carrying the OS error text when the
/// tool itself could not be run.
pub open spec fn status_result(p: ProbeOutcomeView) -> Result<Seq<char>, Seq<char>> {
    match p {
        ProbeOutcomeView::Output { stdout } => if stdout.len() > 0 {
            Ok(running_message())
        } else {
            Err(not_running_message())
        },
        ProbeOutcomeView::ToolError { detail } => Err(probe_error_message(detail)),
    }
}

/// The structured liveness flag beside the textual report: true exactly
/// when the prober concludes the backend is alive.
pub fn probe_indicates_running(probe: &ProbeOutcome) -> (b: bool)
    ensures
        b == probe_running(probe@),
{
    match probe {
        ProbeOutcome::Output { stdout } => stdout.len() > 0,
        ProbeOutcome::ToolError { .. } => false,
    }
}

/// Turns the observed outcome of the process-table query into the status
/// report, exactly as `status_result` describes it.
pub fn check_python_backend_status(probe: &ProbeOutcome) -> (r: Result<String, String>)
    ensures
        report_view(r) == status_result(probe@),
        r is Ok <==> probe_running(probe@),
{
    match probe {
        ProbeOutcome::Output { stdout } => if stdout.len() == 0 {
            Err(String::from_str("Python backend is not running"))
        } else {
            Ok(String::from_str("Python backend is running"))
        },
        ProbeOutcome::ToolError { detail } => {
            let mut m = String::from_str("Error checking backend status: ");
            m.append(detail.as_str());
            Err(m)
        },
    }
}

/// When no matching process exists (no match printed, or the tool itself
/// failed), the status report is a failure, never a success carrying
/// "running".
pub proof fn lemma_no_match_reports_failure(p: ProbeOutcomeView)
    requires
        !probe_running(p),
    ensures
        status_result(p) is Err,
{
}

/// When a matching process is running, the status report is a success and
/// its message contains the substring "running", whatever else the probe
/// output held.
pub proof fn lemma_running_reported(p: ProbeOutcomeView)
    requires
        probe_running(p),
    ensures
        status_result(p) is Ok,
        contains_seq(status_result(p)->Ok_0, "running"@),
{
    reveal_strlit("Python backend is running");
    reveal_strlit("running");
    assert("running"@.len() == 7);
    assert(running_message().subrange(18, 18 + "running"@.len() as int) =~= "running"@);
}

} // verus!
