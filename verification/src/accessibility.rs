//! Whether the system lets this process drive other applications.

use crate::platform::Platform;
use crate::process::ProcessOutput;
use crate::text::{diagnostic_of, diagnostic_text, reply_of, reply_text, same_text};
use vstd::prelude::*;
use vstd::string::*;

verus! {

/// The program that runs a script.
pub const SCRIPT_RUNNER: &'static str = "osascript";

/// The flag that precedes a script given on the command line.
pub const SCRIPT_FLAG: &'static str = "-e";

/// The script that asks whether UI automation is enabled.
pub const PERMISSION_QUERY: &'static str =
    "tell application \"System Events\" to get UI elements enabled";

/// The answer to a permission check.
#[derive(Debug)]
pub struct AccessibilityStatus {
    /// Whether the permission is held.
    pub granted: bool,
    /// What the check reported where it could not show the permission.
    pub detail: Option<String>,
}

/// An answer as a plain value.
pub ghost struct AccessibilityStatusView {
    pub granted: bool,
    pub detail: Option<Seq<char>>,
}

impl View for AccessibilityStatus {
    type V = AccessibilityStatusView;

    open spec fn view(&self) -> AccessibilityStatusView {
        AccessibilityStatusView {
            granted: self.granted,
            detail: match self.detail {
                Some(text) => Some(text@),
                None => None,
            },
        }
    }
}

impl AccessibilityStatusView {
    /// A detail accompanies a refusal only.
    pub open spec fn well_formed(self) -> bool {
        self.detail is Some ==> !self.granted
    }
}

/// What the caller does next for a permission check.
#[derive(Debug)]
pub enum AccessibilityStep {
    /// Run [`PERMISSION_QUERY`] and report with [`permission_queried`].
    Query,
    /// The check is over, with this answer.
    Finished(AccessibilityStatus),
}

/// A step as a plain value.
pub ghost enum AccessibilityStepView {
    Query,
    Finished(AccessibilityStatusView),
}

impl View for AccessibilityStep {
    type V = AccessibilityStepView;

    open spec fn view(&self) -> AccessibilityStepView {
        match self {
            AccessibilityStep::Query => AccessibilityStepView::Query,
            AccessibilityStep::Finished(status) => AccessibilityStepView::Finished(status@),
        }
    }
}

/// The step a check starts with: a query where the system has the
/// permission, the vacuous answer where it has not.
pub open spec fn first_check(platform: Platform) -> AccessibilityStepView {
    if platform.automation_capable() {
        AccessibilityStepView::Query
    } else {
        AccessibilityStepView::Finished(vacuous_status())
    }
}

/// The answer on a system that knows no such permission.
pub open spec fn vacuous_status() -> AccessibilityStatusView {
    AccessibilityStatusView { granted: true, detail: None }
}

/// The answer that a finished query stands for, from the texts it printed:
/// `reply` is its standard output, trimmed and lowercased, and `diagnostic`
/// its standard error, trimmed.
pub open spec fn status_of_texts(
    success: bool,
    reply: Seq<char>,
    diagnostic: Seq<char>,
) -> AccessibilityStatusView {
    if success {
        AccessibilityStatusView { granted: reply == "true"@, detail: None }
    } else {
        AccessibilityStatusView {
            granted: false,
            detail: if diagnostic.len() == 0 {
                None
            } else {
                Some(diagnostic)
            },
        }
    }
}

/// The answer that the outcome of the query stands for. A query that ran
/// cleanly grants the permission exactly if it printed `true`, in any case
/// and with any whitespace around it. One that failed refuses, with what it
/// printed to standard error, if anything. One that could not be run refuses
/// with the error's message.
pub open spec fn status_of(outcome: Result<ProcessOutput, String>) -> AccessibilityStatusView {
    match outcome {
        Ok(output) => status_of_texts(
            output.status.success,
            reply_of(output.stdout@),
            diagnostic_of(output.stderr@),
        ),
        Err(error) => AccessibilityStatusView { granted: false, detail: Some(error@) },
    }
}

/// Starts a permission check: a query where the system has the permission,
/// and the vacuous answer, with no outside work, where it has not.
pub fn check_accessibility_permission(platform: Platform) -> (step: AccessibilityStep)
    ensures
        step@ == first_check(platform),
{
    if platform.supports_automation() {
        AccessibilityStep::Query
    } else {
        AccessibilityStep::Finished(AccessibilityStatus { granted: true, detail: None })
    }
}

/// The answer for a query that ran cleanly, from its trimmed and lowercased
/// standard output.
pub fn status_from_reply(reply: &str) -> (status: AccessibilityStatus)
    ensures
        status@ == status_of_texts(true, reply@, Seq::empty()),
{
    AccessibilityStatus { granted: same_text(reply, "true"), detail: None }
}

/// The answer for a query that failed, from its trimmed standard error.
pub fn status_from_diagnostic(diagnostic: String) -> (status: AccessibilityStatus)
    ensures
        status@ == status_of_texts(false, Seq::empty(), diagnostic@),
{
    let detail = if diagnostic.as_str().is_empty() {
        None
    } else {
        Some(diagnostic)
    };
    AccessibilityStatus { granted: false, detail }
}

/// Reads the answer off the outcome of the query.
pub fn permission_queried(outcome: Result<ProcessOutput, String>) -> (status: AccessibilityStatus)
    ensures
        status@ == status_of(outcome),
        status@.well_formed(),
{
    match outcome {
        Ok(output) => {
            if output.status.success {
                let reply = reply_text(&output.stdout);
                status_from_reply(reply.as_str())
            } else {
                status_from_diagnostic(diagnostic_text(&output.stderr))
            }
        },
        Err(error) => AccessibilityStatus { granted: false, detail: Some(error) },
    }
}

/// On a system that knows no such permission every check gives the same
/// answer: granted, without detail, and without a query.
pub proof fn lemma_vacuous_where_unsupported(platform: Platform)
    requires
        !platform.automation_capable(),
    ensures
        first_check(platform) == AccessibilityStepView::Finished(
            AccessibilityStatusView { granted: true, detail: None },
        ),
{
}

/// Every answer read off an outcome is well formed: a detail comes with a
/// refusal only.
pub proof fn lemma_status_well_formed(outcome: Result<ProcessOutput, String>)
    ensures
        status_of(outcome).well_formed(),
{
}

} // verus!
