//! Deep links into the system's privacy settings: the targets of each panel,
//! tried in a fixed order until the opener accepts one.

use crate::platform::Platform;
use crate::process::ProcessOutput;
use crate::text::{
    decimal_string,
    decimal_text,
    diagnostic_of,
    diagnostic_text,
    lemma_occurs_between,
    occurs_in,
};
use vstd::prelude::*;
use vstd::string::*;

verus! {

/// The privacy pane to open.
#[derive(Clone, Copy, Debug, PartialEq, Eq, Structural)]
pub enum SettingsPanel {
    Camera,
    Accessibility,
}

/// The program that is asked to open a target.
pub const OPENER: &'static str = "open";

/// The targets of a panel in the order in which they are tried: the newer
/// scheme, the alternate newer scheme, the generic fallback.
pub open spec fn panel_urls(panel: SettingsPanel) -> Seq<Seq<char>> {
    match panel {
        SettingsPanel::Camera => seq![
            "x-apple.systempreferences:com.apple.preference.security?Privacy_Camera"@,
            "x-apple.systempreferences:com.apple.settings.PrivacySecurity.extension?Privacy_Camera"@,
            "x-apple.systempreferences:com.apple.preference.security"@,
        ],
        SettingsPanel::Accessibility => seq![
            "x-apple.systempreferences:com.apple.preference.security?Privacy_Accessibility"@,
            "x-apple.systempreferences:com.apple.settings.PrivacySecurity.extension?Privacy_Accessibility"@,
            "x-apple.systempreferences:com.apple.preference.security"@,
        ],
    }
}

/// How the exit status reads in a message: the code in decimal, or `unknown`
/// where the opener ended without one.
pub open spec fn status_text(code: Option<i32>) -> Seq<char> {
    match code {
        Some(code) => decimal_text(code as int),
        None => "unknown"@,
    }
}

/// The message for a target that the opener ran on and rejected.
pub open spec fn rejection_message(url: Seq<char>, code: Option<i32>, diagnostic: Seq<char>) -> Seq<
    char,
> {
    let head = "open exited with status "@ + status_text(code) + " for "@ + url;
    if diagnostic.len() == 0 {
        head
    } else {
        head + ": "@ + diagnostic
    }
}

/// The message for an opener that could not be run at all.
pub open spec fn launch_failure_message(url: Seq<char>, error: Seq<char>) -> Seq<char> {
    "Unable to execute 'open' for "@ + url + ": "@ + error
}

/// The message on a system without such settings.
pub open spec fn unsupported_message() -> Seq<char> {
    "System Settings deep link is only implemented on macOS."@
}

/// Builds the message for a target that the opener ran on and rejected, from
/// the exit code and the trimmed diagnostic text.
pub fn rejection_text(url: &str, code: Option<i32>, diagnostic: &str) -> (message: String)
    ensures
        message@ == rejection_message(url@, code, diagnostic@),
{
    let mut message = String::from_str("open exited with status ");
    match code {
        Some(code) => {
            let number = decimal_string(code);
            message.append(number.as_str());
        },
        None => {
            message.append("unknown");
        },
    }
    message.append(" for ");
    message.append(url);
    if !diagnostic.is_empty() {
        message.append(": ");
        message.append(diagnostic);
    }
    message
}

/// Builds the message for an opener that could not be run at all.
pub fn launch_failure_text(url: &str, error: &str) -> (message: String)
    ensures
        message@ == launch_failure_message(url@, error@),
{
    let mut message = String::from_str("Unable to execute 'open' for ");
    message.append(url);
    message.append(": ");
    message.append(error);
    message
}

/// A request in progress: the panel, and which of its targets is being tried.
#[derive(Debug)]
pub struct DeepLink {
    panel: SettingsPanel,
    attempt: usize,
}

/// What the caller does next for a request.
#[derive(Debug)]
pub enum SettingsStep {
    /// Ask the opener for the target of this link, then report with
    /// [`DeepLink::opened`].
    Open(DeepLink),
    /// The request is over, with this result.
    Finished(Result<(), String>),
}

/// A step as a plain value.
pub ghost enum SettingsStepView {
    /// The target number `attempt` of `panel` is to be opened.
    Open { panel: SettingsPanel, attempt: nat },
    /// The opener accepted a target.
    Succeeded,
    /// The request failed with this message.
    Failed(Seq<char>),
}

impl View for SettingsStep {
    type V = SettingsStepView;

    open spec fn view(&self) -> SettingsStepView {
        match self {
            SettingsStep::Open(link) => SettingsStepView::Open {
                panel: link.panel(),
                attempt: link.attempt(),
            },
            SettingsStep::Finished(Ok(_)) => SettingsStepView::Succeeded,
            SettingsStep::Finished(Err(message)) => SettingsStepView::Failed(message@),
        }
    }
}

/// The step a request starts with: the first target where the system has
/// such settings, a fixed error elsewhere.
pub open spec fn first_step(platform: Platform, panel: SettingsPanel) -> SettingsStepView {
    if platform.automation_capable() {
        SettingsStepView::Open { panel, attempt: 0 }
    } else {
        SettingsStepView::Failed(unsupported_message())
    }
}

/// The step that follows the attempt on target number `attempt` of `panel`.
/// An opener that could not be run ends the request at once. An accepted
/// target ends it with success. A rejected target leads to the next one, and
/// the last one's rejection is the request's error.
pub open spec fn next_step(
    panel: SettingsPanel,
    attempt: nat,
    outcome: Result<ProcessOutput, String>,
) -> SettingsStepView {
    let url = panel_urls(panel)[attempt as int];
    match outcome {
        Err(error) => SettingsStepView::Failed(launch_failure_message(url, error@)),
        Ok(output) => {
            if output.status.success {
                SettingsStepView::Succeeded
            } else if attempt + 1 < panel_urls(panel).len() {
                SettingsStepView::Open { panel, attempt: attempt + 1 }
            } else {
                SettingsStepView::Failed(
                    rejection_message(url, output.status.code, diagnostic_of(output.stderr@)),
                )
            }
        },
    }
}

impl DeepLink {
    #[verifier::type_invariant]
    spec fn in_range(self) -> bool {
        self.attempt < 3
    }

    /// The panel that is being opened.
    pub closed spec fn panel(self) -> SettingsPanel {
        self.panel
    }

    /// How many targets were tried before this one.
    pub closed spec fn attempt(self) -> nat {
        self.attempt as nat
    }

    /// The target to hand to the opener.
    pub open spec fn target(self) -> Seq<char> {
        panel_urls(self.panel())[self.attempt() as int]
    }

    /// The target to hand to the opener.
    pub fn url(&self) -> (url: &'static str)
        ensures
            url@ == self.target(),
            self.attempt() < panel_urls(self.panel()).len(),
    {
        proof {
            use_type_invariant(self);
        }
        match self.panel {
            SettingsPanel::Camera => {
                if self.attempt == 0 {
                    "x-apple.systempreferences:com.apple.preference.security?Privacy_Camera"
                } else if self.attempt == 1 {
                    "x-apple.systempreferences:com.apple.settings.PrivacySecurity.extension?Privacy_Camera"
                } else {
                    "x-apple.systempreferences:com.apple.preference.security"
                }
            },
            SettingsPanel::Accessibility => {
                if self.attempt == 0 {
                    "x-apple.systempreferences:com.apple.preference.security?Privacy_Accessibility"
                } else if self.attempt == 1 {
                    "x-apple.systempreferences:com.apple.settings.PrivacySecurity.extension?Privacy_Accessibility"
                } else {
                    "x-apple.systempreferences:com.apple.preference.security"
                }
            },
        }
    }

    /// Takes what became of the attempt on this link's target and says what
    /// follows.
    pub fn opened(self, outcome: &Result<ProcessOutput, String>) -> (step: SettingsStep)
        ensures
            step@ == next_step(self.panel(), self.attempt(), *outcome),
    {
        proof {
            use_type_invariant(&self);
        }
        let url = self.url();
        match outcome {
            Err(error) => SettingsStep::Finished(Err(launch_failure_text(url, error.as_str()))),
            Ok(output) => {
                if output.status.success {
                    SettingsStep::Finished(Ok(()))
                } else if self.attempt + 1 < 3 {
                    SettingsStep::Open(DeepLink { panel: self.panel, attempt: self.attempt + 1 })
                } else {
                    let diagnostic = diagnostic_text(&output.stderr);
                    SettingsStep::Finished(
                        Err(rejection_text(url, output.status.code, diagnostic.as_str())),
                    )
                }
            },
        }
    }
}

/// Starts a request to open `panel` of the privacy settings.
pub fn open_system_settings(platform: Platform, panel: SettingsPanel) -> (step: SettingsStep)
    ensures
        step@ == first_step(platform, panel),
{
    if platform.supports_automation() {
        SettingsStep::Open(DeepLink { panel, attempt: 0 })
    } else {
        SettingsStep::Finished(
            Err(String::from_str("System Settings deep link is only implemented on macOS.")),
        )
    }
}

/// Where a request stands, and how many targets were handed to the opener on
/// the way.
pub ghost struct DeepLinkRun {
    pub step: SettingsStepView,
    pub attempts: nat,
}

/// Whether the opener ran on a target and reported success.
pub open spec fn accepted(outcome: Result<ProcessOutput, String>) -> bool {
    outcome matches Ok(output) && output.status.success
}

/// Whether the opener ran on a target and reported failure.
pub open spec fn rejected(outcome: Result<ProcessOutput, String>) -> bool {
    outcome matches Ok(output) && !output.status.success
}

/// The request that stands at `step`, played against an opener whose answers
/// are `outcomes`, in that order: each answer is consumed by one attempt, until
/// the request is over or the answers run out.
pub open spec fn run_from(
    step: SettingsStepView,
    outcomes: Seq<Result<ProcessOutput, String>>,
) -> DeepLinkRun
    decreases outcomes.len(),
{
    match step {
        SettingsStepView::Open { panel, attempt } => {
            if outcomes.len() == 0 {
                DeepLinkRun { step, attempts: 0 }
            } else {
                let rest = run_from(
                    next_step(panel, attempt, outcomes.first()),
                    outcomes.drop_first(),
                );
                DeepLinkRun { step: rest.step, attempts: rest.attempts + 1 }
            }
        },
        _ => DeepLinkRun { step, attempts: 0 },
    }
}

/// A whole request played against an opener whose answers are `outcomes`.
pub open spec fn run(
    platform: Platform,
    panel: SettingsPanel,
    outcomes: Seq<Result<ProcessOutput, String>>,
) -> DeepLinkRun {
    run_from(first_step(platform, panel), outcomes)
}

/// Plays a whole request against a scripted opener: answer number `i` of
/// `outcomes` is what the opener says to the attempt number `i`. Returns where
/// the request stands once it is over or the answers have run out, and how
/// many targets were handed to the opener.
pub fn replay(
    platform: Platform,
    panel: SettingsPanel,
    outcomes: &Vec<Result<ProcessOutput, String>>,
) -> (end: (SettingsStep, usize))
    ensures
        end.0@ == run(platform, panel, outcomes@).step,
        end.1 == run(platform, panel, outcomes@).attempts,
{
    let mut step = open_system_settings(platform, panel);
    let mut attempts: usize = 0;
    assert(outcomes@.skip(0) =~= outcomes@);
    while attempts < outcomes.len()
        invariant
            attempts <= outcomes.len(),
            run(platform, panel, outcomes@).step == run_from(
                step@,
                outcomes@.skip(attempts as int),
            ).step,
            run(platform, panel, outcomes@).attempts == attempts + run_from(
                step@,
                outcomes@.skip(attempts as int),
            ).attempts,
        decreases outcomes.len() - attempts,
    {
        let ghost rest = outcomes@.skip(attempts as int);
        assert(rest.first() == outcomes@[attempts as int]);
        assert(rest.drop_first() =~= outcomes@.skip(attempts as int + 1));
        match step {
            SettingsStep::Open(link) => {
                step = link.opened(&outcomes[attempts]);
                attempts = attempts + 1;
            },
            SettingsStep::Finished(result) => {
                return (SettingsStep::Finished(result), attempts);
            },
        }
    }
    (step, attempts)
}

proof fn lemma_accepted_after_rejections(
    panel: SettingsPanel,
    attempt: nat,
    outcomes: Seq<Result<ProcessOutput, String>>,
    n: nat,
)
    requires
        attempt + n < panel_urls(panel).len(),
        n < outcomes.len(),
        forall|i: int| 0 <= i < n ==> rejected(#[trigger] outcomes[i]),
        accepted(outcomes[n as int]),
    ensures
        run_from(SettingsStepView::Open { panel, attempt }, outcomes) == (DeepLinkRun {
            step: SettingsStepView::Succeeded,
            attempts: n + 1,
        }),
    decreases n,
{
    let rest = outcomes.drop_first();
    if n == 0 {
        assert(run_from(SettingsStepView::Succeeded, rest).attempts == 0);
    } else {
        assert(rejected(outcomes[0]));
        assert forall|i: int| 0 <= i < n - 1 implies rejected(#[trigger] rest[i]) by {
            assert(rest[i] == outcomes[i + 1]);
        }
        assert(rest[n - 1] == outcomes[n as int]);
        lemma_accepted_after_rejections(panel, attempt + 1, rest, (n - 1) as nat);
    }
}

proof fn lemma_all_rejected(
    panel: SettingsPanel,
    attempt: nat,
    outcomes: Seq<Result<ProcessOutput, String>>,
)
    requires
        attempt < panel_urls(panel).len(),
        attempt + outcomes.len() >= panel_urls(panel).len(),
        forall|i: int| 0 <= i < panel_urls(panel).len() - attempt ==> rejected(#[trigger] outcomes[i]),
    ensures
        run_from(SettingsStepView::Open { panel, attempt }, outcomes).attempts == panel_urls(
            panel,
        ).len() - attempt,
        run_from(SettingsStepView::Open { panel, attempt }, outcomes).step
            == SettingsStepView::Failed(
            rejection_message(
                panel_urls(panel).last(),
                outcomes[panel_urls(panel).len() - attempt - 1]->Ok_0.status.code,
                diagnostic_of(outcomes[panel_urls(panel).len() - attempt - 1]->Ok_0.stderr@),
            ),
        ),
    decreases panel_urls(panel).len() - attempt,
{
    let rest = outcomes.drop_first();
    assert(rejected(outcomes[0]));
    if attempt + 1 < panel_urls(panel).len() {
        assert forall|i: int| 0 <= i < panel_urls(panel).len() - (attempt + 1) implies rejected(
            #[trigger] rest[i],
        ) by {
            assert(rest[i] == outcomes[i + 1]);
        }
        lemma_all_rejected(panel, attempt + 1, rest);
        assert(rest[panel_urls(panel).len() - (attempt + 1) - 1] == outcomes[panel_urls(
            panel,
        ).len() - attempt - 1]);
    } else {
        let last = next_step(panel, attempt, outcomes[0]);
        assert(run_from(last, rest).attempts == 0);
    }
}

proof fn lemma_pending_after_rejections(
    panel: SettingsPanel,
    attempt: nat,
    outcomes: Seq<Result<ProcessOutput, String>>,
)
    requires
        attempt + outcomes.len() < panel_urls(panel).len(),
        forall|i: int| 0 <= i < outcomes.len() ==> rejected(#[trigger] outcomes[i]),
    ensures
        run_from(SettingsStepView::Open { panel, attempt }, outcomes) == (DeepLinkRun {
            step: SettingsStepView::Open { panel, attempt: attempt + outcomes.len() },
            attempts: outcomes.len(),
        }),
    decreases outcomes.len(),
{
    if outcomes.len() > 0 {
        let rest = outcomes.drop_first();
        assert(rejected(outcomes[0]));
        assert forall|i: int| 0 <= i < rest.len() implies rejected(#[trigger] rest[i]) by {
            assert(rest[i] == outcomes[i + 1]);
        }
        lemma_pending_after_rejections(panel, attempt + 1, rest);
    }
}

/// The targets are tried in their fixed order: once the opener has rejected
/// the first `outcomes.len()` targets of a panel, and the panel has more, the
/// request stands at the target of that number, after that many attempts.
pub proof fn lemma_targets_tried_in_order(
    platform: Platform,
    panel: SettingsPanel,
    outcomes: Seq<Result<ProcessOutput, String>>,
)
    requires
        platform.automation_capable(),
        outcomes.len() < panel_urls(panel).len(),
        forall|i: int| 0 <= i < outcomes.len() ==> rejected(#[trigger] outcomes[i]),
    ensures
        run(platform, panel, outcomes).step == (SettingsStepView::Open {
            panel,
            attempt: outcomes.len(),
        }),
        run(platform, panel, outcomes).attempts == outcomes.len(),
{
    lemma_pending_after_rejections(panel, 0, outcomes);
}

/// An opener that rejects the first `n` targets and accepts the next one
/// makes the request succeed after exactly `n + 1` attempts, whatever it
/// would have said later.
pub proof fn lemma_first_accepted_target_settles(
    platform: Platform,
    panel: SettingsPanel,
    outcomes: Seq<Result<ProcessOutput, String>>,
    n: nat,
)
    requires
        platform.automation_capable(),
        n < panel_urls(panel).len(),
        n < outcomes.len(),
        forall|i: int| 0 <= i < n ==> rejected(#[trigger] outcomes[i]),
        accepted(outcomes[n as int]),
    ensures
        run(platform, panel, outcomes).step == SettingsStepView::Succeeded,
        run(platform, panel, outcomes).attempts == n + 1,
{
    lemma_accepted_after_rejections(panel, 0, outcomes, n);
}

/// An opener that rejects every target makes the request fail after one
/// attempt on each, with the message of the last rejection, and that message
/// holds the last target.
pub proof fn lemma_all_rejected_reports_last_target(
    platform: Platform,
    panel: SettingsPanel,
    outcomes: Seq<Result<ProcessOutput, String>>,
)
    requires
        platform.automation_capable(),
        outcomes.len() >= panel_urls(panel).len(),
        forall|i: int| 0 <= i < panel_urls(panel).len() ==> rejected(#[trigger] outcomes[i]),
    ensures
        run(platform, panel, outcomes).attempts == panel_urls(panel).len(),
        run(platform, panel, outcomes).step matches SettingsStepView::Failed(message) && {
            let last = outcomes[panel_urls(panel).len() - 1]->Ok_0;
            &&& message == rejection_message(
                panel_urls(panel).last(),
                last.status.code,
                diagnostic_of(last.stderr@),
            )
            &&& occurs_in(panel_urls(panel).last(), message)
        },
{
    lemma_all_rejected(panel, 0, outcomes);
    let last = outcomes[panel_urls(panel).len() - 1]->Ok_0;
    lemma_rejection_message_holds_target(
        panel_urls(panel).last(),
        last.status.code,
        diagnostic_of(last.stderr@),
    );
}

/// The message of a rejection holds the target that was rejected.
pub proof fn lemma_rejection_message_holds_target(
    url: Seq<char>,
    code: Option<i32>,
    diagnostic: Seq<char>,
)
    ensures
        occurs_in(url, rejection_message(url, code, diagnostic)),
{
    let before = "open exited with status "@ + status_text(code) + " for "@;
    let after = if diagnostic.len() == 0 {
        Seq::<char>::empty()
    } else {
        ": "@ + diagnostic
    };
    lemma_occurs_between(before, url, after);
    assert(before + url + after =~= rejection_message(url, code, diagnostic));
}

/// On a system without such settings the request ends at once with the fixed
/// error, and nothing is handed to the opener.
pub proof fn lemma_unsupported_platform_opens_nothing(
    platform: Platform,
    panel: SettingsPanel,
    outcomes: Seq<Result<ProcessOutput, String>>,
)
    requires
        !platform.automation_capable(),
    ensures
        run(platform, panel, outcomes).step == SettingsStepView::Failed(unsupported_message()),
        run(platform, panel, outcomes).attempts == 0,
{
}

} // verus!
