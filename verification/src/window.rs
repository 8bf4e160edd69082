//! The main window: whether it lets the pointer through, and how a second
//! launch of the program brings it to the front.

use crate::text::prefixed;
use vstd::prelude::*;
use vstd::string::*;

verus! {

/// The identifier of the main window.
pub const MAIN_WINDOW: &'static str = "main";

/// What the caller does next for a passthrough request.
#[derive(Debug)]
pub enum OverlayStep {
    /// Tell the windowing system whether the main window ignores the pointer,
    /// then report with [`passthrough_set`].
    SetIgnoreCursorEvents(bool),
    /// The request is over, with this result.
    Finished(Result<(), String>),
}

/// A step as a plain value.
pub ghost enum OverlayStepView {
    SetIgnoreCursorEvents(bool),
    Succeeded,
    Failed(Seq<char>),
}

impl View for OverlayStep {
    type V = OverlayStepView;

    open spec fn view(&self) -> OverlayStepView {
        match self {
            OverlayStep::SetIgnoreCursorEvents(ignore) => OverlayStepView::SetIgnoreCursorEvents(
                *ignore,
            ),
            OverlayStep::Finished(Ok(_)) => OverlayStepView::Succeeded,
            OverlayStep::Finished(Err(message)) => OverlayStepView::Failed(message@),
        }
    }
}

/// The message for a request made while the main window does not exist.
pub open spec fn window_missing_message() -> Seq<char> {
    "Main window not found."@
}

/// The message for a windowing system that refused the change.
pub open spec fn passthrough_failure_message(error: Seq<char>) -> Seq<char> {
    "Unable to update overlay passthrough mode: "@ + error
}

/// The step a request starts with: the change itself, with the flag as it was
/// asked for, where the main window exists, and an error where it does not.
pub open spec fn passthrough_step(window_present: bool, ignore_cursor_events: bool) -> OverlayStepView {
    if window_present {
        OverlayStepView::SetIgnoreCursorEvents(ignore_cursor_events)
    } else {
        OverlayStepView::Failed(window_missing_message())
    }
}

/// The result of a request once the windowing system has answered.
pub open spec fn passthrough_result(outcome: Result<(), String>) -> Result<(), Seq<char>> {
    match outcome {
        Ok(_) => Ok(()),
        Err(error) => Err(passthrough_failure_message(error@)),
    }
}

/// A result as a plain value.
pub open spec fn result_view(result: Result<(), String>) -> Result<(), Seq<char>> {
    match result {
        Ok(_) => Ok(()),
        Err(message) => Err(message@),
    }
}

/// Starts a request to let the pointer through the main window or not, given
/// whether a window named [`MAIN_WINDOW`] exists.
pub fn set_overlay_passthrough(window_present: bool, ignore_cursor_events: bool) -> (step:
    OverlayStep)
    ensures
        step@ == passthrough_step(window_present, ignore_cursor_events),
{
    if window_present {
        OverlayStep::SetIgnoreCursorEvents(ignore_cursor_events)
    } else {
        OverlayStep::Finished(Err(String::from_str("Main window not found.")))
    }
}

/// Takes the windowing system's answer to the change and ends the request.
pub fn passthrough_set(outcome: Result<(), String>) -> (result: Result<(), String>)
    ensures
        result_view(result) == passthrough_result(outcome),
{
    match outcome {
        Ok(_) => Ok(()),
        Err(error) => Err(prefixed("Unable to update overlay passthrough mode: ", error.as_str())),
    }
}

/// The flag that the windowing system holds for the main window once the
/// caller has carried out `step`: the one the step names, or the one it held
/// before where the step asks for no change.
pub open spec fn flag_after(flag: bool, step: OverlayStepView) -> bool {
    match step {
        OverlayStepView::SetIgnoreCursorEvents(ignore) => ignore,
        _ => flag,
    }
}

/// The flag of an existing main window after one request for each entry of
/// `requests`, in that order, each carried out.
pub open spec fn flag_after_requests(flag: bool, requests: Seq<bool>) -> bool
    decreases requests.len(),
{
    if requests.len() == 0 {
        flag
    } else {
        flag_after_requests(
            flag_after(flag, passthrough_step(true, requests.first())),
            requests.drop_first(),
        )
    }
}

/// A request made while the main window does not exist fails with the
/// window-missing error and asks nothing of the windowing system, so that
/// whatever flag it holds stays.
pub proof fn lemma_missing_window_changes_nothing(ignore_cursor_events: bool, flag: bool)
    ensures
        passthrough_step(false, ignore_cursor_events) == OverlayStepView::Failed(
            window_missing_message(),
        ),
        flag_after(flag, passthrough_step(false, ignore_cursor_events)) == flag,
{
}

/// After any run of requests on an existing main window the flag is the one
/// that the last request asked for, whatever came before.
pub proof fn lemma_last_request_wins(flag: bool, requests: Seq<bool>)
    requires
        requests.len() > 0,
    ensures
        flag_after_requests(flag, requests) == requests.last(),
    decreases requests.len(),
{
    let rest = requests.drop_first();
    if rest.len() == 0 {
        assert(flag_after_requests(requests.first(), rest) == requests.first());
    } else {
        lemma_last_request_wins(requests.first(), rest);
        assert(rest.last() == requests.last());
    }
}

/// One thing done to the main window to bring it to the front. None of them
/// makes a window.
#[derive(Clone, Copy, Debug, PartialEq, Eq, Structural)]
pub enum WindowAction {
    Show,
    Unminimize,
    Focus,
}

/// What a second launch does to the window of the running instance: it is
/// shown, then restored, then focused, each once, where it exists, and nothing
/// happens where it does not.
pub open spec fn focus_plan(window_present: bool) -> Seq<WindowAction> {
    if window_present {
        seq![WindowAction::Show, WindowAction::Unminimize, WindowAction::Focus]
    } else {
        Seq::empty()
    }
}

/// How often `action` stands in `plan`.
pub open spec fn occurrences(plan: Seq<WindowAction>, action: WindowAction) -> nat
    decreases plan.len(),
{
    if plan.len() == 0 {
        0
    } else {
        occurrences(plan.drop_last(), action) + if plan.last() == action {
            1nat
        } else {
            0nat
        }
    }
}

/// Says what to do to the main window when the program is launched a second
/// time, given whether a window named [`MAIN_WINDOW`] exists. Each action is
/// attempted whether or not the one before it succeeded.
pub fn second_instance_launched(window_present: bool) -> (plan: Vec<WindowAction>)
    ensures
        plan@ == focus_plan(window_present),
{
    let mut plan: Vec<WindowAction> = Vec::new();
    if window_present {
        plan.push(WindowAction::Show);
        plan.push(WindowAction::Unminimize);
        plan.push(WindowAction::Focus);
    }
    assert(plan@ =~= focus_plan(window_present));
    plan
}

/// A second launch shows, restores and focuses the existing window exactly
/// once each, and does nothing else.
pub proof fn lemma_second_launch_focuses_once(action: WindowAction)
    ensures
        focus_plan(true).len() == 3,
        occurrences(focus_plan(true), action) == 1,
        occurrences(focus_plan(false), action) == 0,
{
    let plan = focus_plan(true);
    let two = plan.drop_last();
    let one = two.drop_last();
    let none = one.drop_last();
    assert(none.len() == 0);
    assert(occurrences(none, action) == 0);
    assert(one.last() == WindowAction::Show);
    assert(two.last() == WindowAction::Unminimize);
    assert(plan.last() == WindowAction::Focus);
    assert(occurrences(one, action) == occurrences(none, action) + if one.last() == action {
        1nat
    } else {
        0nat
    });
    assert(occurrences(two, action) == occurrences(one, action) + if two.last() == action {
        1nat
    } else {
        0nat
    });
}

} // verus!
