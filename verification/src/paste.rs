//! Pasting a text into the focused window: the text goes to the clipboard, and
//! where the system can be scripted a paste keystroke follows.

use crate::platform::Platform;
use crate::process::ExitStatus;
use crate::text::prefixed;
use vstd::prelude::*;
use vstd::string::*;

verus! {

/// The script that sends the paste keystroke.
pub const PASTE_KEYSTROKE: &'static str =
    "tell application \"System Events\" to keystroke \"v\" using command down";

/// What a paste request achieved.
#[derive(Clone, Copy, Debug, PartialEq, Eq, Structural)]
pub struct PasteResult {
    /// Whether a keystroke was sent and reported successful.
    pub pasted: bool,
}

/// What the caller does next for a paste request.
#[derive(Debug)]
pub enum PasteStep {
    /// Put exactly this text on the clipboard, then report with
    /// [`clipboard_written`].
    WriteClipboard(String),
    /// Run [`PASTE_KEYSTROKE`], then report with [`keystroke_sent`].
    SendKeystroke,
    /// The request is over, with this result.
    Finished(Result<PasteResult, String>),
}

/// A step as a plain value.
pub ghost enum PasteStepView {
    WriteClipboard(Seq<char>),
    SendKeystroke,
    Succeeded(PasteResult),
    Failed(Seq<char>),
}

impl View for PasteStep {
    type V = PasteStepView;

    open spec fn view(&self) -> PasteStepView {
        match self {
            PasteStep::WriteClipboard(text) => PasteStepView::WriteClipboard(text@),
            PasteStep::SendKeystroke => PasteStepView::SendKeystroke,
            PasteStep::Finished(Ok(result)) => PasteStepView::Succeeded(*result),
            PasteStep::Finished(Err(message)) => PasteStepView::Failed(message@),
        }
    }
}

/// The outcome of work on the clipboard, as a plain value: nothing, or the
/// error's message.
pub open spec fn outcome_view(outcome: Result<(), String>) -> Result<(), Seq<char>> {
    match outcome {
        Ok(_) => Ok(()),
        Err(error) => Err(error@),
    }
}

/// The outcome of running the keystroke script, as a plain value: how it
/// ended, or the message of the error that kept it from running.
pub open spec fn keystroke_view(outcome: Result<ExitStatus, String>) -> Result<
    ExitStatus,
    Seq<char>,
> {
    match outcome {
        Ok(status) => Ok(status),
        Err(error) => Err(error@),
    }
}

/// The message for a clipboard that could not be opened.
pub open spec fn init_failure_message(error: Seq<char>) -> Seq<char> {
    "Clipboard init failed: "@ + error
}

/// The message for a clipboard that did not take the text.
pub open spec fn write_failure_message(error: Seq<char>) -> Seq<char> {
    "Clipboard write failed: "@ + error
}

/// The message for a keystroke script that could not be run.
pub open spec fn keystroke_failure_message(error: Seq<char>) -> Seq<char> {
    "Unable to trigger paste keystroke: "@ + error
}

/// The message for a keystroke script that ran and failed. A failed run is
/// read as a missing permission, whatever its cause.
pub open spec fn keystroke_blocked_message() -> Seq<char> {
    "Paste keystroke was blocked. Enable Accessibility access for Telepathy."@
}

/// The step after the clipboard was opened: the write of exactly `text`, or
/// the end with the error.
pub open spec fn after_open(text: Seq<char>, opened: Result<(), Seq<char>>) -> PasteStepView {
    match opened {
        Ok(_) => PasteStepView::WriteClipboard(text),
        Err(error) => PasteStepView::Failed(init_failure_message(error)),
    }
}

/// The step after the clipboard was written: the keystroke where the system
/// can be scripted, the end without one where it cannot, or the end with the
/// error.
pub open spec fn after_write(platform: Platform, written: Result<(), Seq<char>>) -> PasteStepView {
    match written {
        Ok(_) => if platform.automation_capable() {
            PasteStepView::SendKeystroke
        } else {
            PasteStepView::Succeeded(PasteResult { pasted: false })
        },
        Err(error) => PasteStepView::Failed(write_failure_message(error)),
    }
}

/// The end after the keystroke script was run.
pub open spec fn after_keystroke(sent: Result<ExitStatus, Seq<char>>) -> PasteStepView {
    match sent {
        Ok(status) => if status.success {
            PasteStepView::Succeeded(PasteResult { pasted: true })
        } else {
            PasteStepView::Failed(keystroke_blocked_message())
        },
        Err(error) => PasteStepView::Failed(keystroke_failure_message(error)),
    }
}

/// Starts a paste of `text`, given what became of opening the clipboard.
pub fn paste_text(text: String, opened: Result<(), String>) -> (step: PasteStep)
    ensures
        step@ == after_open(text@, outcome_view(opened)),
{
    match opened {
        Ok(_) => PasteStep::WriteClipboard(text),
        Err(error) => PasteStep::Finished(
            Err(prefixed("Clipboard init failed: ", error.as_str())),
        ),
    }
}

/// Takes what became of the write to the clipboard and says what follows.
pub fn clipboard_written(platform: Platform, written: Result<(), String>) -> (step: PasteStep)
    ensures
        step@ == after_write(platform, outcome_view(written)),
{
    match written {
        Ok(_) => {
            if platform.supports_automation() {
                PasteStep::SendKeystroke
            } else {
                PasteStep::Finished(Ok(PasteResult { pasted: false }))
            }
        },
        Err(error) => PasteStep::Finished(
            Err(prefixed("Clipboard write failed: ", error.as_str())),
        ),
    }
}

/// Takes what became of the keystroke script and ends the request.
pub fn keystroke_sent(sent: Result<ExitStatus, String>) -> (step: PasteStep)
    ensures
        step@ == after_keystroke(keystroke_view(sent)),
{
    match sent {
        Ok(status) => {
            if status.success {
                PasteStep::Finished(Ok(PasteResult { pasted: true }))
            } else {
                PasteStep::Finished(
                    Err(
                        String::from_str(
                            "Paste keystroke was blocked. Enable Accessibility access for Telepathy.",
                        ),
                    ),
                )
            }
        },
        Err(error) => PasteStep::Finished(
            Err(prefixed("Unable to trigger paste keystroke: ", error.as_str())),
        ),
    }
}

/// What the outside world did during one request: each entry is consulted
/// only if the request gets that far.
pub ghost struct PasteWorld {
    pub opened: Result<(), Seq<char>>,
    pub written: Result<(), Seq<char>>,
    pub sent: Result<ExitStatus, Seq<char>>,
}

/// How a whole request ends in a given world.
pub open spec fn paste_end(platform: Platform, text: Seq<char>, world: PasteWorld) -> PasteStepView {
    match after_open(text, world.opened) {
        PasteStepView::WriteClipboard(_) => match after_write(platform, world.written) {
            PasteStepView::SendKeystroke => after_keystroke(world.sent),
            end => end,
        },
        end => end,
    }
}

/// The text that the clipboard was asked to take during a request, if the
/// request got that far.
pub open spec fn text_written(text: Seq<char>, world: PasteWorld) -> Option<Seq<char>> {
    match after_open(text, world.opened) {
        PasteStepView::WriteClipboard(handed) => Some(handed),
        _ => None,
    }
}

/// Every request ends, and in one of two ways. It succeeds, and then the
/// clipboard was asked to take exactly the request's text and reported
/// success; a keystroke is reported exactly where the system can be scripted.
/// Or it fails with a message that is not empty.
pub proof fn lemma_paste_succeeds_or_reports(
    platform: Platform,
    text: Seq<char>,
    world: PasteWorld,
)
    ensures
        paste_end(platform, text, world) is Succeeded || paste_end(platform, text, world) is Failed,
        paste_end(platform, text, world) matches PasteStepView::Succeeded(result) ==> {
            &&& text_written(text, world) == Some(text)
            &&& world.opened is Ok
            &&& world.written is Ok
            &&& result.pasted == platform.automation_capable()
        },
        paste_end(platform, text, world) matches PasteStepView::Failed(message) ==> message.len()
            > 0,
{
    reveal_strlit("Clipboard init failed: ");
    reveal_strlit("Clipboard write failed: ");
    reveal_strlit("Unable to trigger paste keystroke: ");
    reveal_strlit("Paste keystroke was blocked. Enable Accessibility access for Telepathy.");
}

} // verus!
