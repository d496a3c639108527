//! What the runner's buttons and status bar show and send.
use vstd::prelude::*;

use crate::argument::event_option_view;
use crate::command_runner::{Status, StatusView};
use crate::event::{Event, EventView};

verus! {

/// The event that the run button sends when pressed: `Execute`, unless the
/// runner is busy, in which case the button cannot be pressed.
pub fn run_button_event(runner_status: &Status) -> (event: Option<Event>)
    ensures
        event_option_view(event) == (if runner_status@.is_running() {
            None
        } else {
            Some(EventView::Execute)
        }),
{
    if runner_status.is_running() {
        None
    } else {
        Some(Event::Execute)
    }
}

/// The event that the clear-buffer button sends when pressed: `ClearBuffer`,
/// unless the runner is busy, in which case the button cannot be pressed.
pub fn clear_buffer_event(runner_status: &Status) -> (event: Option<Event>)
    ensures
        event_option_view(event) == (if runner_status@.is_running() {
            None
        } else {
            Some(EventView::ClearBuffer)
        }),
{
    if runner_status.is_running() {
        None
    } else {
        Some(Event::ClearBuffer)
    }
}

/// Which of the runner's three borders frames its window.
#[derive(Clone, Copy, PartialEq, Eq, Debug)]
pub enum BorderKind {
    /// ready to run
    Idle,
    /// starting or running a command
    Running,
    /// the last command failed
    Error,
}

/// The border for a status.
pub open spec fn spec_border_kind(status: StatusView) -> BorderKind {
    match status {
        StatusView::Idle => BorderKind::Idle,
        StatusView::Initialize => BorderKind::Running,
        StatusView::Running => BorderKind::Running,
        StatusView::Failed(_) => BorderKind::Error,
    }
}

/// The border that frames the window in `status`.
pub fn border_kind(status: &Status) -> (kind: BorderKind)
    ensures
        kind == spec_border_kind(status@),
{
    match status {
        Status::Idle => BorderKind::Idle,
        Status::Initialize => BorderKind::Running,
        Status::Running => BorderKind::Running,
        Status::Failed(_) => BorderKind::Error,
    }
}

/// What the status bar shows: its text, whether the text is in italics, and
/// whether the bar has the stronger of its two backgrounds.
#[derive(Clone, Debug)]
pub struct StatusLabel {
    pub text: String,
    pub italic: bool,
    pub stronger_background: bool,
}

/// The status bar's text for a status.
pub open spec fn status_text(status: StatusView) -> Seq<char> {
    match status {
        StatusView::Failed(message) => "Failed due to the following error: "@ + message,
        StatusView::Running => "Running"@,
        StatusView::Initialize => "Initializing"@,
        StatusView::Idle => "Ready"@,
    }
}

/// What the status bar shows in `runner_status`: a failure with its message
/// and a run in italics; every status but `Idle` on the stronger background.
pub fn status_label(runner_status: &Status) -> (label: StatusLabel)
    ensures
        label.text@ == status_text(runner_status@),
        label.italic == (runner_status@ is Failed || runner_status@ is Running),
        label.stronger_background == !(runner_status@ is Idle),
{
    match runner_status {
        Status::Failed(message) => {
            let mut text = String::from_str("Failed due to the following error: ");
            text.append(message.as_str());
            StatusLabel { text, italic: true, stronger_background: true }
        },
        Status::Running => StatusLabel {
            text: String::from_str("Running"),
            italic: true,
            stronger_background: true,
        },
        Status::Initialize => StatusLabel {
            text: String::from_str("Initializing"),
            italic: false,
            stronger_background: true,
        },
        Status::Idle => StatusLabel {
            text: String::from_str("Ready"),
            italic: false,
            stronger_background: false,
        },
    }
}

} // verus!
