//! A runner that executes a terminal command and keeps what it prints.
mod argument;
mod command_runner;
mod editor;
pub mod laws;
mod misc;
pub mod event;
mod text;

pub use argument::{
    Argument, ArgumentView, CommandRun, OutputPump, RunInput, RunInputView, RunStage, RunView,
    run_step, OutputSource, PumpView, ReadOutcome, ReadOutcomeView,
    chunk_entry, event_option_view, exit_event, failure_event, missing_pipe_event,
    missing_pipe_message, pump_step,
};
pub use command_runner::{
    CommandRunner, DEFAULT_MAX_LINES, RunnerView, Status, StatusView, after_output,
    argument_option_view, command_line, default_prompt, entries, rendered,
    shell_prompt, step,
};
pub use event::{Event, EventView, Terminal, TerminalView};
pub use misc::{
    BorderKind, StatusLabel, border_kind, clear_buffer_event, run_button_event, spec_border_kind,
    status_label, status_text,
};
pub use editor::{EditorContent, TextArea, TextAreaView, editor_text, is_edit_action};
pub use text::{join, join_strings, lossy_utf8, views};

use vstd::prelude::*;

verus! {

/// Create CommandRunner instance
pub fn create_runner(command: String, args: Vec<String>, prompt: String) -> (runner: CommandRunner)
    ensures
        runner@ == (RunnerView {
            command: ArgumentView { program: command@, args: views(args@) },
            buffer: Seq::empty(),
            status: StatusView::Idle,
            prompt: prompt@,
            max_lines: Some(DEFAULT_MAX_LINES),
            window: TextAreaView::loaded_with(Seq::empty()),
        }),
{
    CommandRunner::new(command, args, prompt)
}

} // verus!
