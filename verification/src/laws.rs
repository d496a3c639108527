//! Laws of the runner and of the output pump.
use vstd::prelude::*;

use crate::argument::{
    OutputSource, PumpView, ReadOutcomeView, RunInputView, RunStage, RunView, chunk_entry, pump_step,
    run_step,
};
use crate::command_runner::{RunnerView, StatusView, after_output, command_line, rendered, step};
use crate::editor::TextAreaView;
use crate::event::{EventView, TerminalView};
use crate::misc::status_text;
use crate::text::{join, lossy_utf8};

verus! {

/// A busy runner (any status but `Idle`) refuses to execute: nothing
/// changes and no command starts.
pub proof fn lemma_busy_runner_refuses_execute(runner: RunnerView)
    requires
        runner.status.is_running(),
    ensures
        step(runner, EventView::Execute) == (runner, None::<crate::argument::ArgumentView>),
{
}

/// An idle runner that executes starts its command, moves to `Initialize`,
/// adds the command line to the end of its buffer and shows the buffer in
/// its window.
pub proof fn lemma_idle_runner_executes(runner: RunnerView)
    requires
        runner.status is Idle,
    ensures
        step(runner, EventView::Execute).1 == Some(runner.command),
        step(runner, EventView::Execute).0.status == StatusView::Initialize,
        step(runner, EventView::Execute).0.buffer == runner.buffer.push(
            TerminalView::StdIn(command_line(runner.prompt, runner.command)),
        ),
        step(runner, EventView::Execute).0.window.text == rendered(runner.buffer) + command_line(
            runner.prompt,
            runner.command,
        ),
{
    lemma_rendered_push(runner.buffer, TerminalView::StdIn(command_line(runner.prompt, runner.command)));
}

/// The window's text for a buffer with one more entry is the text for the
/// buffer, then the new entry's text.
pub proof fn lemma_rendered_push(buffer: Seq<TerminalView>, entry: TerminalView)
    ensures
        rendered(buffer.push(entry)) == rendered(buffer) + entry.text(),
{
    let f = |e: TerminalView| e.text();
    let lines = buffer.map_values(f);
    assert(buffer.push(entry).map_values(f) =~= lines.push(entry.text()));
    assert(lines.push(entry.text()).drop_last() =~= lines);
    if lines.len() == 0 {
        assert(rendered(buffer) == Seq::<char>::empty());
        assert(join(lines.push(entry.text()), Seq::empty()) == entry.text());
        assert(Seq::<char>::empty() + entry.text() =~= entry.text());
    } else {
        assert(join(lines.push(entry.text()), Seq::empty()) == join(lines, Seq::empty())
            + Seq::<char>::empty() + entry.text());
        assert(join(lines, Seq::empty()) + Seq::<char>::empty() =~= join(lines, Seq::empty()));
    }
}

/// Whatever the event, the window shows the buffer afterwards if it showed
/// it before: the text of every entry, in order.
pub proof fn lemma_window_shows_buffer(runner: RunnerView, event: EventView)
    requires
        runner.window.text == rendered(runner.buffer),
    ensures
        step(runner, event).0.window.text == rendered(step(runner, event).0.buffer),
{
    if event is ClearBuffer {
        assert(Seq::<TerminalView>::empty().map_values(|e: TerminalView| e.text())
            =~= Seq::<Seq<char>>::empty());
    }
}

/// Output that does not begin with a carriage return shows up at the end of
/// the window, after everything the window showed; output that does takes
/// the place of the last entry's text.
pub proof fn lemma_output_shows_at_end(runner: RunnerView, entry: TerminalView)
    requires
        runner.window.text == rendered(runner.buffer),
    ensures
        !(entry.starts_with_cr() && runner.buffer.len() > 0) ==> step(
            runner,
            EventView::Stream(entry),
        ).0.window.text == runner.window.text + entry.text(),
        entry.starts_with_cr() && runner.buffer.len() > 0 ==> step(
            runner,
            EventView::Stream(entry),
        ).0.window.text == rendered(runner.buffer.drop_last()) + entry.text(),
{
    if entry.starts_with_cr() && runner.buffer.len() > 0 {
        lemma_rendered_push(runner.buffer.drop_last(), entry);
    } else {
        lemma_rendered_push(runner.buffer, entry);
    }
}

/// Only `Execute` starts a command.
pub proof fn lemma_only_execute_starts(runner: RunnerView, event: EventView)
    requires
        step(runner, event).1 is Some,
    ensures
        event is Execute,
{
}

/// No event changes the command, the prompt or the window's line count.
pub proof fn lemma_step_keeps_configuration(runner: RunnerView, event: EventView)
    ensures
        step(runner, event).0.command == runner.command,
        step(runner, event).0.prompt == runner.prompt,
        step(runner, event).0.max_lines == runner.max_lines,
{
}

/// An edit action never reaches the window: nothing changes. Any other
/// editor action (a selection, a cursor move, a click, a drag, a scroll) is
/// handed to the window, which keeps its text; nothing else changes.
pub proof fn lemma_editor_actions_keep_text(runner: RunnerView, action: iced_core::text::editor::Action)
    ensures
        action is Edit ==> step(runner, EventView::EditorAction(action)) == (
            runner,
            None::<crate::argument::ArgumentView>,
        ),
        !(action is Edit) ==> step(runner, EventView::EditorAction(action)).0 == (RunnerView {
            window: runner.window.with_action(action),
            ..runner
        }),
        step(runner, EventView::EditorAction(action)).0.window.text == runner.window.text,
        step(runner, EventView::EditorAction(action)).1 is None,
{
}

/// Clearing empties the buffer, reloads the window with no text at all, and
/// keeps the status.
pub proof fn lemma_clear_empties_buffer(runner: RunnerView)
    ensures
        step(runner, EventView::ClearBuffer).0.buffer.len() == 0,
        step(runner, EventView::ClearBuffer).0.window == TextAreaView::loaded_with(Seq::empty()),
        step(runner, EventView::ClearBuffer).0.status == runner.status,
{
}

/// Output ends up as the buffer's last entry. An entry that begins with a
/// carriage return takes the place of the previous last entry, so the
/// buffer keeps its length; any other entry is added after all earlier ones.
pub proof fn lemma_output_is_last_entry(runner: RunnerView, entry: TerminalView)
    ensures
        step(runner, EventView::Stream(entry)).0.buffer.last() == entry,
        entry.starts_with_cr() && runner.buffer.len() > 0 ==> (
            step(runner, EventView::Stream(entry)).0.buffer.drop_last() == runner.buffer.drop_last()
            && step(runner, EventView::Stream(entry)).0.buffer.len() == runner.buffer.len()),
        !(entry.starts_with_cr() && runner.buffer.len() > 0) ==> step(
            runner,
            EventView::Stream(entry),
        ).0.buffer.drop_last() == runner.buffer,
        step(runner, EventView::Stream(entry)).0.status == runner.status,
{
    let b = after_output(runner.buffer, entry);
    if entry.starts_with_cr() && runner.buffer.len() > 0 {
        assert(b.drop_last() =~= runner.buffer.drop_last());
    } else {
        assert(b.drop_last() =~= runner.buffer);
    }
}

/// Apart from clearing and carriage-return output, every event keeps all
/// earlier buffer entries, in order, at the start of the buffer.
pub proof fn lemma_buffer_keeps_history(runner: RunnerView, event: EventView)
    requires
        !(event is ClearBuffer),
        event matches EventView::Stream(entry) ==> !entry.starts_with_cr(),
    ensures
        runner.buffer.len() <= step(runner, event).0.buffer.len(),
        step(runner, event).0.buffer.subrange(0, runner.buffer.len() as int) == runner.buffer,
{
    let b = step(runner, event).0.buffer;
    assert(b.subrange(0, runner.buffer.len() as int) =~= runner.buffer);
}

/// The status follows the command's life: `Spawing` makes it `Running`,
/// success makes it `Idle` and a failure `Failed` with its message; none of
/// them touches the buffer.
pub proof fn lemma_status_transitions(runner: RunnerView, message: Seq<char>)
    ensures
        step(runner, EventView::Spawing).0.status == StatusView::Running,
        step(runner, EventView::ExitSuccess).0.status == StatusView::Idle,
        step(runner, EventView::ExitError(message)).0.status == StatusView::Failed(message),
        step(runner, EventView::Spawing).0.buffer == runner.buffer,
        step(runner, EventView::ExitSuccess).0.buffer == runner.buffer,
        step(runner, EventView::ExitError(message)).0.buffer == runner.buffer,
{
}

/// A run that ends in success leaves the runner ready again: after
/// `Execute`, `Spawing`, one output entry and `ExitSuccess`, a further
/// `Execute` starts the same command again.
pub proof fn lemma_successful_run_can_repeat(runner: RunnerView, output: TerminalView)
    requires
        runner.status is Idle,
    ensures
        ({
            let r1 = step(runner, EventView::Execute).0;
            let r2 = step(r1, EventView::Spawing).0;
            let r3 = step(r2, EventView::Stream(output)).0;
            let r4 = step(r3, EventView::ExitSuccess).0;
            &&& r2.status.is_running()
            &&& step(r2, EventView::Execute).1 is None
            &&& r4.status is Idle
            &&& step(r4, EventView::Execute).1 == Some(runner.command)
        }),
{
}

/// Once both pipes have closed, reading is over, whatever was read before.
pub proof fn lemma_pump_finishes_after_both_close(pump: PumpView)
    ensures
        ({
            let p1 = pump_step(pump, OutputSource::StdOut, ReadOutcomeView::Bytes(Seq::empty())).0;
            let p2 = pump_step(p1, OutputSource::StdErr, ReadOutcomeView::Bytes(Seq::empty())).0;
            p2.finished()
        }),
{
}

/// A failed read ends reading and reports the error's message.
pub proof fn lemma_pump_failure_finishes(pump: PumpView, source: OutputSource, message: Seq<char>)
    ensures
        pump_step(pump, source, ReadOutcomeView::Failed(message)).0.finished(),
        pump_step(pump, source, ReadOutcomeView::Failed(message)).1 == Some(
            EventView::Stream(TerminalView::Error(message)),
        ),
{
}

/// Reading bytes leaves the pump as it was and passes the decoded bytes on
/// as output of the pipe they came from.
pub proof fn lemma_pump_passes_bytes_on(pump: PumpView, source: OutputSource, bytes: Seq<u8>)
    requires
        bytes.len() > 0,
    ensures
        pump_step(pump, source, ReadOutcomeView::Bytes(bytes)).0 == pump,
        pump_step(pump, source, ReadOutcomeView::Bytes(bytes)).1 == Some(
            EventView::Stream(chunk_entry(source, lossy_utf8(bytes))),
        ),
{
}

/// The runner after taking `events` in order.
pub open spec fn run_events(runner: RunnerView, events: Seq<EventView>) -> RunnerView
    decreases events.len(),
{
    if events.len() == 0 {
        runner
    } else {
        step(run_events(runner, events.drop_last()), events.last()).0
    }
}

/// The events that deliver `outputs` to a runner, one by one.
pub open spec fn output_events(outputs: Seq<TerminalView>) -> Seq<EventView> {
    outputs.map_values(|t: TerminalView| EventView::Stream(t))
}

/// Output that holds no carriage return at the start of an entry ends up at
/// the end of the buffer, entry by entry in the order it arrived, after
/// everything the buffer held; the status stays as it was.
pub proof fn lemma_output_kept_in_order(runner: RunnerView, outputs: Seq<TerminalView>)
    requires
        forall|i: int| 0 <= i < outputs.len() ==> !(#[trigger] outputs[i]).starts_with_cr(),
    ensures
        run_events(runner, output_events(outputs)).buffer == runner.buffer + outputs,
        run_events(runner, output_events(outputs)).status == runner.status,
    decreases outputs.len(),
{
    if outputs.len() == 0 {
        assert(output_events(outputs).len() == 0);
        assert(runner.buffer + outputs =~= runner.buffer);
    } else {
        let rest = outputs.drop_last();
        assert(output_events(outputs).drop_last() =~= output_events(rest));
        lemma_output_kept_in_order(runner, rest);
        let last = outputs.last();
        assert(!outputs[outputs.len() - 1].starts_with_cr());
        assert(output_events(outputs).last() == EventView::Stream(last));
        assert((runner.buffer + rest).push(last) =~= runner.buffer + outputs);
    }
}

/// The exit of the process is reported only once reading its output is
/// over, and reporting it finishes the run.
pub proof fn lemma_exit_only_after_reading(
    run: RunView,
    result: Result<(bool, Seq<char>), Seq<char>>,
)
    ensures
        run_step(run, RunInputView::Exited(result)).1 is Some ==> run.stage == RunStage::Waiting,
        run.stage == RunStage::Waiting ==> run_step(run, RunInputView::Exited(result)).0.stage
            == RunStage::Finished,
{
}

/// A process that fails to start ends the run with its error, and the
/// runner is never told that it started.
pub proof fn lemma_failed_start_finishes(run: RunView, message: Seq<char>)
    requires
        run.stage == RunStage::Spawning,
    ensures
        run_step(run, RunInputView::Spawned(Err(message))).0.stage == RunStage::Finished,
        run_step(run, RunInputView::Spawned(Err(message))).1 == Some(
            EventView::Stream(TerminalView::Error(message)),
        ),
{
}

/// While output is read, the run moves on to waiting for the exit exactly
/// when the pump is done.
pub proof fn lemma_reading_waits_when_done(run: RunView, source: OutputSource, outcome: ReadOutcomeView)
    requires
        run.stage == RunStage::Reading,
    ensures
        (run_step(run, RunInputView::Read(source, outcome)).0.stage == RunStage::Waiting)
            == run_step(run, RunInputView::Read(source, outcome)).0.pump.finished(),
        run_step(run, RunInputView::Read(source, outcome)).0.stage == RunStage::Waiting
            || run_step(run, RunInputView::Read(source, outcome)).0.stage == RunStage::Reading,
{
}

/// A command that starts, prints nothing and succeeds tells the runner
/// that it started and then that it succeeded, and nothing else.
pub proof fn lemma_quiet_successful_run(description: Seq<char>)
    ensures
        ({
            let r0 = RunView {
                stage: RunStage::Spawning,
                pump: PumpView { stdout_open: true, stderr_open: true, failed: false },
            };
            let (r1, e1) = run_step(r0, RunInputView::Spawned(Ok(())));
            let (r2, e2) = run_step(r1, RunInputView::Pipes { stdout: true, stderr: true });
            let (r3, e3) = run_step(
                r2,
                RunInputView::Read(OutputSource::StdOut, ReadOutcomeView::Bytes(Seq::empty())),
            );
            let (r4, e4) = run_step(
                r3,
                RunInputView::Read(OutputSource::StdErr, ReadOutcomeView::Bytes(Seq::empty())),
            );
            let (r5, e5) = run_step(r4, RunInputView::Exited(Ok((true, description))));
            &&& e1 == Some(EventView::Spawing)
            &&& e2 is None && e3 is None && e4 is None
            &&& r4.stage == RunStage::Waiting
            &&& e5 == Some(EventView::ExitSuccess)
            &&& r5.stage == RunStage::Finished
        }),
{
}

/// An entry begins with a carriage return exactly when its text is not
/// empty and its first character is `\r`, whatever its other characters.
pub proof fn lemma_carriage_return_is_first_character(entry: TerminalView)
    ensures
        entry.starts_with_cr() == (entry.text().len() > 0 && entry.text()[0] == '\r'),
{
}

/// Output whose text begins with `\r` (a progress bar redrawing itself)
/// takes the place of the last entry of a non-empty buffer, whatever else
/// its text holds; the buffer keeps its length.
pub proof fn lemma_progress_line_replaces_last(runner: RunnerView, entry: TerminalView)
    requires
        entry.text().len() > 0,
        entry.text()[0] == '\r',
        runner.buffer.len() > 0,
    ensures
        step(runner, EventView::Stream(entry)).0.buffer == runner.buffer.drop_last().push(entry),
        step(runner, EventView::Stream(entry)).0.buffer.len() == runner.buffer.len(),
{
}

/// Joining puts `sep` after every part but the last: the joined text is the
/// parts, each but the last followed by `sep`, one after another.
pub proof fn lemma_join_is_parts_with_separators(parts: Seq<Seq<char>>, sep: Seq<char>)
    ensures
        join(parts, sep) == parts.map(
            |i: int, x: Seq<char>| if i + 1 < parts.len() { x + sep } else { x },
        ).flatten(),
    decreases parts.len(),
{
    let m = parts.map(|i: int, x: Seq<char>| if i + 1 < parts.len() { x + sep } else { x });
    if parts.len() == 0 {
        assert(m =~= Seq::<Seq<char>>::empty());
    } else if parts.len() == 1 {
        assert(m.len() == 1);
        m.lemma_flatten_singleton();
    } else {
        let n = parts.len();
        let front = parts.drop_last();
        lemma_join_is_parts_with_separators(front, sep);
        let mf = front.map(|i: int, x: Seq<char>| if i + 1 < front.len() { x + sep } else { x });
        // The front's mapping ends with its last part alone; here it is followed by `sep`.
        assert(mf =~= mf.drop_last().push(parts[n - 2]));
        assert(m =~= mf.drop_last().push(parts[n - 2] + sep).push(parts[n - 1]));
        mf.drop_last().lemma_flatten_push(parts[n - 2]);
        mf.drop_last().lemma_flatten_push(parts[n - 2] + sep);
        mf.drop_last().push(parts[n - 2] + sep).lemma_flatten_push(parts[n - 1]);
        assert(join(parts, sep) == join(front, sep) + sep + parts[n - 1]);
        assert(m.flatten() =~= mf.drop_last().flatten() + parts[n - 2] + sep + parts[n - 1]);
    }
}

/// A command line is the prompt, a space, the program, a space, every
/// argument in order with a single space between each two, and a line
/// break; no argument is left out.
pub proof fn lemma_command_line_shows_every_argument(
    prompt: Seq<char>,
    command: crate::argument::ArgumentView,
)
    ensures
        command_line(prompt, command) == prompt + " "@ + command.program + " "@ + command.args.map(
            |i: int, x: Seq<char>| if i + 1 < command.args.len() { x + " "@ } else { x },
        ).flatten() + "\n"@,
{
    lemma_join_is_parts_with_separators(command.args, " "@);
}

/// A pump that has not failed keeps reading while one of its pipes is still
/// open, and is done once a read fails or both pipes have closed.
pub proof fn lemma_pump_done_only_when_both_closed(pump: PumpView)
    ensures
        pump.finished() == (pump.failed || (!pump.stdout_open && !pump.stderr_open)),
        !pump.failed && pump.stderr_open ==> !pump.close(OutputSource::StdOut).finished(),
        !pump.failed && pump.stdout_open ==> !pump.close(OutputSource::StdErr).finished(),
{
}

/// When stdout closes while stderr is still open, the run goes on reading:
/// what stderr prints next still reaches the runner, and the run waits for
/// the exit only once stderr closes too.
pub proof fn lemma_stderr_read_after_stdout_closes(run: RunView, bytes: Seq<u8>)
    requires
        run.stage == RunStage::Reading,
        !run.pump.failed,
        run.pump.stderr_open,
        bytes.len() > 0,
    ensures
        ({
            let (r1, e1) = run_step(
                run,
                RunInputView::Read(OutputSource::StdOut, ReadOutcomeView::Bytes(Seq::empty())),
            );
            let (r2, e2) = run_step(
                r1,
                RunInputView::Read(OutputSource::StdErr, ReadOutcomeView::Bytes(bytes)),
            );
            let (r3, e3) = run_step(
                r2,
                RunInputView::Read(OutputSource::StdErr, ReadOutcomeView::Bytes(Seq::empty())),
            );
            &&& e1 is None
            &&& r1.stage == RunStage::Reading
            &&& e2 == Some(EventView::Stream(TerminalView::StdErr(lossy_utf8(bytes))))
            &&& r2.stage == RunStage::Reading
            &&& e3 is None
            &&& r3.stage == RunStage::Waiting
        }),
{
}

/// Bytes read from a pipe reach the runner as an entry of that same pipe
/// whose text is exactly the decoded bytes, nothing added or removed.
pub proof fn lemma_read_bytes_become_entry_of_their_pipe(
    pump: PumpView,
    source: OutputSource,
    bytes: Seq<u8>,
)
    requires
        bytes.len() > 0,
    ensures
        source == OutputSource::StdOut ==> pump_step(pump, source, ReadOutcomeView::Bytes(bytes)).1
            == Some(EventView::Stream(TerminalView::StdOut(lossy_utf8(bytes)))),
        source == OutputSource::StdErr ==> pump_step(pump, source, ReadOutcomeView::Bytes(bytes)).1
            == Some(EventView::Stream(TerminalView::StdErr(lossy_utf8(bytes)))),
        chunk_entry(source, lossy_utf8(bytes)).text() == lossy_utf8(bytes),
{
}

/// The status bar shows a failure's whole message after its fixed
/// introduction, so two different messages never show the same text.
pub proof fn lemma_failure_label_shows_whole_message(message: Seq<char>, other: Seq<char>)
    ensures
        status_text(StatusView::Failed(message)) == "Failed due to the following error: "@ + message,
        message != other ==> status_text(StatusView::Failed(message)) != status_text(
            StatusView::Failed(other),
        ),
{
    let intro = "Failed due to the following error: "@;
    if message != other && intro + message == intro + other {
        assert((intro + message).subrange(intro.len() as int, (intro + message).len() as int)
            =~= message);
        assert((intro + other).subrange(intro.len() as int, (intro + other).len() as int)
            =~= other);
    }
}

} // verus!
