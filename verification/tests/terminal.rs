use iced_command_runner::{
    CommandRun, Event, OutputPump, RunInput, RunStage, OutputSource, ReadOutcome, Terminal, exit_event, failure_event,
    missing_pipe_event,
};

#[test]
fn as_str_gives_the_text_of_each_kind() {
    assert_eq!(Terminal::StdIn("a".to_string()).as_str(), "a");
    assert_eq!(Terminal::StdOut("b".to_string()).as_str(), "b");
    assert_eq!(Terminal::StdErr("c".to_string()).as_str(), "c");
    assert_eq!(Terminal::Error("d".to_string()).as_str(), "d");
}

#[test]
fn carriage_return_is_seen_only_at_the_start() {
    assert!(Terminal::StdOut("\r50%".to_string()).starts_with_carriage_return());
    assert!(Terminal::StdIn("\r".to_string()).starts_with_carriage_return());
    assert!(Terminal::Error("\r\n".to_string()).starts_with_carriage_return());
    assert!(!Terminal::StdErr("50%\r".to_string()).starts_with_carriage_return());
    assert!(!Terminal::StdOut(String::new()).starts_with_carriage_return());
    assert!(!Terminal::StdOut("\n\r".to_string()).starts_with_carriage_return());
}

#[test]
fn pump_passes_output_on_by_pipe() {
    let mut pump = OutputPump::new();
    assert!(pump.is_open(OutputSource::StdOut));
    assert!(pump.is_open(OutputSource::StdErr));
    let out = pump.receive(OutputSource::StdOut, ReadOutcome::Bytes(b"hi\n".to_vec()));
    assert_eq!(out, Some(Event::Stream(Terminal::StdOut("hi\n".to_string()))));
    let err = pump.receive(OutputSource::StdErr, ReadOutcome::Bytes(b"oops".to_vec()));
    assert_eq!(err, Some(Event::Stream(Terminal::StdErr("oops".to_string()))));
    assert!(!pump.finished());
}

#[test]
fn pump_replaces_invalid_utf8() {
    let mut pump = OutputPump::new();
    let out = pump.receive(OutputSource::StdOut, ReadOutcome::Bytes(vec![b'a', 0xff, b'b']));
    assert_eq!(out, Some(Event::Stream(Terminal::StdOut("a\u{FFFD}b".to_string()))));
}

#[test]
fn pump_finishes_when_both_pipes_close() {
    let mut pump = OutputPump::new();
    assert_eq!(pump.receive(OutputSource::StdErr, ReadOutcome::Bytes(Vec::new())), None);
    assert!(!pump.is_open(OutputSource::StdErr));
    assert!(pump.is_open(OutputSource::StdOut));
    assert!(!pump.finished());
    assert_eq!(pump.receive(OutputSource::StdOut, ReadOutcome::Bytes(Vec::new())), None);
    assert!(pump.finished());
}

#[test]
fn pump_finishes_on_a_failed_read() {
    let mut pump = OutputPump::new();
    let event = pump.receive(OutputSource::StdOut, ReadOutcome::Failed("broken pipe".to_string()));
    assert_eq!(event, Some(Event::Stream(Terminal::Error("broken pipe".to_string()))));
    assert!(pump.finished());
}

#[test]
fn exit_and_failure_events() {
    assert_eq!(exit_event(true, "exit status: 0".to_string()), Event::ExitSuccess);
    assert_eq!(
        exit_event(false, "exit status: 2".to_string()),
        Event::ExitError("exit status: 2".to_string())
    );
    assert_eq!(
        failure_event("No such file".to_string()),
        Event::Stream(Terminal::Error("No such file".to_string()))
    );
    assert_eq!(
        missing_pipe_event(OutputSource::StdOut),
        Event::Stream(Terminal::Error("Unable to spawing stdout".to_string()))
    );
    assert_eq!(
        missing_pipe_event(OutputSource::StdErr),
        Event::Stream(Terminal::Error("Unable to spawing stderr".to_string()))
    );
}

#[test]
fn run_reports_start_output_and_exit_in_order() {
    let mut run = CommandRun::new();
    assert_eq!(run.stage(), RunStage::Spawning);
    assert_eq!(run.advance(RunInput::Spawned(Ok(()))), Some(Event::Spawing));
    assert_eq!(run.advance(RunInput::Pipes { stdout: true, stderr: true }), None);
    assert_eq!(run.stage(), RunStage::Reading);
    assert_eq!(
        run.advance(RunInput::Read(OutputSource::StdOut, ReadOutcome::Bytes(b"hi".to_vec()))),
        Some(Event::Stream(Terminal::StdOut("hi".to_string())))
    );
    assert_eq!(run.advance(RunInput::Exited(Ok((true, String::new())))), None);
    assert_eq!(run.advance(RunInput::Read(OutputSource::StdOut, ReadOutcome::Bytes(Vec::new()))), None);
    assert!(!run.is_open(OutputSource::StdOut));
    assert_eq!(run.advance(RunInput::Read(OutputSource::StdErr, ReadOutcome::Bytes(Vec::new()))), None);
    assert_eq!(run.stage(), RunStage::Waiting);
    assert_eq!(
        run.advance(RunInput::Exited(Ok((false, "exit status: 3".to_string())))),
        Some(Event::ExitError("exit status: 3".to_string()))
    );
    assert_eq!(run.stage(), RunStage::Finished);
    assert_eq!(run.advance(RunInput::Exited(Ok((true, String::new())))), None);
}

#[test]
fn run_that_fails_to_start_reports_the_error() {
    let mut run = CommandRun::new();
    assert_eq!(
        run.advance(RunInput::Spawned(Err("No such file or directory".to_string()))),
        Some(Event::Stream(Terminal::Error("No such file or directory".to_string())))
    );
    assert_eq!(run.stage(), RunStage::Finished);
    assert_eq!(run.advance(RunInput::Pipes { stdout: true, stderr: true }), None);
}

#[test]
fn run_without_a_pipe_reports_it() {
    let mut run = CommandRun::new();
    run.advance(RunInput::Spawned(Ok(())));
    assert_eq!(
        run.advance(RunInput::Pipes { stdout: true, stderr: false }),
        Some(Event::Stream(Terminal::Error("Unable to spawing stderr".to_string())))
    );
    assert_eq!(run.stage(), RunStage::Finished);
}

#[test]
fn run_whose_wait_fails_reports_the_error() {
    let mut run = CommandRun::new();
    run.advance(RunInput::Spawned(Ok(())));
    run.advance(RunInput::Pipes { stdout: true, stderr: true });
    run.advance(RunInput::Read(OutputSource::StdErr, ReadOutcome::Failed("gone".to_string())));
    assert_eq!(run.stage(), RunStage::Waiting);
    assert_eq!(
        run.advance(RunInput::Exited(Err("wait failed".to_string()))),
        Some(Event::Stream(Terminal::Error("wait failed".to_string())))
    );
}
