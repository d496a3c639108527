//! The command to run, and the decisions taken while its output is read.
use vstd::prelude::*;

use crate::event::{Event, EventView, Terminal, TerminalView};
use crate::text::{decode_lossy, lossy_utf8, views};

verus! {

/// Command line arguments to run
#[derive(Clone, Debug)]
pub struct Argument {
    pub program: String,
    pub args: Vec<String>,
}

/// A command: the program and its arguments, as character sequences.
pub struct ArgumentView {
    pub program: Seq<char>,
    pub args: Seq<Seq<char>>,
}

impl View for Argument {
    type V = ArgumentView;

    open spec fn view(&self) -> ArgumentView {
        ArgumentView { program: self.program@, args: views(self.args@) }
    }
}

/// A copy of each string, in order.
pub(crate) fn copy_strings(strings: &Vec<String>) -> (copy: Vec<String>)
    ensures
        copy@ == strings@,
{
    let mut copy: Vec<String> = Vec::new();
    let n = strings.len();
    let mut i: usize = 0;
    while i < n
        invariant
            n == strings@.len(),
            0 <= i <= n,
            copy@ == strings@.take(i as int),
        decreases n - i,
    {
        copy.push(strings[i].clone());
        assert(strings@.take(i + 1) =~= strings@.take(i as int).push(strings@[i as int]));
        i = i + 1;
    }
    assert(strings@.take(n as int) =~= strings@);
    copy
}

impl Argument {
    /// The command that runs `program` with `args`.
    pub fn new(program: String, args: Vec<String>) -> (argument: Argument)
        ensures
            argument.program == program,
            argument.args == args,
            argument@ == (ArgumentView { program: program@, args: views(args@) }),
    {
        Argument { program, args }
    }

    /// A copy of the command.
    pub(crate) fn copied(&self) -> (copy: Argument)
        ensures
            copy.program == self.program,
            copy.args@ == self.args@,
            copy@ == self@,
    {
        Argument { program: self.program.clone(), args: copy_strings(&self.args) }
    }
}

/// One of the two output pipes of a running command.
#[derive(Clone, Copy, PartialEq, Eq, Debug)]
pub enum OutputSource {
    StdOut,
    StdErr,
}

/// What one read from an output pipe gave: some bytes (none at all when the
/// pipe has closed), or a read error with its message.
#[derive(Clone, Debug)]
pub enum ReadOutcome {
    Bytes(Vec<u8>),
    Failed(String),
}

/// A read's outcome, with its bytes and message as sequences.
pub enum ReadOutcomeView {
    Bytes(Seq<u8>),
    Failed(Seq<char>),
}

impl View for ReadOutcome {
    type V = ReadOutcomeView;

    open spec fn view(&self) -> ReadOutcomeView {
        match self {
            ReadOutcome::Bytes(b) => ReadOutcomeView::Bytes(b@),
            ReadOutcome::Failed(e) => ReadOutcomeView::Failed(e@),
        }
    }
}

/// Tracks which output pipes of a running command are still read, and
/// whether reading has failed.
#[derive(Clone, Copy, Debug)]
pub struct OutputPump {
    stdout_open: bool,
    stderr_open: bool,
    failed: bool,
}

/// The state of an [`OutputPump`].
pub struct PumpView {
    pub stdout_open: bool,
    pub stderr_open: bool,
    pub failed: bool,
}

impl View for OutputPump {
    type V = PumpView;

    closed spec fn view(&self) -> PumpView {
        PumpView { stdout_open: self.stdout_open, stderr_open: self.stderr_open, failed: self.failed }
    }
}

impl PumpView {
    /// The pipe is still to be read.
    pub open spec fn is_open(self, source: OutputSource) -> bool {
        match source {
            OutputSource::StdOut => self.stdout_open,
            OutputSource::StdErr => self.stderr_open,
        }
    }

    /// Reading is over: a read failed, or both pipes have closed.
    pub open spec fn finished(self) -> bool {
        self.failed || (!self.stdout_open && !self.stderr_open)
    }

    /// The same state with `source` closed.
    pub open spec fn close(self, source: OutputSource) -> PumpView {
        match source {
            OutputSource::StdOut => PumpView { stdout_open: false, ..self },
            OutputSource::StdErr => PumpView { stderr_open: false, ..self },
        }
    }
}

/// The entry that a chunk of `text` read from `source` becomes.
pub open spec fn chunk_entry(source: OutputSource, text: Seq<char>) -> TerminalView {
    match source {
        OutputSource::StdOut => TerminalView::StdOut(text),
        OutputSource::StdErr => TerminalView::StdErr(text),
    }
}

/// What reading `outcome` from `source` does to the pump, and the event it
/// sends to the runner: bytes become an output entry of that pipe, an empty
/// read closes the pipe, and a failed read sends its message as an error
/// and ends reading.
pub open spec fn pump_step(pump: PumpView, source: OutputSource, outcome: ReadOutcomeView) -> (
    PumpView,
    Option<EventView>,
) {
    match outcome {
        ReadOutcomeView::Bytes(bytes) => if bytes.len() == 0 {
            (pump.close(source), None)
        } else {
            (pump, Some(EventView::Stream(chunk_entry(source, lossy_utf8(bytes)))))
        },
        ReadOutcomeView::Failed(message) => (
            PumpView { failed: true, ..pump },
            Some(EventView::Stream(TerminalView::Error(message))),
        ),
    }
}

/// The view of an optional event.
pub open spec fn event_option_view(event: Option<Event>) -> Option<EventView> {
    match event {
        Some(e) => Some(e@),
        None => None,
    }
}

impl OutputPump {
    /// A pump with both pipes open.
    pub fn new() -> (pump: OutputPump)
        ensures
            pump@ == (PumpView { stdout_open: true, stderr_open: true, failed: false }),
    {
        OutputPump { stdout_open: true, stderr_open: true, failed: false }
    }

    /// Whether `source` is still to be read.
    pub fn is_open(&self, source: OutputSource) -> (open: bool)
        ensures
            open == self@.is_open(source),
    {
        match source {
            OutputSource::StdOut => self.stdout_open,
            OutputSource::StdErr => self.stderr_open,
        }
    }

    /// Whether reading is over.
    pub fn finished(&self) -> (done: bool)
        ensures
            done == self@.finished(),
    {
        self.failed || (!self.stdout_open && !self.stderr_open)
    }

    /// Takes in the outcome of one read from `source` and gives the event to
    /// send to the runner, if any.
    pub fn receive(&mut self, source: OutputSource, outcome: ReadOutcome) -> (event: Option<Event>)
        ensures
            (final(self)@, event_option_view(event)) == pump_step(old(self)@, source, outcome@),
    {
        match outcome {
            ReadOutcome::Bytes(bytes) => {
                if bytes.len() == 0 {
                    match source {
                        OutputSource::StdOut => self.stdout_open = false,
                        OutputSource::StdErr => self.stderr_open = false,
                    }
                    None
                } else {
                    let chunk = decode_lossy(bytes.as_slice());
                    let entry = match source {
                        OutputSource::StdOut => Terminal::StdOut(chunk),
                        OutputSource::StdErr => Terminal::StdErr(chunk),
                    };
                    Some(Event::Stream(entry))
                }
            },
            ReadOutcome::Failed(message) => {
                self.failed = true;
                Some(Event::Stream(Terminal::Error(message)))
            },
        }
    }
}

/// The event that reports an error with `message` (the command could not be
/// started, or waiting for it failed).
pub fn failure_event(message: String) -> (event: Event)
    ensures
        event@ == EventView::Stream(TerminalView::Error(message@)),
{
    Event::Stream(Terminal::Error(message))
}

/// The message sent when the pipe of `source` could not be taken from the
/// started command.
pub open spec fn missing_pipe_message(source: OutputSource) -> Seq<char> {
    match source {
        OutputSource::StdOut => "Unable to spawing stdout"@,
        OutputSource::StdErr => "Unable to spawing stderr"@,
    }
}

/// The event sent when the pipe of `source` could not be taken from the
/// started command.
pub fn missing_pipe_event(source: OutputSource) -> (event: Event)
    ensures
        event@ == EventView::Stream(TerminalView::Error(missing_pipe_message(source))),
{
    let message = match source {
        OutputSource::StdOut => String::from_str("Unable to spawing stdout"),
        OutputSource::StdErr => String::from_str("Unable to spawing stderr"),
    };
    Event::Stream(Terminal::Error(message))
}

/// The event that reports how the command ended: success, or an exit error
/// carrying the exit status's description.
pub fn exit_event(success: bool, description: String) -> (event: Event)
    ensures
        event@ == (if success { EventView::ExitSuccess } else { EventView::ExitError(description@) }),
{
    if success {
        Event::ExitSuccess
    } else {
        Event::ExitError(description)
    }
}

/// Where the run of a started command stands.
#[derive(Clone, Copy, PartialEq, Eq, Structural, Debug)]
pub enum RunStage {
    /// the process is being started
    Spawning,
    /// the process started; its output pipes are being taken
    TakingPipes,
    /// its output is being read
    Reading,
    /// reading is over; the process's exit is awaited
    Waiting,
    /// nothing more is sent
    Finished,
}

/// What happened to the process of a run, as the runner of the process
/// learns it: whether it started (or the error's message), whether its two
/// output pipes could be taken, one read from a pipe, and how it exited
/// (success and the exit status's description, or the error's message).
#[derive(Debug)]
pub enum RunInput {
    Spawned(Result<(), String>),
    Pipes { stdout: bool, stderr: bool },
    Read(OutputSource, ReadOutcome),
    Exited(Result<(bool, String), String>),
}

/// A run input, with its texts and bytes as sequences.
pub enum RunInputView {
    Spawned(Result<(), Seq<char>>),
    Pipes { stdout: bool, stderr: bool },
    Read(OutputSource, ReadOutcomeView),
    Exited(Result<(bool, Seq<char>), Seq<char>>),
}

impl View for RunInput {
    type V = RunInputView;

    open spec fn view(&self) -> RunInputView {
        match self {
            RunInput::Spawned(Ok(())) => RunInputView::Spawned(Ok(())),
            RunInput::Spawned(Err(m)) => RunInputView::Spawned(Err(m@)),
            RunInput::Pipes { stdout, stderr } => RunInputView::Pipes { stdout: *stdout, stderr: *stderr },
            RunInput::Read(source, outcome) => RunInputView::Read(*source, outcome@),
            RunInput::Exited(Ok((success, description))) => RunInputView::Exited(
                Ok((*success, description@)),
            ),
            RunInput::Exited(Err(m)) => RunInputView::Exited(Err(m@)),
        }
    }
}

/// The run of a started command: its stage and its output pump.
pub struct CommandRun {
    stage: RunStage,
    pump: OutputPump,
}

/// The state of a [`CommandRun`].
pub struct RunView {
    pub stage: RunStage,
    pub pump: PumpView,
}

impl View for CommandRun {
    type V = RunView;

    closed spec fn view(&self) -> RunView {
        RunView { stage: self.stage, pump: self.pump@ }
    }
}

/// What an input does to a run, and the event it sends to the runner. A
/// failed start, a missing pipe or the process's exit finishes the run; a
/// successful start sends `Spawing`; reads go through the pump, and the run
/// waits for the exit once reading is over. An input that does not belong
/// to the run's stage changes nothing and sends nothing.
pub open spec fn run_step(run: RunView, input: RunInputView) -> (RunView, Option<EventView>) {
    match input {
        RunInputView::Spawned(result) => if run.stage == RunStage::Spawning {
            match result {
                Ok(()) => (RunView { stage: RunStage::TakingPipes, ..run }, Some(EventView::Spawing)),
                Err(m) => (
                    RunView { stage: RunStage::Finished, ..run },
                    Some(EventView::Stream(TerminalView::Error(m))),
                ),
            }
        } else {
            (run, None)
        },
        RunInputView::Pipes { stdout, stderr } => if run.stage == RunStage::TakingPipes {
            if !stdout {
                (
                    RunView { stage: RunStage::Finished, ..run },
                    Some(EventView::Stream(TerminalView::Error(missing_pipe_message(OutputSource::StdOut)))),
                )
            } else if !stderr {
                (
                    RunView { stage: RunStage::Finished, ..run },
                    Some(EventView::Stream(TerminalView::Error(missing_pipe_message(OutputSource::StdErr)))),
                )
            } else {
                (RunView { stage: RunStage::Reading, ..run }, None)
            }
        } else {
            (run, None)
        },
        RunInputView::Read(source, outcome) => if run.stage == RunStage::Reading {
            let (pump, event) = pump_step(run.pump, source, outcome);
            (
                RunView {
                    stage: if pump.finished() { RunStage::Waiting } else { RunStage::Reading },
                    pump,
                },
                event,
            )
        } else {
            (run, None)
        },
        RunInputView::Exited(result) => if run.stage == RunStage::Waiting {
            (
                RunView { stage: RunStage::Finished, ..run },
                Some(
                    match result {
                        Ok((success, description)) => if success {
                            EventView::ExitSuccess
                        } else {
                            EventView::ExitError(description)
                        },
                        Err(m) => EventView::Stream(TerminalView::Error(m)),
                    },
                ),
            )
        } else {
            (run, None)
        },
    }
}

impl CommandRun {
    /// A run whose process is being started.
    pub fn new() -> (run: CommandRun)
        ensures
            run@ == (RunView {
                stage: RunStage::Spawning,
                pump: PumpView { stdout_open: true, stderr_open: true, failed: false },
            }),
    {
        CommandRun { stage: RunStage::Spawning, pump: OutputPump::new() }
    }

    /// The run's stage.
    pub fn stage(&self) -> (stage: RunStage)
        ensures
            stage == self@.stage,
    {
        self.stage
    }

    /// Whether `source` is still to be read.
    pub fn is_open(&self, source: OutputSource) -> (open: bool)
        ensures
            open == self@.pump.is_open(source),
    {
        self.pump.is_open(source)
    }

    /// Takes in what happened to the process and gives the event to send to
    /// the runner, if any.
    pub fn advance(&mut self, input: RunInput) -> (event: Option<Event>)
        ensures
            (final(self)@, event_option_view(event)) == run_step(old(self)@, input@),
    {
        match input {
            RunInput::Spawned(result) => {
                if self.stage != RunStage::Spawning {
                    return None;
                }
                match result {
                    Ok(()) => {
                        self.stage = RunStage::TakingPipes;
                        Some(Event::Spawing)
                    },
                    Err(message) => {
                        self.stage = RunStage::Finished;
                        Some(failure_event(message))
                    },
                }
            },
            RunInput::Pipes { stdout, stderr } => {
                if self.stage != RunStage::TakingPipes {
                    return None;
                }
                if !stdout {
                    self.stage = RunStage::Finished;
                    Some(missing_pipe_event(OutputSource::StdOut))
                } else if !stderr {
                    self.stage = RunStage::Finished;
                    Some(missing_pipe_event(OutputSource::StdErr))
                } else {
                    self.stage = RunStage::Reading;
                    None
                }
            },
            RunInput::Read(source, outcome) => {
                if self.stage != RunStage::Reading {
                    return None;
                }
                let event = self.pump.receive(source, outcome);
                if self.pump.finished() {
                    self.stage = RunStage::Waiting;
                }
                event
            },
            RunInput::Exited(result) => {
                if self.stage != RunStage::Waiting {
                    return None;
                }
                self.stage = RunStage::Finished;
                match result {
                    Ok((success, description)) => Some(exit_event(success, description)),
                    Err(message) => Some(failure_event(message)),
                }
            },
        }
    }
}

} // verus!
