//! The runner: the command to execute, what it has printed, and its status.
use vstd::prelude::*;

use crate::argument::{Argument, ArgumentView};
use crate::editor::{TextArea, TextAreaView, is_edit_action};
use crate::event::{Event, EventView, Terminal, TerminalView};
use crate::text::{join, join_strings, views};

verus! {

/// Command execution status
#[derive(Clone, PartialEq, Debug)]
pub enum Status {
    /// ready to run
    Idle,
    /// spawing
    Initialize,
    /// currently running command
    Running,
    /// ExitError with error message
    Failed(String),
}

/// A status, with a failure's message as a character sequence.
pub enum StatusView {
    Idle,
    Initialize,
    Running,
    Failed(Seq<char>),
}

impl StatusView {
    /// A runner in this status does not take a new command: every status
    /// but `Idle`.
    pub open spec fn is_running(self) -> bool {
        !(self is Idle)
    }
}

impl View for Status {
    type V = StatusView;

    open spec fn view(&self) -> StatusView {
        match self {
            Status::Idle => StatusView::Idle,
            Status::Initialize => StatusView::Initialize,
            Status::Running => StatusView::Running,
            Status::Failed(m) => StatusView::Failed(m@),
        }
    }
}

impl Status {
    /// Whether the runner is busy, i.e. in any status but `Idle`.
    pub fn is_running(&self) -> (running: bool)
        ensures
            running == self@.is_running(),
    {
        match self {
            Status::Idle => false,
            _ => true,
        }
    }
}

/// The entries of a buffer, as views.
pub open spec fn entries(buffer: Seq<Terminal>) -> Seq<TerminalView> {
    buffer.map_values(|t: Terminal| t@)
}

/// The line that shows a command about to run: the prompt, the program and
/// the arguments separated by single spaces, and a line break.
pub open spec fn command_line(prompt: Seq<char>, command: ArgumentView) -> Seq<char> {
    prompt + " "@ + command.program + " "@ + join(command.args, " "@) + "\n"@
}

/// The whole buffer as the output window shows it: the text of each entry,
/// one after another, in order.
pub open spec fn rendered(buffer: Seq<TerminalView>) -> Seq<char> {
    join(buffer.map_values(|e: TerminalView| e.text()), Seq::empty())
}

/// The buffer after output `entry` arrives: an entry that begins with a
/// carriage return replaces the last entry, if there is one; any other entry
/// is added at the end.
pub open spec fn after_output(buffer: Seq<TerminalView>, entry: TerminalView) -> Seq<TerminalView> {
    if entry.starts_with_cr() && buffer.len() > 0 {
        buffer.drop_last().push(entry)
    } else {
        buffer.push(entry)
    }
}

/// What a runner is: its command, its buffer of terminal entries, its
/// status, its prompt, the number of lines its window shows, and its
/// output window.
pub struct RunnerView {
    pub command: ArgumentView,
    pub buffer: Seq<TerminalView>,
    pub status: StatusView,
    pub prompt: Seq<char>,
    pub max_lines: Option<u32>,
    pub window: TextAreaView,
}

/// What an event does to a runner, and the command it asks to start, if any.
pub open spec fn step(runner: RunnerView, event: EventView) -> (RunnerView, Option<ArgumentView>) {
    match event {
        EventView::Execute => if runner.status.is_running() {
            (runner, None)
        } else {
            let buffer = runner.buffer.push(
                TerminalView::StdIn(command_line(runner.prompt, runner.command)),
            );
            (
                RunnerView {
                    status: StatusView::Initialize,
                    buffer,
                    window: TextAreaView::loaded_with(rendered(buffer)),
                    ..runner
                },
                Some(runner.command),
            )
        },
        EventView::Spawing => (RunnerView { status: StatusView::Running, ..runner }, None),
        EventView::Stream(entry) => {
            let buffer = after_output(runner.buffer, entry);
            (
                RunnerView { buffer, window: TextAreaView::loaded_with(rendered(buffer)), ..runner },
                None,
            )
        },
        EventView::EditorAction(action) => if action is Edit {
            (runner, None)
        } else {
            (RunnerView { window: runner.window.with_action(action), ..runner }, None)
        },
        EventView::ClearBuffer => (
            RunnerView {
                buffer: Seq::empty(),
                window: TextAreaView::loaded_with(Seq::empty()),
                ..runner
            },
            None,
        ),
        EventView::ExitSuccess => (RunnerView { status: StatusView::Idle, ..runner }, None),
        EventView::ExitError(message) => (
            RunnerView { status: StatusView::Failed(message), ..runner },
            None,
        ),
    }
}

/// The view of an optional command.
pub open spec fn argument_option_view(argument: Option<Argument>) -> Option<ArgumentView> {
    match argument {
        Some(a) => Some(a@),
        None => None,
    }
}

/// CommandRunner that executes terminal command, and stream the output to its buffer.
#[derive(Clone)]
pub struct CommandRunner {
    /// command to run
    pub command: Argument,
    /// message streamed from the spawned process
    pub buffer: Vec<Terminal>,
    /// current status i.e., running, idle etc.,
    pub status: Status,
    /// shell prompt shown before the command line
    prompt: String,
    /// number of lines the window shows; `None` for a window of fixed height
    max_lines: Option<u32>,
    /// used for the text editor widget, for displaying selectable texts
    text_area: TextArea,
}

impl View for CommandRunner {
    type V = RunnerView;

    closed spec fn view(&self) -> RunnerView {
        RunnerView {
            command: self.command@,
            buffer: entries(self.buffer@),
            status: self.status@,
            prompt: self.prompt@,
            max_lines: self.max_lines,
            window: self.text_area@,
        }
    }
}

impl CommandRunner {
    /// The runner's output window.
    pub closed spec fn window(self) -> TextArea {
        self.text_area
    }
}

/// The number of lines a new runner's window shows.
pub const DEFAULT_MAX_LINES: u32 = 12;

impl CommandRunner {
    /// A new, idle runner of `command` with `args`, with an empty buffer.
    pub fn new(command: String, args: Vec<String>, prompt: String) -> (runner: CommandRunner)
        ensures
            runner@ == (RunnerView {
                command: ArgumentView { program: command@, args: views(args@) },
                buffer: Seq::empty(),
                status: StatusView::Idle,
                prompt: prompt@,
                max_lines: Some(DEFAULT_MAX_LINES),
                window: TextAreaView::loaded_with(Seq::empty()),
            }),
    {
        let runner = CommandRunner {
            command: Argument::new(command, args),
            buffer: Vec::new(),
            status: Status::Idle,
            prompt,
            max_lines: Some(DEFAULT_MAX_LINES),
            text_area: TextArea::with_text(""),
        };
        proof {
            reveal_strlit("");
            assert(entries(runner.buffer@) =~= Seq::empty());
            assert(runner.text_area@.text =~= Seq::<char>::empty());
        }
        runner
    }

    /// A new, idle runner of `command` with no arguments.
    pub fn new_no_args(command: String, prompt: String) -> (runner: CommandRunner)
        ensures
            runner@ == (RunnerView {
                command: ArgumentView { program: command@, args: Seq::empty() },
                buffer: Seq::empty(),
                status: StatusView::Idle,
                prompt: prompt@,
                max_lines: Some(DEFAULT_MAX_LINES),
                window: TextAreaView::loaded_with(Seq::empty()),
            }),
    {
        let runner = CommandRunner::new(command, Vec::new(), prompt);
        proof {
            assert(views(Seq::<String>::empty()) =~= Seq::empty());
        }
        runner
    }

    /// Arguments to run terminal commands with
    pub fn args(&self) -> (args: Vec<String>)
        ensures
            views(args@) == self@.command.args,
    {
        crate::argument::copy_strings(&self.command.args)
    }

    /// program to run
    pub fn program(&self) -> (program: &str)
        ensures
            program@ == self@.command.program,
    {
        self.command.program.as_str()
    }

    /// The shell prompt shown before a command line.
    pub fn prompt_text(&self) -> (prompt: &str)
        ensures
            prompt@ == self@.prompt,
    {
        self.prompt.as_str()
    }

    /// The number of lines the output window shows, or `None` for a window
    /// of fixed height.
    pub fn max_lines(&self) -> (lines: Option<u32>)
        ensures
            lines == self@.max_lines,
    {
        self.max_lines
    }

    /// The text area that shows the output.
    pub fn text_area(&self) -> (area: &TextArea)
        ensures
            *area == self.window(),
    {
        &self.text_area
    }

    /// Whether the runner is busy (any status but `Idle`).
    pub fn is_running(&self) -> (running: bool)
        ensures
            running == self@.status.is_running(),
    {
        self.status.is_running()
    }

    /// The line that shows the command about to run.
    fn format_command(&self) -> (line: String)
        ensures
            line@ == command_line(self@.prompt, self@.command),
    {
        let mut line = self.prompt.clone();
        line.append(" ");
        line.append(self.command.program.as_str());
        line.append(" ");
        let args = join_strings(&self.command.args, " ");
        line.append(args.as_str());
        line.append("\n");
        line
    }

    /// The text the output window shows for the buffer.
    fn rendered_text(&self) -> (text: String)
        ensures
            text@ == rendered(self@.buffer),
    {
        let ghost lines = self@.buffer.map_values(|e: TerminalView| e.text());
        let mut all = String::new();
        let n = self.buffer.len();
        let mut i: usize = 0;
        while i < n
            invariant
                n == self.buffer@.len(),
                0 <= i <= n,
                lines == self@.buffer.map_values(|e: TerminalView| e.text()),
                lines.len() == n,
                all@ == join(lines.take(i as int), Seq::empty()),
            decreases n - i,
        {
            all.append(self.buffer[i].as_str());
            proof {
                assert(lines.take(i + 1).drop_last() =~= lines.take(i as int));
                assert(lines[i as int] == self.buffer@[i as int]@.text());
                if i == 0 {
                    assert(lines.take(0) =~= Seq::<Seq<char>>::empty());
                }
                assert(lines.take(i + 1).last() == lines[i as int]);
            }
            i = i + 1;
        }
        assert(lines.take(n as int) =~= lines);
        all
    }

    /// Reloads the output window with the whole buffer.
    fn update_editor_content(&mut self)
        ensures
            final(self)@ == (RunnerView {
                window: TextAreaView::loaded_with(rendered(old(self)@.buffer)),
                ..old(self)@
            }),
            final(self).command == old(self).command,
            final(self).window()@ == TextAreaView::loaded_with(rendered(old(self)@.buffer)),
    {
        let text = self.rendered_text();
        self.text_area = TextArea::with_text(text.as_str());
    }

    /// Adds `entry` to the end of the buffer and shows it at the end of the
    /// output window.
    fn push_to_buffer(&mut self, entry: Terminal)
        ensures
            final(self)@ == (RunnerView {
                buffer: old(self)@.buffer.push(entry@),
                window: TextAreaView::loaded_with(rendered(old(self)@.buffer.push(entry@))),
                ..old(self)@
            }),
            final(self).command == old(self).command,
    {
        self.buffer.push(entry);
        proof {
            assert(entries(self.buffer@) =~= entries(old(self).buffer@).push(entry@));
        }
        self.update_editor_content();
    }

    /// Takes in output `entry`: one that begins with a carriage return
    /// replaces the last entry; any other is added at the end. The window then
    /// shows the new buffer.
    fn take_output(&mut self, entry: Terminal)
        ensures
            final(self)@ == step(old(self)@, EventView::Stream(entry@)).0,
            final(self).command == old(self).command,
    {
        if entry.starts_with_carriage_return() && self.buffer.len() > 0 {
            let _ = self.buffer.pop();
            self.buffer.push(entry);
            proof {
                assert(entries(self.buffer@) =~= entries(old(self).buffer@).drop_last().push(entry@));
            }
            self.update_editor_content();
        } else {
            self.push_to_buffer(entry);
        }
    }

    /// Handles one event. Returns the command to start when the event starts
    /// one; the caller runs it and feeds its events back.
    pub fn update(&mut self, event: Event) -> (start: Option<Argument>)
        ensures
            (final(self)@, argument_option_view(start)) == step(old(self)@, event@),
    {
        match event {
            Event::Execute => {
                if !self.is_running() {
                    self.status = Status::Initialize;
                    let line = self.format_command();
                    self.push_to_buffer(Terminal::StdIn(line));
                    Some(self.command.copied())
                } else {
                    None
                }
            },
            Event::EditorAction(action) => {
                if !is_edit_action(&action) {
                    self.text_area.perform(action);
                }
                None
            },
            Event::ClearBuffer => {
                self.buffer = Vec::new();
                proof {
                    assert(entries(self.buffer@) =~= Seq::<TerminalView>::empty());
                    assert(Seq::<TerminalView>::empty().map_values(|e: TerminalView| e.text())
                        =~= Seq::<Seq<char>>::empty());
                }
                self.update_editor_content();
                None
            },
            Event::Spawing => {
                self.status = Status::Running;
                None
            },
            Event::Stream(entry) => {
                self.take_output(entry);
                None
            },
            Event::ExitSuccess => {
                self.status = Status::Idle;
                None
            },
            Event::ExitError(message) => {
                self.status = Status::Failed(message);
                None
            },
        }
    }

    /// Update argument for the command to run.
    pub fn set_args(&mut self, args: Vec<String>)
        ensures
            final(self)@ == (RunnerView {
                command: ArgumentView { args: views(args@), ..old(self)@.command },
                ..old(self)@
            }),
    {
        self.command.args = args;
    }

    /// The runner with `prompt` as its shell prompt.
    pub fn prompt(self, prompt: String) -> (runner: CommandRunner)
        ensures
            runner@ == (RunnerView { prompt: prompt@, ..self@ }),
    {
        let mut runner = self;
        runner.prompt = prompt;
        runner
    }

    /// The runner with a window `num_lines` lines high.
    pub fn num_lines(self, num_lines: u32) -> (runner: CommandRunner)
        ensures
            runner@ == (RunnerView { max_lines: Some(num_lines), ..self@ }),
    {
        let mut runner = self;
        runner.max_lines = Some(num_lines);
        runner
    }

    /// The runner with a window of fixed height, however many lines it holds.
    pub fn without_line_limit(self) -> (runner: CommandRunner)
        ensures
            runner@ == (RunnerView { max_lines: None, ..self@ }),
    {
        let mut runner = self;
        runner.max_lines = None;
        runner
    }
}


/// The default shell prompt for a working directory, given as its path and
/// its components (the root counts as one): a path of more than three
/// components is cut to `..` and its last three components, in path order,
/// joined by `/`; a shorter one is kept whole. ` >` follows.
pub open spec fn shell_prompt(path: Seq<char>, components: Seq<Seq<char>>) -> Seq<char> {
    let n = components.len();
    let place = if n > 3 {
        ".."@ + join(seq![components[n - 3], components[n - 2], components[n - 1]], "/"@)
    } else {
        path
    };
    place + " >"@
}

/// The default shell prompt for the working directory `path`, whose
/// components are `components`.
pub fn default_prompt(path: &str, components: &Vec<String>) -> (prompt: String)
    ensures
        prompt@ == shell_prompt(path@, views(components@)),
{
    let n = components.len();
    let mut prompt = if n > 3 {
        let mut last: Vec<String> = Vec::new();
        last.push(components[n - 3].clone());
        last.push(components[n - 2].clone());
        last.push(components[n - 1].clone());
        let joined = join_strings(&last, "/");
        proof {
            let c = views(components@);
            assert(views(last@) =~= seq![c[n - 3], c[n - 2], c[n - 1]]);
        }
        let mut place = String::from_str("..");
        place.append(joined.as_str());
        place
    } else {
        String::from_str(path)
    };
    prompt.append(" >");
    prompt
}
} // verus!
