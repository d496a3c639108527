//! Messages for streaming terminal command execution.
use vstd::prelude::*;

verus! {

/// Events that drive a [`crate::CommandRunner`].
#[derive(Clone, PartialEq, Debug)]
pub enum Event {
    /// Triggers terminal command
    Execute,
    /// flag for letting CommandRunner know it's command spawing was successful
    Spawing,
    /// data produced by the terminal
    Stream(Terminal),
    /// user interactions on the terminal output window, mainly used for making output texts selectable
    /// (i.e., can select text -> copy -> paste elsewhere)
    EditorAction(iced_core::text::editor::Action),
    /// Removes everything stored in the runner's buffer
    ClearBuffer,
    /// Exit success
    ExitSuccess,
    /// Exit failure with error message
    ExitError(String),
}

/// Outputs from the terminal
#[derive(Clone, PartialEq, Debug)]
pub enum Terminal {
    StdIn(String),
    StdOut(String),
    StdErr(String),
    Error(String),
}

/// What a [`Terminal`] entry is, with its text as a sequence of characters.
pub enum TerminalView {
    StdIn(Seq<char>),
    StdOut(Seq<char>),
    StdErr(Seq<char>),
    Error(Seq<char>),
}

impl TerminalView {
    /// The text that the entry carries.
    pub open spec fn text(self) -> Seq<char> {
        match self {
            TerminalView::StdIn(s) => s,
            TerminalView::StdOut(s) => s,
            TerminalView::StdErr(s) => s,
            TerminalView::Error(s) => s,
        }
    }

    /// The entry's text begins with a carriage return.
    pub open spec fn starts_with_cr(self) -> bool {
        self.text().len() > 0 && self.text()[0] == '\r'
    }
}

impl View for Terminal {
    type V = TerminalView;

    open spec fn view(&self) -> TerminalView {
        match self {
            Terminal::StdIn(s) => TerminalView::StdIn(s@),
            Terminal::StdOut(s) => TerminalView::StdOut(s@),
            Terminal::StdErr(s) => TerminalView::StdErr(s@),
            Terminal::Error(s) => TerminalView::Error(s@),
        }
    }
}

impl Terminal {
    /// The text that the entry carries.
    pub fn as_str(&self) -> (text: &str)
        ensures
            text@ == self@.text(),
    {
        match self {
            Terminal::StdIn(s) => s.as_str(),
            Terminal::StdOut(s) => s.as_str(),
            Terminal::StdErr(s) => s.as_str(),
            Terminal::Error(s) => s.as_str(),
        }
    }

    /// Whether the entry's text begins with a carriage return (`\r`).
    pub fn starts_with_carriage_return(&self) -> (starts: bool)
        ensures
            starts == self@.starts_with_cr(),
    {
        let text = self.as_str();
        if text.is_empty() {
            false
        } else {
            text.get_char(0) == '\r'
        }
    }
}

/// What an [`Event`] asks of a runner.
pub enum EventView {
    Execute,
    Spawing,
    Stream(TerminalView),
    EditorAction(iced_core::text::editor::Action),
    ClearBuffer,
    ExitSuccess,
    ExitError(Seq<char>),
}

impl View for Event {
    type V = EventView;

    open spec fn view(&self) -> EventView {
        match self {
            Event::Execute => EventView::Execute,
            Event::Spawing => EventView::Spawing,
            Event::Stream(t) => EventView::Stream(t@),
            Event::EditorAction(a) => EventView::EditorAction(*a),
            Event::ClearBuffer => EventView::ClearBuffer,
            Event::ExitSuccess => EventView::ExitSuccess,
            Event::ExitError(e) => EventView::ExitError(e@),
        }
    }
}

} // verus!
