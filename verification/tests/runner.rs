use iced_command_runner::{
    Argument, CommandRunner, DEFAULT_MAX_LINES, Event, Status, Terminal, create_runner,
    default_prompt,
};
use iced_core::Point;
use iced_core::text::editor::{Action, Edit, Motion};

fn strings(items: &[&str]) -> Vec<String> {
    items.iter().map(|s| s.to_string()).collect()
}

fn runner(program: &str, args: &[&str]) -> CommandRunner {
    CommandRunner::new(program.to_string(), strings(args), "~ >".to_string())
}

#[test]
fn test_create_command() {
    let runner = CommandRunner::new("echo".to_string(), strings(&["hello!"]), "p >".to_string());
    assert_eq!(runner.program(), "echo");
    assert_eq!(runner.args(), strings(&["hello!"]));
    assert!(runner.buffer.is_empty());
    assert_eq!(runner.status, Status::Idle);
    assert_eq!(runner.max_lines(), Some(DEFAULT_MAX_LINES));
    assert_eq!(DEFAULT_MAX_LINES, 12);
}

#[test]
fn new_no_args_has_no_arguments() {
    let runner = CommandRunner::new_no_args("ls".to_string(), "p".to_string());
    assert_eq!(runner.program(), "ls");
    assert!(runner.args().is_empty());
    assert_eq!(runner.prompt_text(), "p");
}

#[test]
fn create_runner_builds_an_idle_runner() {
    let runner = create_runner("python".to_string(), strings(&["-u", "x.py"]), "> ".to_string());
    assert_eq!(runner.command.program, "python");
    assert_eq!(runner.command.args, strings(&["-u", "x.py"]));
    assert!(!runner.is_running());
}

#[test]
fn argument_new_keeps_program_and_args() {
    let argument = Argument::new("echo".to_string(), strings(&["a", "b"]));
    assert_eq!(argument.program, "echo");
    assert_eq!(argument.args, strings(&["a", "b"]));
}

#[test]
fn execute_when_idle_starts_the_command() {
    let mut runner = runner("echo", &["hello!", "there"]);
    let start = runner.update(Event::Execute).expect("an idle runner starts its command");
    assert_eq!(start.program, "echo");
    assert_eq!(start.args, strings(&["hello!", "there"]));
    assert_eq!(runner.status, Status::Initialize);
    assert_eq!(runner.buffer, vec![Terminal::StdIn("~ > echo hello! there\n".to_string())]);
}

#[test]
fn command_line_without_arguments_keeps_both_spaces() {
    let mut runner = CommandRunner::new_no_args("ls".to_string(), "$".to_string());
    runner.update(Event::Execute);
    assert_eq!(runner.buffer, vec![Terminal::StdIn("$ ls \n".to_string())]);
}

#[test]
fn execute_while_busy_changes_nothing() {
    let mut runner = runner("echo", &["hi"]);
    assert!(runner.update(Event::Execute).is_some());
    assert!(runner.update(Event::Execute).is_none());
    assert_eq!(runner.buffer.len(), 1);
    runner.update(Event::Spawing);
    assert_eq!(runner.status, Status::Running);
    assert!(runner.update(Event::Execute).is_none());
    assert_eq!(runner.buffer.len(), 1);
}

#[test]
fn a_successful_run_can_be_repeated() {
    let mut runner = runner("echo", &["hi"]);
    assert!(runner.update(Event::Execute).is_some());
    runner.update(Event::Spawing);
    runner.update(Event::Stream(Terminal::StdOut("hi\n".to_string())));
    runner.update(Event::ExitSuccess);
    assert_eq!(runner.status, Status::Idle);
    assert!(!runner.is_running());
    let again = runner.update(Event::Execute).expect("idle again");
    assert_eq!(again.program, "echo");
    assert_eq!(runner.buffer.len(), 3);
}

#[test]
fn a_failed_run_keeps_the_runner_busy() {
    let mut runner = runner("false", &[]);
    runner.update(Event::Execute);
    runner.update(Event::Spawing);
    runner.update(Event::ExitError("exit status: 1".to_string()));
    assert_eq!(runner.status, Status::Failed("exit status: 1".to_string()));
    assert!(runner.is_running());
    assert!(runner.update(Event::Execute).is_none());
}

#[test]
fn output_is_added_in_order() {
    let mut runner = runner("cmd", &[]);
    runner.update(Event::Stream(Terminal::StdOut("one".to_string())));
    runner.update(Event::Stream(Terminal::StdErr("two".to_string())));
    runner.update(Event::Stream(Terminal::Error("three".to_string())));
    assert_eq!(
        runner.buffer,
        vec![
            Terminal::StdOut("one".to_string()),
            Terminal::StdErr("two".to_string()),
            Terminal::Error("three".to_string()),
        ]
    );
}

#[test]
fn carriage_return_replaces_the_previous_message() {
    let mut runner = runner("cmd", &[]);
    runner.update(Event::Stream(Terminal::StdOut("start\n".to_string())));
    runner.update(Event::Stream(Terminal::StdOut("10%".to_string())));
    runner.update(Event::Stream(Terminal::StdOut("\r20%".to_string())));
    runner.update(Event::Stream(Terminal::StdErr("\r30%".to_string())));
    assert_eq!(
        runner.buffer,
        vec![Terminal::StdOut("start\n".to_string()), Terminal::StdErr("\r30%".to_string())]
    );
}

#[test]
fn carriage_return_into_an_empty_buffer_is_added() {
    let mut runner = runner("cmd", &[]);
    runner.update(Event::Stream(Terminal::StdOut("\rfirst".to_string())));
    assert_eq!(runner.buffer, vec![Terminal::StdOut("\rfirst".to_string())]);
}

#[test]
fn window_shows_carriage_return_output_in_place() {
    let mut runner = runner("cmd", &[]);
    runner.update(Event::Stream(Terminal::StdOut("old".to_string())));
    runner.update(Event::Stream(Terminal::StdOut("\r  new  ".to_string())));
    assert_eq!(runner.text_area().editor.content.text(), "\r  new  ");
}

#[test]
fn window_shows_entries_as_their_text() {
    let mut runner = runner("cmd", &[]);
    runner.update(Event::Stream(Terminal::StdIn("typed".to_string())));
    runner.update(Event::Stream(Terminal::StdOut("a".to_string())));
    runner.update(Event::Stream(Terminal::StdOut("\rb\n".to_string())));
    assert_eq!(runner.text_area().editor.content.text(), "typed\rb\n");
}

#[test]
fn window_shows_the_command_line_and_output_in_order() {
    let mut runner = runner("echo", &["hi"]);
    runner.update(Event::Execute);
    assert_eq!(runner.text_area().editor.content.text(), "~ > echo hi\n");
    runner.update(Event::Spawing);
    runner.update(Event::Stream(Terminal::StdOut("hi\n".to_string())));
    runner.update(Event::Stream(Terminal::StdErr("warn\r\n".to_string())));
    assert_eq!(runner.text_area().editor.content.text(), "~ > echo hi\nhi\nwarn\r\n");
}

#[test]
fn output_after_a_selection_goes_to_the_end() {
    let mut runner = runner("cmd", &[]);
    runner.update(Event::Stream(Terminal::StdOut("first line\nsecond".to_string())));
    runner.update(Event::EditorAction(Action::SelectAll));
    runner.update(Event::EditorAction(Action::Move(Motion::DocumentStart)));
    runner.update(Event::EditorAction(Action::Click(Point::new(3.0, 1.0))));
    assert_eq!(runner.text_area().editor.content.text(), "first line\nsecond");
    runner.update(Event::Stream(Terminal::StdOut(" third".to_string())));
    assert_eq!(runner.text_area().editor.content.text(), "first line\nsecond third");
}

#[test]
fn edits_do_not_reach_the_window() {
    let mut runner = runner("cmd", &[]);
    runner.update(Event::Stream(Terminal::StdOut("keep".to_string())));
    runner.update(Event::EditorAction(Action::Edit(Edit::Insert('x'))));
    runner.update(Event::EditorAction(Action::Edit(Edit::Backspace)));
    runner.update(Event::EditorAction(Action::SelectAll));
    runner.update(Event::EditorAction(Action::Edit(Edit::Delete)));
    assert_eq!(runner.text_area().editor.content.text(), "keep");
}

#[test]
fn clear_buffer_empties_the_buffer() {
    let mut runner = runner("cmd", &[]);
    runner.update(Event::Execute);
    runner.update(Event::Stream(Terminal::StdOut("x".to_string())));
    assert!(runner.update(Event::ClearBuffer).is_none());
    assert!(runner.buffer.is_empty());
    assert_eq!(runner.status, Status::Initialize);
    assert_eq!(runner.text_area().editor.content.text(), "");
}

#[test]
fn editor_actions_do_not_change_the_buffer() {
    let mut runner = runner("cmd", &[]);
    runner.update(Event::Stream(Terminal::StdOut("x".to_string())));
    assert!(runner.update(Event::EditorAction(Action::SelectAll)).is_none());
    assert!(runner.update(Event::EditorAction(Action::Edit(Edit::Insert('y')))).is_none());
    assert_eq!(runner.buffer, vec![Terminal::StdOut("x".to_string())]);
    assert_eq!(runner.status, Status::Idle);
}

#[test]
fn set_args_replaces_the_arguments() {
    let mut runner = runner("echo", &["hello!"]);
    runner.set_args(strings(&["hi"]));
    assert_eq!(runner.args(), strings(&["hi"]));
    assert_eq!(runner.program(), "echo");
    let start = runner.update(Event::Execute).unwrap();
    assert_eq!(start.args, strings(&["hi"]));
    assert_eq!(runner.buffer, vec![Terminal::StdIn("~ > echo hi\n".to_string())]);
}

#[test]
fn builders_set_prompt_and_lines() {
    let runner = runner("echo", &[]).prompt("me@here:".to_string()).num_lines(15);
    assert_eq!(runner.prompt_text(), "me@here:");
    assert_eq!(runner.max_lines(), Some(15));
    let runner = runner.without_line_limit();
    assert_eq!(runner.max_lines(), None);
    assert_eq!(runner.prompt_text(), "me@here:");
}

#[test]
fn default_prompt_shortens_long_paths() {
    let components = strings(&["/", "home", "user", "a", "b"]);
    assert_eq!(default_prompt("/home/user/a/b", &components), "..user/a/b >");
}

#[test]
fn default_prompt_keeps_short_paths() {
    let components = strings(&["/", "home", "user"]);
    assert_eq!(default_prompt("/home/user", &components), "/home/user >");
    assert_eq!(default_prompt("", &Vec::new()), " >");
}

#[test]
fn default_prompt_with_four_components() {
    let components = strings(&["/", "x", "y", "z"]);
    assert_eq!(default_prompt("/x/y/z", &components), "..x/y/z >");
}

#[test]
fn events_keep_command_prompt_and_lines() {
    let mut runner = runner("echo", &["a"]).num_lines(7);
    let events = vec![
        Event::Execute,
        Event::Spawing,
        Event::Stream(Terminal::StdOut("a\n".to_string())),
        Event::EditorAction(Action::SelectAll),
        Event::ClearBuffer,
        Event::ExitError("1".to_string()),
        Event::ExitSuccess,
    ];
    for event in events {
        let started = runner.update(event.clone());
        assert_eq!(started.is_some(), event == Event::Execute);
        assert_eq!(runner.program(), "echo");
        assert_eq!(runner.args(), strings(&["a"]));
        assert_eq!(runner.prompt_text(), "~ >");
        assert_eq!(runner.max_lines(), Some(7));
    }
    assert_eq!(runner.status, Status::Idle);
}

#[test]
fn default_prompt_of_a_project_directory() {
    let components = strings(&["/", "home", "user", "projects", "app"]);
    assert_eq!(default_prompt("/home/user/projects/app", &components), "..user/projects/app >");
}

#[test]
fn line_count_set_last_wins() {
    let direct = runner("echo", &[]).num_lines(9);
    let after_limit_removed = runner("echo", &[]).without_line_limit().num_lines(9);
    assert_eq!(direct.max_lines(), Some(9));
    assert_eq!(after_limit_removed.max_lines(), direct.max_lines());
    assert_eq!(runner("echo", &[]).num_lines(9).without_line_limit().max_lines(), None);
}
