# iced_command_runner

A runner that executes a terminal command and keeps what it prints, for
iced applications.

- `src/` is the verified library. `CommandRunner::update` takes one event
  and returns the command to start, if any; its contract is the model
  `step` in `command_runner.rs`, which also says what the output window
  shows: the text of every buffer entry, in order, never edited by the
  user. `CommandRun` (with its `OutputPump`)
  decides what each step of a started command's process sends to the
  runner. `misc.rs` holds what the
  buttons and the status bar send and show, `laws.rs` the laws proved of
  the model.
- `app/` holds the iced widgets, the styling (which uses floating point)
  and the asynchronous process that runs a started command.
