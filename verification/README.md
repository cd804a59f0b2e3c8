# rusty_bubbletea

An Elm-architecture framework for terminal user interfaces, written in
Verus. A model receives messages, updates its state and answers with a
command; a view describes each frame; renderers turn frames into terminal
output. An application brings its own messages (`Msg::App`) and its own
work (`Command::Run` with a type that implements `Work`): the runtime runs
that work on a thread of its own, gives it the time it runs at, and sends
the message it answers with back to the model.

## Layout

- `src/` is the verified library. Messages and commands (`model`, `commands`
  and one module per message family), views (`view`, `cursor`, `color`),
  the line renderer (`standard_renderer`), the decisions of the cell
  renderer (`cursed_renderer`: which terminal modes change between frames,
  what starting and closing write, how a frame is wrapped, how lines are
  inserted above a frame), input recognition (`key_sequences`), program
  options (`options`), the terminal settings of raw mode (`tty`), the
  control handle (`handle`) and the program's decisions for each message
  of its event loop, after the event filter (`program`). The public
  functions state their results in their contracts, except those that only
  read or set flags shared with other threads (`Context::new`, `done` and
  `cancel`, and `ProgramHandle::send`, `quit`, `kill` and `is_finished`)
  and the methods of `Model` and `Work`, which each application writes.
  The laws that relate several functions are public proof functions named
  `law_*`.
- `app/` is the runtime around it: raw mode and window size, log files,
  the renderer that draws cells on the terminal, the input decoder, and the
  event loop that carries out the library's plans.
- `tests/` runs the library on concrete values.
