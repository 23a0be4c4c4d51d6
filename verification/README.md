# lgtui

A terminal launcher for Windows games on Linux: a library of games started
through Wine or Proton, a manager for Proton-GE runners and Wine prefixes,
winetricks shortcuts and a dependency installer.

The decisions of the launcher are written in Verus and proved against their
contracts; the program around them performs the input and output.

## Layout

- `src/` — the verified library.
  - `app.rs`: the user interface as a state machine. `App::handle_key`,
    `App::handle_event` and `App::tick` take a key press, a report of
    background work or a clock tick, update the state and return the effects
    (storing, launching, downloading, …) that the caller carries out.
  - `view.rs`: what the panes show — dates and play times, labels, colours,
    badges and key hints.
  - `runner.rs`: the Proton-GE release feed, runner entries and download
    progress.
  - `process.rs`: the launch environment of a game and the installer
    pipeline: the plan, the choice of the installed executable, its new
    location.
  - `installer.rs`: the answers and package lists of the setup wizard.
  - `game.rs`, `prefix.rs`, `onboarding.rs`: the data model.
  - `database.rs`: the rows that the database stores and reads back.
  - `naming.rs`: slugs, executable paths and unique game identifiers.
  - `text.rs`: strings, searching, decimal numbers and path joining.
- `app/` — the terminal program: the event loop, drawing with ratatui, the
  SQLite database, files, processes and downloads.
- `tests/` — tests of the library on concrete values.
