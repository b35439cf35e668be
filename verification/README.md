# iptv

A terminal IPTV player for Xtream Codes providers: a full-screen TUI, a
prompt menu, a scriptable CLI, raw API calls and a rofi launcher for
favourites. Playback goes through mpv.

The logic is a library written in Verus and verified: every public function
states what it does in `requires`/`ensures`, and Verus proves the code meets
it. The program around it (terminal, HTTP, files, processes) is plain Rust.

## Layout

- `src/` – the verified library
  - `xtream_api.rs` – provider records, URLs of API calls and streams,
    response checks and JSON error messages
  - `cache.rs`, `favourites.rs`, `ignore.rs`, `config.rs` – cache index and
    expiry, favourites lists, hidden categories and channels, configuration
  - `tui/` – the TUI as a state machine: `App` takes key presses and results
    of outside work and answers with the next state and the `Command`s to run
    (`keys.rs`, `loading.rs`, `playback.rs`, `screens.rs`, `vod.rs`); the
    list view with paging and fuzzy search (`list.rs`); text wrapping
  - `menu.rs` – options and texts of the prompt menu
  - `cli/`, `commands/` – the CLI commands' decisions and output lines
  - `player.rs`, `rofi.rs`, `setup.rs`, `text.rs` – player arguments and IPC
    messages, rofi input and choice, provider setup checks, string helpers
  - `laws.rs` – properties that span several functions, proved
- `tests/` – tests of the library on concrete values
- `app/` – the program: argument parsing, HTTP, files, the terminal UI, the
  player processes, and the loops that run the library's state machines

## Keys (TUI)

`↑`/`k`, `↓`/`j` move; `PgUp`/`PgDn` move 10 items; `Home`/`End`; `Enter`
selects or plays; `d` plays in a detached window (streams, movies,
episodes); `a` opens the advanced play menu of a live stream; `f` toggles a
favourite; `i` hides or shows a category or channel; `/` starts a fuzzy
search (the typed characters in order, ignoring case); `s` stops playback;
`Esc`/`b` goes back; `?`/`F1` help; `q` quits; `Ctrl+C` quits at once;
`Ctrl+.` cycles the log panel.
