# cian_tui

The decisions of a two-pane terminal file manager, verified with Verus:
what each key does in each mode and popup, the `:` command line, the
prompts, the bookmark list, the user's key map, copy/move/delete and their
undo stack, the operation queue, file-pane tabs, the AI chat's history,
dropped files and the small parsers these need.

The library keeps the whole state of the program in `App` and changes it
only through functions whose contracts say exactly how. Work that needs the
file system, a terminal session, the clipboard or a network service is not
done here: it is queued as an `Effect`, and the front end carries it out and
hands the outcome back to a verified function (`after_rename`,
`after_create`, `poll_op_job`, `poll_ai_job`, ...).

- `src/` — the verified library; `src/state.rs` holds the model.
- `tests/` — tests of the library on concrete values.
- `app/` — a small terminal front end (crossterm): it lists directories,
  reads keys, calls `App::handle_key` and carries out the effects it can.
