# squalr_tui

The state, key routing and engine workflows of a keyboard-driven terminal front end for
a memory scanner, written in Verus with their behaviour stated as contracts and proved.

- `src/` is the verified library: the pane layout and its focus rules, each pane's state
  and summary lines, the key bindings, the engine request workflows (each split into a
  `begin_*` step that decides what to send and a `finish_*` step that takes the answer),
  struct field edit planning, and the project hierarchy rows.
- `app/` is the terminal program around it: it reads key events, draws the panes with
  `ratatui`, and hands key outcomes to the library's workflows.
- `tests/` exercises the library on concrete values.
