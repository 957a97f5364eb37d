# pueue (verified core)

The decision logic of pueue's `clean` request and of its `status` table, written in
Verus and proved against its contracts.

- `src/clean.rs`: which finished tasks a `clean` request removes, and the answer it gets.
- `src/state.rs`: the daemon's tasks by id; finished tasks and removability.
- `src/table_builder.rs`: which columns the status table shows, its header and rows, and
  how far the command and path columns are truncated to fit the terminal.
- `src/cells.rs`: the text of each cell of a task's row.
- `src/widths.rs`, `src/truncate.rs`: sharing the terminal width between the command and
  path columns, and shortening a text around an ellipsis.
- `src/task.rs`, `src/settings.rs`, `src/time.rs`, `src/text.rs`: the data the logic
  reads, points in time, and text helpers.
- `src/comfy.rs`, `src/render.rs`: handing the finished table to `comfy_table`.
- `app/`: the daemon's shared state, log files and state file, the client's side of a
  `clean` request, and the terminal.
