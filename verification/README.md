# stdio_server_process

Ownership and termination of the processes behind stdio MCP servers, verified
with Verus.

The library in `src/` decides; it performs nothing. Signals, pauses, clock
readings, spawns and runtime tasks are actions that it asks for, and what came of
them are events that it is handed.

- `exit_wait`, `local`: SIGTERM, grace period, SIGKILL and confirmation for one
  process tree. `termination_laws` states what holds of every run.
- `cleanup`, `completion`, `handle`: one cleanup state per tree, shared by all
  callers; the single retry; what happens when the last owner is dropped.
  `cleanup_laws` states what holds however requests and reports interleave.
- `executor`: trees that a remote executor runs.
- `supervisor`, `supervisor_exe`: the process that ends a group once its parent is
  gone, and where its executable is configured. `supervisor_laws` states what
  holds of every run.
- `error`, `text`: failures and their messages.

`app/` performs the actions with libc and Tokio. `tests/` runs the library on
concrete values.
