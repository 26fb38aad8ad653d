# sshub

The decision core of a terminal UI for SSH hosts, verified with Verus, and the
ordinary Rust around it.

The library holds no file handle, thread or socket. A key press, a report of a
transfer worker or the outcome of an operation goes in; a new state and a list of
effects come out, and the program around it performs them.

- `src/app`: the application. `App` is the state and `AppView` its mathematical
  model. Every handler says which `AppView` it leaves, as a function of the one it
  found.
- `src/sftp`: the file browser and the transfer worker, a state machine that asks
  for one blocking operation at a time.
- `src/session`: the terminal of an embedded session, over the `vt100` crate.
- `src/cli`: `sshub sftp …` without a user interface.
- `src/launch.rs`, `src/keybinds.rs`, `src/hosts.rs`, `src/paths.rs`,
  `src/text.rs`, `src/text_input.rs`: how a run begins and ends, key bindings,
  hosts, paths and text.

What holds across several steps is stated and proved as public proof functions:
`src/app/laws.rs`, `src/sftp/laws.rs` and `src/path_laws.rs` hold most of them,
the others stand beside the functions that they speak of.

`app/` performs the effects: the terminal, the worker threads, the local file
system and the command line. `tests/` runs the library against stand-ins for
these.
