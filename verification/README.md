# logos-scaffold (verified core)

The decision logic of the `logos-scaffold` command line, verified with Verus.

- `src/text.rs` — characters, trimming, line splitting, decimal numbers, paths.
- `src/config.rs` — the `scaffold.toml` format: `parse_config`, `serialize_config`,
  the proof that a written configuration reads back unchanged, and the proofs
  that blank lines, comments and unknown keys change nothing.
- `src/status.rs` — the localnet status model (ownership, readiness, next steps).
- `src/localnet.rs` — what the localnet commands print: status text, the stop plan
  (kill, then wait for the exit), logs.
- `src/start.rs` — `localnet start` as a state machine, with its errors.
- `src/reset.rs` — `localnet reset` as a state machine, with its ordering laws.
- `src/cli.rs` — wallet pass-through and address arguments.
- `src/sequencer_config.rs` — setting the port in the sequencer's JSON configuration.
- `src/state.rs` — the localnet state file (`sequencer_pid=<pid>`), read and written.
- `src/rpc.rs` — the sequencer's HTTP/JSON-RPC answer to `get_last_block`.
- `app/` — the program: argument parsing, files, processes and sockets, and the
  loops that drive the state machines.
