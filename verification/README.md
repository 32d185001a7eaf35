# goose_tools

The verified core of an agent's tools: the shell tool, the code execution
extension, the event routes of a session, and the provider of an agent behind
an agent client protocol wrapper.

- `src/` is the library, written in Verus. Each public function states in its
  contract what it returns; public proof functions state what holds of several
  of them together.
- `app/` runs the library on a host: processes, files, HTTP, the model context
  protocol. The services of the surrounding application are traits in
  `app/host.rs`.
- `tests/` run the library on concrete values.

Work that alternates decisions and outside effects is a state machine in `src/`
and a loop in `app/`: `shell_call` and `command` for a shell command,
`code_execution_call` for a call of the extension, `session_reply` for a reply,
`session_events` for a subscriber.

What the proofs rest on without proof: `serde_json` (reading and writing JSON),
`uuid` (which texts are UUIDs), and `String::push`, `String::from_utf8_lossy`,
`<[String]>::sort` and `String::hash` of the standard library. Each stands
behind one item whose doc comment says what is claimed of it.
