# qwencode-rs

A Rust SDK for driving the QwenCode command-line agent, with its core verified
by Verus.

- `src/` is the verified library: the message, configuration, error and
  permission types; the JSON-RPC message constructors and the conversion of
  the agent's messages into SDK messages; the decisions of the loop that reads
  the agent's output; the MCP tool registry and its client; the query builder
  and session handle; the validators, the sanitizer and the duration
  formatter. Every public function states what it returns in its `ensures`,
  and the laws that relate several functions are public proof functions.
- `app/` is the asynchronous runtime around it: spawning the agent, reading and
  writing its pipes, message streams, running tool handlers, and the serde
  forms of the types that cross the wire.
- `tests/` runs the library on concrete values.

Calls into outside crates (`serde_json`, `uuid`, `tokio-util`) and a few std
functions go through small trusted items whose contracts are stated next to
them in `src/`.
