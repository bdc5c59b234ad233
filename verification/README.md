# agy-acp

An adapter that lets clients of the Agent Client Protocol talk to the `agy`
command line agent. It keeps the sessions of the client, maps them to agy's
conversations, shows and sets their options, runs agy for each prompt, and tells
a failed turn from an empty one by what agy left in its logs.

The rules are a library that is verified with Verus; input and output are
ordinary Rust around it.

| Path | Content |
| --- | --- |
| `src/types.rs` | sessions, the stored sessions, the messages of the protocol |
| `src/adapter.rs` | the adapter's state: sessions in memory, models, places of files |
| `src/handlers.rs` | the answers to requests about sessions |
| `src/config.rs` | the options of a session |
| `src/prompt.rs` | a turn: what agy is run with, and how the turn is answered |
| `src/log_scan.rs`, `src/log_run.rs` | the cause of an empty turn, out of agy's logs |
| `src/models.rs`, `src/narration.rs` | the list of models; narration in agy's answers |
| `src/paths.rs`, `src/text.rs`, `src/json.rs`, `src/table.rs` | paths, text, JSON values, maps by text |
| `src/outside.rs` | the calls into other crates, with what is taken for granted of them |
| `src/laws.rs`, `src/log_laws.rs`, `src/narration_laws.rs` | what holds across the functions above, proved |
| `app/` | files, processes and messages |
| `tests/` | the library at work on concrete values |
