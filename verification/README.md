# workdup

Deduplication of Temporal workflow histories by their semantic shape: each
history is reduced to a sequence of canonical tokens, and the SHA-256 of that
sequence decides which workflows are replays of the same path.

- `src/` is the verified library.
  - `history.rs`: the part of a history event the tokenizer reads.
  - `tokenizer.rs`: event tokens, timer buckets, version markers, the semantic
    hash of a history, and the laws they obey.
  - `config.rs`: configuration sections, defaults, namespace resolution and
    validation.
  - `scanner.rs`, `cleanup.rs`, `temporal.rs`, `http.rs`, `cli.rs`: the
    decisions of the workers, the server address and TLS choice, history
    paging, HTTP replies and the command line.
  - `text.rs`: decimal and hexadecimal text, trimming.
  - `wrappers.rs`: the calls into `sha2`, `serde_json`, `url` and `std` whose
    contracts are assumed.
- `app/` is the daemon around it: configuration loading, SQLite, the Temporal
  client, the HTTP server, logging and signals.
- `tests/` exercises the library on concrete values.
