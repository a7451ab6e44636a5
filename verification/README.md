# message

The message node of an instant-messaging server, split in two:

- `src/` — the verified library (Verus). Conversation identities and their
  keys (`ids`), the message model, its stored encoding, acknowledgements and
  error messages (`msg`), per-conversation sequence numbers (`seqnum`), the
  decisions of the echo, authentication and control handlers (`handler`),
  the handler chain (`dispatch`), the protocol of a client connection
  (`session`), group member lists and group fan-out (`group`), what the
  storage task records (`persist`), and the scheduler's register of cluster
  nodes (`cluster`).
- `app/` — the asynchronous service around it: tokio channels and tasks,
  the connection maps, the key-value store interface and the configuration
  file.

`tests/` runs the library on concrete values.
