# esrc-cqrs

CQRS on top of the `esrc` event store, over NATS: command handlers that
load an aggregate and publish the event its command produces, query handlers
that answer from a replayed or in-memory view, and projectors driven by
JetStream consumers.

- `src/` is the verified library. It holds the data exchanged over NATS
  (envelopes, replies, the serializable `Error`), the handler descriptions a
  `CqrsRegistry` keeps, the per-aggregate view table of in-memory projections,
  and, for every handler, dispatcher and client operation, the decision taken
  after each outside step (decode, load, write, replay, encode, request).
  `src/laws.rs` states the properties that relate several of these parts.
- `app/` is the asynchronous side: the handler traits, serde copies of the
  wire types, the `esrc`/NATS calls, the dispatcher and client loops.  It
  performs the outside operations and asks the library what to do next.
- `tests/` exercises the library on concrete values.
