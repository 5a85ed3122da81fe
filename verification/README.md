# flowgen connectors

Two task connectors of an event flow, with their decisions verified by Verus:

- `kafka`: produces events to a topic and emits where each record was stored.
- `mongo`: reads, writes or upserts documents of a collection and emits the
  documents or the insertion result.

## Layout

- `src/` is the verified library. A task is a chain of stages: each stage takes
  what the outside world answered and says what to ask next. Every stage has a
  contract that fixes its outcome, the errors among it.
  - `text`, `entries`, `json`, `document`, `stream`: texts, ordered tables, and
    the parts of `serde_json`, `bson` and `arrow` that the stages use.
  - `event`, `task`: events, completions, retries and the loop of a task.
  - `kafka`: credentials and settings, the producer and its builder.
  - `mongo`: filters, updates, reads, writes, upserts, the processor and its
    builder.
- `tests/` runs the library with the real crates.
- `app/` connects the stages to channels, brokers and databases. What the
  embedding application has to provide is the trait `Host`.

## What is trusted

A function marked `external_body` makes one call into `serde_json`, `bson`,
`mongodb`, `rdkafka`, `arrow` or the standard library. An `assume_specification`
gives a contract to such a function itself, and a declaration of an outside type,
or a name without a body, lets contracts speak of what comes from outside. The
comment of each says what is believed. Everything else in `src/` is proved.

Functions named `law_..` state what holds across several functions.
