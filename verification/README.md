# disagg_router

Routing decisions for disaggregated inference, written and proved in Verus.

In a disaggregated deployment a prefill worker computes the prompt of a request and a decode
worker generates from it. This crate decides what happens to a request on the way: whether it is
taken through prefill or only told its workers, which prefill worker it goes to, where the two
workers meet, what the prefill came to, and which request the decode worker gets. It also holds
the lifecycle of the prefill side and the worker sets that a model is served from.

- `src/` is the verified library. Nothing in it performs I/O: each function takes what was
  observed and returns what is to be done next. Values that stand for a stage of a request or
  of building a router are consumed by the step that ends the stage.
- `tests/` runs the library, with the crates it calls.
- `app/` carries the decisions out: shared state, background tasks and asynchronous calls.

Floating-point settings (weights, temperatures, priorities) are held in `src/` as the bits of
their 64-bit floats.

The library calls `serde_json`, `rand` and `tokio::sync` through a few functions whose contracts
are believed and not proved. They stand in `src/json.rs`, `src/channels.rs` and
`src/worker_query.rs`, each with a comment that says what is claimed.
