# pi_lynx_sdk

Embedding surface for the Pi agent runtime, written in Verus. The host stays
the source of truth for persistence, permissions and tool routing; the library
states and proves what the embed layer does with what the host hands it.

## Layout

- `src/` — the verified library.
  - `history.rs`: rebuilding agent history from a host transcript, with the
    tool-call/tool-result pairing rules, and the laws about replay order and
    unresolved calls.
  - `event_bridge.rs`: the bridge state machine that turns agent events into
    host events (one terminal event per turn, sticky errors, tool counting).
  - `runtime.rs`: the decisions that finish a turn or classify a runtime
    failure.
  - `provider_factory.rs`: provider/model normalization and stream settings.
  - `tool_bridge.rs`: tool definitions, the registry plan under a tool
    policy, and host tool errors.
  - `bootstrap.rs`: configuration validation and system prompt composition.
  - `types.rs`, `model.rs`, `errors.rs`: the data model and its views.
  - `text.rs`, `json.rs`, `encoding.rs`: string helpers and the trusted
    boundary to `std`, `serde_json` and `base64`.
- `tests/` — executable tests of the library.
- `app/` — the asynchronous runtime glue around the agent crate: provider
  creation, the agent loop, event callbacks and serde copies of the types.

## Collections

The library keeps its collections in `Vec`s, whose contents Verus specifies
exactly, and states as invariants what a map or set would otherwise give:
the active, pending and completed tool calls of a batch are sequences in
call order, and stream header overrides are name/value pairs whose names are
distinct, read as a map through `headers_map`.
