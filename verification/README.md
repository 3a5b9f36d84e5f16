# mentci-lib

The shared observability + control model for Mentci clients, verified with
Verus.

- `src/contract.rs` — the Mentci wire vocabulary the model speaks (sockets,
  approval questions and verdicts, projected interface state, requests).
- `src/approval.rs` — the approval state machine (pending queue, cursor,
  verdict log, subscription fan-out), specified as transitions of
  `ApprovalState`, with its laws.
- `src/observation.rs` — the MVU `ObservationModel`: `on_user_event`,
  `on_engine_event` and `view` are proved to compute the pure
  `user_step` / `engine_step` / view functions of `ObservationState`, with the
  model's laws (daemon routing, mirrored access, token filtering, refolds).
- `src/decision.rs` — closed decision → criome verdict mapping.
- `src/render.rs`, `src/error.rs`, `src/cmd.rs`, `src/event.rs`,
  `src/introspect.rs`, `src/connection.rs`, `src/layout.rs` — the remaining
  nouns.
- `app/lib.rs` — the I/O edge: the displayable `Error` and reading an
  introspect reply off a socket.
- `tests/` — behavioural tests.
