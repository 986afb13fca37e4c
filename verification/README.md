# openadr

An OpenADR 3.0 toolkit whose core is verified with Verus.

- `src/` is the library, every function of it proved against its contract:
  the wire data model (identifiers, enumerations and their texts, priorities,
  values, targets, events, programs, reports, resources, VENs), the VTN's
  rules (roles and claims, query validation, access to objects, the token
  endpoint, problem reports for errors), the in-memory storage with its
  read-after-create and delete laws, the client's decisions (query
  parameters, paging, token renewal, parent checks), the event timeline
  (events laid out by priority over a range map) and the power-limit
  schedule derived from it.
- `tests/` runs the library on concrete values.
- `app/` is the program around it: the HTTP server (axum), JSON (serde),
  JSON web tokens, the HTTP client and the power-limit listener. It converts
  between the library's types and their serialisable copies and leaves every
  decision to the library.

Calls into outside crates (`rangemap`, `uuid`, `chrono` through the clock,
`iso8601-duration`, `validator`, `axum`'s status texts) stand behind small
trusted wrappers whose doc comments say what is assumed of them.
