# digital_twin

The core of the Digital Twin Desktop application, written in Verus. The
functions in `src/` carry contracts that Verus proves, except the small
trusted wrappers around outside crates and the standard library listed at
the end, whose contracts Verus takes on trust.

Layout:

- `src/models/` — agents, conversations, digital twins, sensor readings and
  tool classifications.
- `src/value_objects.rs`, `src/ids.rs` — e-mail addresses, URLs, data sizes,
  time windows, semantic versions and typed identifiers.
- `src/errors.rs`, `src/error_messages.rs` — the domain errors and their
  messages.
- `src/application/` — context-window and token accounting, prompt
  versioning, tool-parameter and tool-registration checks, agent commands,
  domain events, pagination, queries and the decisions of the use cases
  (twin creation and synchronization, simulation requests, tool execution,
  conversation turns).
- `src/api/` — error responses, response envelopes, authentication header
  parsing, permission checks, rate-limit keys, input sanitizing and the
  answer to a JSON-schema check.
- `src/traits/` — the data exchanged with language models, repositories and
  tool executors.
- `src/json.rs`, `src/text.rs` — JSON values as plain data, and verified text
  helpers.
- `app/` — ordinary Rust around the library: `serde_json` conversions,
  serializable copies of library types, floating-point value objects,
  statistics and simulation models, the glue around the use cases and the
  command functions.
- `tests/` — tests run against the compiled library.

Calls into outside crates (`uuid`, `chrono`, `ammonia`, `base64`,
`serde_json`, `jsonschema`) and a few standard-library functions
(`String::from_utf8`, `str::to_lowercase`, `String::push`, `Debug` of `str`)
go through small trusted wrappers, marked `#[verifier::external_body]`;
each one's doc comment says what its contract claims and what it leaves
unsaid.
