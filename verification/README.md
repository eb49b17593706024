# acme_svc

The core of a small Rust service skeleton, verified with Verus.

`src/` is the library. Every function of it is proved against its contract, except the
small wrappers (marked `external_body`) through which it calls `dashmap`, `uuid`, `time`,
`tokio` and std's formatting; their contracts are trusted and say what those calls do:

- `error` — the error classification every layer shares (`ErrorKind`, `ErrorSource`,
  `Severity`, `Classify`) and the rendering of an error's cause chain.
- `todo`, `domain_error`, `event` — the todo domain: identities, validated titles, the entity,
  its errors and the events it announces.
- `repository` — the persistence boundary and the in-memory store on `dashmap`.
- `service` — the use cases over a repository, a clock and an event publisher.
- `clock`, `bus` — the system clock, a fake clock and the broadcast-bus publisher.
- `config` — the configuration schema and its validation rules.
- `api` — problem details, probe answers, correlation ids and the todo representation.
- `lifecycle` — the phases of a server run, its outcome, and what a shutdown signal means.
- `text`, `id` — decimal, hyphenated and quoted renderings; time-ordered identifiers.

`app/` is the program around it: configuration files and environment, telemetry, the HTTP
router and middleware, and the async runtime that spawns services and feeds what happens into
the library's lifecycle decisions.
