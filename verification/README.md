# trampantojo

Verified core of a threat-intelligence platform that collects indicators of
compromise (domains, URLs, IP addresses, phone numbers, file hashes) from an
official CSIRT feed and from community reports, scores them, and answers
"is this a known threat?" for an API and a messaging bot.

- `src/` is the library, written and proved with Verus:
  - `text`: character-level operations (trim, replace, split, ASCII case).
  - `indicator`: indicators, sources, the merge rules, normalization, refanging.
  - `storage`: database literals and rows, deduplicated upserts, cache and
    rate-limit keys.
  - `csirt`: the alert feed filters and the decisions of a polling cycle.
  - `net`: IP networks and resolution of the client behind trusted proxies.
  - `api`: the API's error contract, community reports, accounts, rate limiting.
  - `notify`: at-least-once delivery of notifications from a stream.
  - `chat`: indicator extraction from messages and the bot's replies.
  - `digest`: SHA-256 in hexadecimal; `events`: the ClickHouse event store.
- `app/` runs the services (`api`, `csirt-poller`, `notifier`, `whatsapp-bot`,
  `scoring`, `ingestion`): I/O, serialization and the floating-point trust
  scores.
- `tests/` exercises the library on concrete values.

Not served by `app/`: the account routes (registration, login, API keys) and
the statistics route. Their decisions are verified in `api` (password checks,
bcrypt hashing and verification, token claims, key lookup), but the user and
key stores and the signing of tokens are not part of this repository. The
per-plan rate limits in `app/api.rs` are read from `RATE_LIMIT_<PLAN>`
(`capacity/refill`), with built-in defaults.
