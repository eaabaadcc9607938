# twilio2

Request building and validation for Twilio Programmable Messaging, with every
rule proved by Verus.

- `src/` — the verified library. Each request type states, as a spec
  function, the first documented Twilio rule it breaks (`violation`), and
  `validate` is proved to return exactly that error. Each request also states
  the form or query parameters it sends (`spec_form_params`,
  `spec_query_pairs`) and is proved to encode them in that order; `form`
  serializes them as `application/x-www-form-urlencoded` text. Response
  records state how each field is read: text as written, timestamps and
  decimals as the values `time` and `rust_decimal` read from their text.
  `debug_text` on the Messages, Services, Short Code, Toll-free, Link
  Shortening, Deactivation and Safe List records writes their debug text with the
  identifying fields hidden as `[REDACTED]`. `laws` collects the properties that
  relate several functions.
- `src/external.rs` — the calls into `time`, `url`, `serde_json`, `rust_decimal`
  and std's `Debug` formatting whose contracts are trusted.
- `app/` — what Verus does not see: serde shapes of the JSON responses, the
  zero-on-drop secret wrapper, and the Content payloads that hold floats.
- `tests/` — tests of the library on concrete values.
