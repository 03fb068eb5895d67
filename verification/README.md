# redfish

A client library for DMTF Redfish whose core is verified with Verus.

The library (`src/`) decides everything a Redfish client decides: how a base URL is
normalized and how resource URLs are built under the Redfish root, which headers each
request carries (authentication included), what JSON body a create or update sends,
how a failed response becomes an error (Redfish error payloads, request ids,
`Retry-After`, redacted body snippets), when and after how long a request is retried,
how paginated collections are walked, how a session login reply is read and when a
task wait ends. These decisions are stated in `requires`/`ensures` contracts and proved,
over what the outside crates compute: the `url` crate's parsing and editing, `http`'s
header maps, `serde_json`'s parsing and printing, `httpdate`'s dates and `fastrand`'s
numbers are named results or bounded ones, not re-derived. The random jitter is only
bounded, and the clock is only read: functions that need the time take it as an
argument (`UnixTime`), and a `Retry-After` delay is kept exactly, in seconds and
nanoseconds (`Delay`). Request bodies are printed with their members in field order.

A service call returns a `PlannedRequest` (method, URL, headers, body); a transport
sends it and hands the reply back to the library's functions that read it. Decoding a
body into a typed model (a resource, a session, the `{"error": ...}` envelope of a failed
response) is `serde`'s work and happens in `app/`; the library is handed the result.

`app/` is a thin crate around it: it sends the planned requests with `reqwest`
(blocking or on Tokio), sleeps between attempts, logs sends and retries with `tracing`,
reads the clock, and decodes the models with `serde`. For example, with the blocking
client, `client.fetch(client.service_root().get())` reads the service root,
`client.create_session(user, password)` logs in, and
`client.list_subscriptions_all()` gathers every subscription member across pages.

Modules of the library:

- `api`: the Redfish services and the requests they plan; collection walks; session
  login replies; task waits.
- `client`: the client configuration (builder), the Redfish root path, request headers.
- `auth`: credentials and tokens (kept as `secrecy` secrets) and the headers they add.
- `transport`: request ids, Redfish error payloads, error classification, retry
  decisions, decoding of bodies.
- `types`: identifiers, collections, reset and boot values, request bodies.
- `url`, `odata`, `headers`, `json`, `pairs`, `redact`, `retry`, `error`, `method`,
  `text`: URL handling, OData query options, header maps, JSON documents, name/value
  pairs kept as sorted maps, redaction, retry policy and `Retry-After`, the error type,
  HTTP methods, text helpers.
