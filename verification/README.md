# skailar

The verified core of a client for the Skailar API, an OpenAI-compatible LLM
gateway.

- `src/` is the library, verified with Verus: client configuration (API key,
  base URL, default headers), endpoint URLs, request headers and the bearer
  credential, the retry decisions and backoff, gateway error bodies, model-id
  path encoding, the request and response types, and the server-sent-event
  parser with the decision core of the chunk stream.
- `tests/` runs the library on concrete values.
- `app/` is the asynchronous client around it: the `reqwest` transport,
  timers, the environment, and the serde encoding of the wire types.

Module by module:

| module | contents |
|---|---|
| `text` | string building, trimming, decimal rendering |
| `json` | one-level JSON documents read with `serde_json` |
| `error` | `SkailarError`, `ApiError`, error-body reading |
| `retry` | retry decisions, backoff windows, jitter, attempt budget |
| `client` | options and their resolution, endpoints, `Retry-After`, request ids |
| `auth` | header lists, the bearer credential |
| `resources` | operations, paths, percent-encoding, upload bodies |
| `streaming` | line splitting, `data:` payloads, event decoding, the stream core |
| `types` | request/response types and their builders |
| `models` | known model ids |
