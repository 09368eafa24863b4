# langfuse

A client library for [Langfuse](https://langfuse.com), the LLM
observability service, whose logic is specified and proved with Verus.

## Layout

- `src/` — the verified library: configuration and credentials, error
  kinds and the retry rule, `{{variable}}` prompt templates, the prompt
  cache with its time-to-live and fallback rules, media data URIs and
  media reference tokens, tool-call and stream accumulation, the
  `observe` argument rules and wrapping plan, attribute propagation and
  baggage, experiment paging and resuming, exporter settings and API
  endpoints. Each public function carries a contract; the laws that tie
  several functions together are public proof functions.
- `tests/` — tests of the library on concrete values.
- `app/` — the runtime around it: HTTP with `reqwest`, spans with
  OpenTelemetry, background tasks with Tokio, JSON with `serde`, and the
  floating-point scores and experiment summaries.
