# sentry_performance

Performance monitoring for Sentry: transactions, spans, and the distributed trace that connects
them, as a Verus library.

| Module | What it holds |
| --- | --- |
| `ids` | trace and span identifiers and their hexadecimal text |
| `text` | the text operations that headers are read with |
| `trace` | the `sentry-trace` header: reading, writing, finding it among headers |
| `string_map` | a map from text to values, sorted by key |
| `json` | the JSON values that are carried along |
| `record` | what is sent: trace contexts, spans, transactions, requests, clients |
| `context` | what a transaction is started from, and its builder |
| `sampling` | how the sample rate is chosen and decided on |
| `transaction` | running transactions and what they hand out when they finish |
| `span` | running spans and how they join their transaction |
| `transaction_or_span` | either of the two |
| `hub` | where transactions are started |
| `laws` | what holds of traces, transactions and spans as a whole |

Each type has a view, and each function says in its `ensures` how views go over into one another.
What `std`, `sentry-types` and `serde_json` do is taken from their documentation and source, in
items marked `external_body` or `assume_specification` that say what they rely on.

`app/` puts transactions and spans behind locks, asks the client for its decisions, and sends what
has finished.
