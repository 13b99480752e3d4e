# payload_events

A verified library for the intake side of a debugging dashboard: applications POST batches
of JSON payloads (logs, queries, exceptions, cache operations, HTTP traffic, tables), and
each payload becomes an entry with a label, a one-line summary and a markdown body, kept in
a store that the viewer lists newest first and filters by event type.

- `src/` is the library, written in Verus. Every function carries a contract over
  mathematical models (`Seq`, `Set`, spec functions of the decoded JSON), and the laws
  that tie functions together are proof functions named `law_*`.
- `app/` is the server around it: it listens on `127.0.0.1:23517`, decodes request bodies
  with serde_json, hands batches to `server::ingest`, and lists the stored events on the
  console when their number changes.
- `tests/` exercises the library on concrete payloads, including comparisons of the
  verified number formatting with the standard library's formatting of doubles.

Numbers read as doubles are formatted where the payload is decoded (`json::DoubleText`);
the library only chooses among those renderings. Pretty and compact JSON text, HTML
`<pre>` extraction and Unicode case mapping come from serde_json, tl and std behind
trusted wrappers whose results are named (`pretty_text`, `compact_text`, `pre_inner_text`,
`lowercase_of`, `uppercase_of`).
