# queries_ext

Verified queries over a ledger's state, written in Verus.

- `src/types.rs`: the values the queries read and return, among them
  `Storage`, the ledger storage as the queries see it.
- `src/lookup.rs`: what storage answers to each key, as specs, and the
  searches that find the answering entry.
- `src/queries.rs`: the queries, each with a contract over those specs.
- `src/laws.rs`: laws that relate the queries to one another.
- `src/codec.rs`: Borsh decoding of stored integers and UTF-8 decoding.
- `src/search.rs`: first-match search specs and lemmas.
- `app/`: the error type with its `Display` messages.
