# rustle

The EternalAI provider and the LanceDB vector index of rustle, with their
logic stated in contracts and proved.

- `src/` — the verified library.
  - `eternalai` — client settings, request URLs, embedding and chat
    requests, and the reading of the provider's answers.
  - `lance_index` — search parameters, the query settings they select, and
    the results assembled from the rows a query returns.
  - `completion`, `embeddings`, `vector_store` — shared types and errors.
  - `json` — parsing and merging JSON through `serde_json`.
  - `text`, `vecs`, `http` — string and vector helpers, and the `reqwest`
    items the library relies on.
- `app/` — the HTTP exchanges, JSON (de)serialisation and the LanceDB calls.
- `tests/` — tests of the library on concrete values.
