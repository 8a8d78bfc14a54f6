# audit_agent

An HTTP service that audits accessibility issues: for each issue of a CSV
file it finds the nearest validation rules in a vector store, asks a language
model which of them cover the issue, and writes the answers to a CSV sheet.

- `src/` is the verified library (Verus):
  - `pre_process` — command-line arguments, reading the CSV table (through the
    `csv` crate), and the texts made from its records;
  - `clients_connection` — the JSON bodies of the requests to the model, the
    embedding service and the vector store;
  - `json`, `json_text` — replies as a tree of plain values; JSON string
    literals (through `serde_json`) and decimal numbers;
  - `actual_work` — the candidate rules of a search reply, the context and the
    answer of the model;
  - `response_sheet` — the decisions of a run that fills the sheet, as a state
    machine, with its laws;
  - `upload` — the decisions of a run that stores the validation rules in the
    vector store, as a state machine, with its laws;
  - `service` and `ApiError` — the answers of the HTTP service.
- `app/` is the server around it (axum, tokio, reqwest): it performs the I/O
  that the library's run asks for.
- `tests/` runs the library on concrete values.
