# app_server

The decisions of an application server, proved with Verus.

- `src/ids.rs`: identifiers and their text.
- `src/json.rs`: JSON documents as mathematics, and what is trusted of `serde_json` and
  `json_value_merge`.
- `src/language_model/`: chat completions of Azure's OpenAI models. `openai_azure.rs` makes the
  request, `chat_run.rs` follows the answer, streamed or whole, and `chat_laws.rs` proves what
  holds of every run.
- `src/routes/`: requests on datasets and datapoints. `commands.rs` and `workflow.rs` hold what
  all handlers share, `deleting.rs`, `inserting.rs`, `paging.rs` and `indexing.rs` the handlers,
  and `dataset_laws.rs` the order in which each does its work.
- `app/`: the server around the library: routes, outgoing requests and JSON.

A handler, and a completion, is a state that gives one command at a time. The caller performs the
command and hands back a reply, and the state moves on or ends with an error.
