# mistralai-client

A client library for the Mistral AI platform API.

- `src/` is the library, verified with Verus: model and tool identifiers as
  the API writes them, tool descriptions (`Tool::new`), images as URLs or
  `data:` URLs, the client's configuration, its registry of callable
  functions and the results of the tool calls it ran, and the requests it
  sends and how it answers a response's status.
- `app/` is the HTTP side: it sends the requests that the library prepares
  with `reqwest`, reads the environment, (de)serializes with `serde`, and
  runs the registered async functions.
- `tests/` exercise the library on concrete values.
