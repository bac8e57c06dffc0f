# ichat backend library

The request, response and message logic of the ichat chat backend, written
in Verus and proved against its contracts.

- `src/json.rs` — JSON documents as the library reads them, parsed by `serde_json`.
- `src/fields.rs` — reading ids, tokens and failure reasons out of New API answers.
- `src/newapi.rs` — the New API account service: URLs, headers, bodies, the reading
  of each answer, the listing of a user's API keys and the provisioning of a key.
- `src/flow.rs` — the steps of an external login or registration.
- `src/auth.rs` — route errors and the local user rows, with the upsert of the row
  kept per external user.
- `src/token.rs` — the PASETO session token and the key it is sealed under.
- `src/routes.rs` — the decisions of the auth, chat, model and user routes.
- `src/message.rs` — chat messages converted to the upstream request format.
- `src/config.rs` — the startup configuration from the environment.
- `src/wire.rs`, `src/text.rs` — HTTP status and header rules, text helpers.

`app/` reads the environment, sends the HTTP requests with `reqwest`, and
waits for shutdown; `tests/` runs the library on concrete values.
