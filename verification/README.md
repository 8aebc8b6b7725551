# wx_miniprogram_server

The back end of a WeChat mini-program: login with a WeChat code, binding the
user's phone number, and reading and changing the user's profile, behind JWT
bearer tokens.

`src/` is the library, verified with Verus:

- `config` — the configuration built from the environment's settings, with defaults
  and the start-up errors.
- `error` — the errors, the HTTP status and message that answer each, and what is logged.
- `text` — decimal parsing (as `str::parse` for `u16` and `i64`), substring search
  and prefix stripping, proved against their specifications.
- `model` — requests, responses, users, sessions and WeChat's replies.
- `service::wechat` — WeChat API addresses and the judgement of WeChat's replies.
- `service::auth` — login and phone binding as step functions from state and event
  to next state and action, with their laws.
- `utils::jwt` — token claims, signing and checking (through `jsonwebtoken`), the
  expiry rule, and the judgement of decoding failures.
- `utils::ids` — the text forms of UUIDs, and reading a UUID (through `uuid`).
- `repository` — the decisions on database results, and session expiry.
- `middleware::auth` — the bearer token of an `Authorization` header.

`app/` is the server around it: environment, HTTP (axum, reqwest), PostgreSQL
(sqlx), serde forms of the library's types, and the loops that
perform the actions of the login and binding steps.
