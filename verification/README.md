# mcprouter

The core of an MCP router — a desktop application that gathers several MCP
servers (reached over stdio or HTTP) behind one HTTP endpoint, with API keys
and per-token permissions — written in Verus. The decisions the router makes
are stated as contracts and proved.

## Layout

- `src/` — the verified library.
  - `aggregator` — who may list or call what, paging of listings, routing of
    `server__item` names, error answers, the endpoint's statistics.
  - `auth_context` — sessions, bearer headers, admission of requests.
  - `config` — the configured servers and the API keys, with their
    repositories.
  - `mcp_client` — remembered connections and how a stdio server is launched.
  - `mcp_manager` — how servers are listed, when an update reconnects, what a
    manifest synchronisation does, permission listings.
  - `marketplace` — the ModelScope listing: requests, answers, cards, detail
    pages, one-click install.
  - `settings`, `tray`, `startup`, `dashboard`, `state_manager`,
    `session_manager`, `shell_environment`, `commands`, `entities`, `db` —
    the remaining rules of the application.
  - `keyed`, `text` — a string-keyed map and the text functions the rest
    relies on.
  - `json`, `crypto`, `ids`, `clock` — the calls into `serde_json`, `sha2`,
    `rand`, `uuid` and `chrono`, each with the contract it is trusted for.
- `tests/` — tests run against the compiled library.
- `app/` — a command-line shell: configuration file, HTTP, the login shell,
  network interfaces.
