# hermes_tray

A desktop tray client for the Hermes Agent API server, with its logic
verified in Verus.

- `src/` is the verified library:
  - `api` builds the requests to the agent (URLs, `Authorization` header,
    JSON bodies) and turns the replies into results: the connection status
    from `/health/detailed`, whether a run is in progress, chat answers,
    created and listed sessions.
  - `json` holds a JSON document as plain values, and parses reply bodies with
    `serde_json`.
  - `status`: the connection status, its names, tooltips and icon colors.
  - `shortcut`: the toggle shortcut setting, shortcut and tray events, the
    tray menu.
  - `config`: the settings, their defaults, where the config file lives,
    and what loading starts with.
  - `text`: string helpers (trimming, decimal rendering).
- `app/` is the Tauri shell around it: HTTP with `reqwest`, the config file
  on disk, tray images, global shortcuts and the commands of the chat window.
- `tests/` runs the library on concrete values.
