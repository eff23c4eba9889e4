# nara

The core of the NARA desktop-assistant daemon, verified with Verus.

- `src/` is the verified library: the SAFE / ASK / BLOCK policy for tool
  requests (`policy`), workspace path normalization (`paths`), the Codex CLI
  bridge (`codex`), the process plans of the workspace tools (`tools`),
  configuration defaults and event-log framing with secret redaction
  (`store`), the daemon's workspace and approval queue (`daemon`), the
  payload types (`protocol`), the voice session (`voice`), and text helpers
  (`text`). Calls into `regex`, `uuid` and `chrono` go through the small
  trusted wrappers in `pattern` and `stamp`.
- `app/` is the daemon program around it: the Axum HTTP API and WebSocket
  event stream, process execution, file I/O, the TOML configuration file and
  the JSON forms of the payloads.
- `tests/` exercises the library on concrete inputs.
