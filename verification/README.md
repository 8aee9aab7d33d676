# clipsync

Clipboard text mirrored between machines through a small WebSocket relay.

- `src/` — the verified library (Verus): the client's synchronisation engine
  (`sync`), its event routing, status text and tray icon (`ui`), the connection
  session and reconnect backoff (`client`), the keepalive rule (`keepalive`), the
  wire messages and size limits (`wire`), the client and server settings
  (`config`, `server_config`), the relay's rooms (`room`) and its per-connection
  decisions and admission check (`server`).
- `app/` — the programs around it: the axum relay (`clipsync server config.toml`, or the executable installed as `clipsync-server config.toml`)
  and the Windows tray client (`clipsync`), with the file, network, clipboard and
  window work, and JSON/TOML encoding.
- `tests/` — tests of the library on concrete values.
