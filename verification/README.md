# neonet_chat

The logic of a terminal chat client for the NeoNet daemon, verified with
Verus, and a thin terminal front end around it.

- `src/` — the verified library:
  - `text.rs`: trimming, search, replacement, padding over character sequences;
  - `json.rs`: the string members of event contents, JSON string literals;
  - `clock.rs`: `HH:MM` local times;
  - `api.rs`: daemon records, endpoints, request bodies, error texts, WebSocket URL and host;
  - `app.rs`: the chat state and its reactions to history, pushed events and keys;
  - `prompt.rs`: the pseudo screen;
  - `startup.rs`: room and pseudo choice at start;
  - `config.rs`: stored configuration and the session token;
  - `ui.rs`: what the screens show and where the cursor stands.
- `app/` — command line, files, HTTP, WebSocket, drawing and the event loop.
- `tests/` — tests of the library.
