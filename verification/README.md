# agent_server

The decision logic of a WeChat desktop agent server, written in Verus with
its behaviour stated as contracts and proved.

- `src/` — the verified library: accessibility-tree selectors and the UI
  state readers, the UI plans (login, logout, chat open, send, receive a
  transfer) as state machines, the open-chat run, message decoding and the
  chat/contact/message queries, media file location and decryption of
  `.dat` images, download jobs, voice jobs (the request that creates one and
  the run that sends it, both as step functions, in `src/voice_flow.rs`), the
  login WebSocket, the health monitor, session launching, the browser
  viewer's pages (`src/vnc.rs`), and the API's authentication.
- `tests/` — tests of the library on concrete values.
- `app/` — the HTTP server around the library: configuration, database and
  process access, the desktop tools, the viewer's WebSocket proxy, and the
  routes that hand their results to the library and carry out the actions
  its step functions ask for.

Calls into outside crates (regex, md-5, sha2, zstd, base64, chrono, uuid,
serde_json, and `url` through `reqwest::Url`) and two std functions
(`str::to_lowercase`, `String::push`) are made through small trusted items in
`src/codec.rs`, `src/json.rs`, `src/selectors.rs`, `src/finder.rs`,
`src/sessions.rs`, `src/media_paths.rs`, `src/plans/receive_transfer.rs` and
`src/text.rs`, each with a doc comment saying what its contract claims.
