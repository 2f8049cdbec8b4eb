# screeps_api

The websocket side of a client for the [Screeps](https://screeps.com) server, as a library whose
functions carry contracts that Verus proves.

- `src/` is the library. `channel`, `commands` and `connecting` build what a client sends:
  channel names, subscribe/unsubscribe/auth frames and the websocket url. `parsing` and
  `channel_update` read the SockJS frames and channel updates the server sends. `objects`,
  `store`, `resources`, `updatable`, `json_value`, `room_map_view`, `user_console`, `flags` and
  `room_name` hold the game data and the partial updates that keep it current.
- The calls into `serde_json`, `url` (in `parsed_url`, which holds each URL with its text) and
  `rand` stand behind small functions marked `#[verifier::external_body]`, whose doc comments say what their contracts claim.
- `tests/` runs the library on sample server data.
- `app/` reads the server's JSON with `serde` and hands the plain values to the library.

Run `verus` on `src/lib.rs` to check the proofs.
