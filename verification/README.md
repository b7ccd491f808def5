# harmony

Harmony's music library types and the decisions of its client and server,
written in Verus.

- `src/` is the verified library: identifiers (`ids`), tracks, groups and
  playlists (`types`), release-date parsing (`calendar`), conversion of Spotify
  tracks (`spotify`), the client's errors and checks (`error`, `client`), the
  server's route decisions (`routes`), text helpers (`text`) and the clock
  (`clock`).
- `app/` is the server program (axum, rspotify) and the client's HTTP calls
  (reqwest), which hand the library plain values.
- `tests/` exercises the library.
