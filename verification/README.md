# commut

commut is a personal terminal served over HTTP and WebSocket: a browser
authenticates with an authorized P-256 key pair, agrees on session keys with
the server, and drives a shell in a PTY over an encrypted WebSocket.

## Layout

- `src/` is the library, written in Verus and verified:
  - `contract.rs`: the wire format (dot-separated handshake bodies,
    `<cols>,<rows>` dimensions, binary WebSocket frames)
  - `crypto.rs`: Base64, ECDSA, ECDH, HKDF-SHA-256 and AES-128-GCM, each a
    call into its crate behind a specified wrapper
  - `state.rs`: the nonce store (with its 3000 ms lifetime) and the one-shot
    checkpoint and session stores
  - `routes.rs`: what `/api/nonce`, `/api/ticket`, `/api/salt` and
    `/sockets/{id}` answer and how they change the state
  - `session.rs`: what an established session does with each message and
    each chunk of PTY output
  - `pty.rs`: the shell launch contract; `runtime.rs`: where the authorized
    key comes from; `build_info.rs`, `app.rs`, `error.rs`
- `app/` is the executable: axum routes, the WebSocket loop, PTY processes,
  environment and files. It makes no protocol decision of its own.
- `tests/` exercises the library on concrete values.

`GET /api/build-info` reports the package version and a source digest. The
crate has no build script, so the digest is whatever was set in
`COMMUT_BACKEND_SOURCE_DIGEST` when the executable was built, and
`unrecorded` when nothing was.

## Design notes

- The checkpoint and session stores are `vstd::hash_map::StringHashMap`s.
  The nonce store is a `Vec` of entries that holds no nonce twice, viewed as
  a map from nonce to issue time. Expired nonces have to be dropped on every
  lookup, and vstd gives `HashMap` and `StringHashMap` no specified
  `retain` or iteration, so a map could not be pruned in verified code. A
  loop over the `Vec` can, and it is proved to keep exactly the live
  entries.
- Times are nanoseconds since the state was created, the resolution of
  `std::time::Instant`. A nonce therefore lives exactly 3000 ms. The TTL
  functions take explicit times (`*_at`); the ones that read the clock pass
  it on to them.
