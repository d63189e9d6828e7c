# capster

A captcha service. `src/` is the library, whose contracts are proved; `app/` is
the HTTP server (axum) around it.

- `store`, `memory_store`: the `CaptchaStore` contract (what was set and not
  removed is all a lookup can find) and an in-memory store on a `moka` cache
  whose entries expire.
- `random`, `token`, `captcha_builder`: random answers, increasing UUID v7 tokens, and
  captcha pictures drawn by `captcha_rs` from request parameters and their
  defaults.
- `base64_handler`, `image_handler`, `verify_handler`: issuing a captcha (its
  text, or a PNG picture of the requested size) and checking an answer once,
  exactly or ignoring ASCII case.
- `convert_handler`, `qr_handler`, `encoding`: image format conversion and QR
  codes, with base64 data URIs.
- `properties`: statements that span several operations, such as a token
  being usable once.

The server keeps answers in memory or, with the `Redis` backend, in a Redis
server; configuration comes from `capster.toml` and `CAPSTER_` environment
variables.
