# tower-http-compression

Tower middlewares that handle HTTP `Content-Encoding`: requests are given an
`Accept-Encoding` field, and response bodies are decompressed on the way back.

- `src/` is the library, verified with Verus: which codings are asked for, which
  requests and responses are changed and how, and which error a reader is told.
  - `options` holds the set of codings,
  - `decode` the rules for requests and responses,
  - `body` and `util` the rules for what is read from a body,
  - `headers` and `buffers` what is taken for granted of the `http` and `bytes`
    crates and of the standard library.
- `app/` drives Tower services, HTTP bodies and the decoders by these rules.
- `tests/` runs the library on given values.
