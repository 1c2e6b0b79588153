# hqaudio_api

An unofficial API for songs, albums, playlists, artists and lyrics of the
HqAudio catalogue, with download links in five bit rates.

- `src/` is the library, verified with Verus: the decryption of media URLs
  (base64, DES-ECB, PKCS#7) and the links derived from them, a JSON model of
  the upstream replies and their reading into the response models, what each
  endpoint asks upstream and how it answers, request planning and the circuit
  breaker, and the log viewer's and abuse protection's rules.
- `app/` is the server around it (axum, Redis, reqwest, tokio): routing,
  I/O, caching and background tasks.
- `tests/` runs the library on concrete values.

Run the server with `REDIS_URL`, `PORT` and `LOGS_PASSWORD` in the
environment (or a `.env` file); it listens on port 3000 by default.
