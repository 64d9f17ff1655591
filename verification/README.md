# kg2lx

A server that binds Kugou Lite accounts, logged in by QR code, to custom
LX Music sources: each source gets its own script, and the script asks the
server's runtime API for play URLs, which the server fetches from a
KuGouMusicApi upstream with the account's cookies.

## Layout

- `src/` — the library, verified with Verus. It holds the cookie jar, the
  upstream request URLs and the reading of upstream replies, the rules of the
  HTTP routes (authorization, parameters, static paths), the file layout of the
  stores and the log listing, and the login, refresh and play-URL flows as
  machines that decide each next step. Laws about them are stated and proved as
  `law_*` proof functions beside the code they concern.
- `app/` — the program around it: settings from the environment, the axum
  routes, the file stores on tokio, the reqwest client of the upstream, and the
  loops that run the library's machines.
- `tests/` — tests of the library on concrete values.

## Settings

Required: `PUBLIC_BASE_URL`, `ADMIN_TOKEN`, `KUGOU_API_BASE_URL`.
Optional: `LISTEN_ADDR` (`127.0.0.1:8787`), `DATA_DIR` (`./data`),
`UPSTREAM_TIMEOUT_MS` (`10000`), `SOURCE_NAME_PREFIX` (`Kugou Concept VIP`),
`REFRESH_INTERVAL_SECS` (`21600`), `WEB_DIST_DIR` (unset: no static files).
