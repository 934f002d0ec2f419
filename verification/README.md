# act-api-server

HTTP API, NATS bridge and guarded YouTube control plane for the AntiCapTrad
platform. The decisions of the server are a Verus library with machine-checked
contracts; the program around it reads the environment and performs the I/O.

## Layout

- `src/` — the verified library (`act_api_server`):
  - `text` — character classes, trimming, prefixes, decimal numbers;
  - `json` — JSON values as the control plane reads and writes them;
  - `web_url` — the components of a parsed URL;
  - `config` — the environment's settings and the fail-closed rules between them;
  - `auth` — bearer parsing and acceptance of introspected claims;
  - `youtube` — the action allow-list and the request checks (private uploads,
    idempotency keys, explicit publication);
  - `gas_client` — the Apps Script client: request bodies, response
    interpretation, errors, redirects and audit records;
  - `web_data_plane` — the operation envelope and the four data-path policies,
    with the length-prefixed frame format;
  - `transport_runtime` — the mTLS and JetStream transports: bearer checks,
    replies, request fingerprints, journal claims and result publication;
  - `control` — route errors, request ids, lifecycle events, documents and the
    operation service;
  - `shutdown` — the shutdown state machine and its supervisor steps.
- `tests/` — tests of the library on concrete values.
- `app/` — the server program: environment, HTTP routes, NATS, Postgres,
  Shared Auth, Apps Script over HTTPS, telemetry and signal handling.
