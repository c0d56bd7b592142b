# elan

elan is a federated query system. Coordinators register datasets that live
in remote environments with a central authority (elan-central); elan-query
plans SQL over all of them, sends each table scan to the executor next to the
data, and enforces IAM policies on every plan; a terminal client (elan-tui)
runs queries and follows the audit stream.

This crate is the verified core of the system, written in Verus. Every
public function in `src/` carries a contract, and Verus proves every
function against the contracts of what it calls:

- `iam` — policy matching, the policy engine (default deny, Deny over Allow,
  higher priority first, first listed on ties), the catalog filter and the
  plan rewrite that empties denied scans. `iam::laws` states and proves the
  engine's properties for every policy list.
- `common` — errors and their gRPC statuses, catalog types, the HTTP API
  shapes and the gRPC messages with their conversions (each proved to read
  back what it wrote).
- `central`, `coordinator`, `executor`, `query` — configuration (layered
  defaults, TOML file and environment), row mappings, request handling,
  remote scan SQL and endpoints, the per-user catalog, query responses and
  audit events.
- `audit` — audit events, their Kafka topics and central messages.
- `tui` — the terminal client's state, key handling and displayed texts.
- `schema` — dataset schemas as Arrow IPC stream bytes.
- `text`, `ids`, `json`, `assoc`, `settings` — strings, UUIDs and clock
  readings, JSON, a string-keyed map, and layered settings.

Calls into `uuid`, `chrono`, `serde_json`, `config` and `arrow-ipc`, and the few `std`
functions without a Verus specification, stand behind small trusted
functions whose contracts say what the library relies on.

`tests/` exercises the library on concrete values. `app/` holds the programs
around it: the terminal client's event loop and drawing, configuration file
and environment reading, the HTTP endpoints, and the serde forms of the
library's types.
