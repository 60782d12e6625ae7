# gardena_bnw

The logic of GARDENA's BNW gateway libraries as a Verus crate: each function
in `src/` states what it does in `requires` / `ensures` and Verus proves it.

## Layout

- `src/` — the verified library.
  - `value`, `encoding`: LWM2M values, arrays of resource instances, time
    stamps and base64 fields.
  - `protocol`, `endpoint`, `includable`, `ipc`: the IPC protocol model, the
    routing of requests on an endpoint, the IDs of includable devices and the
    framing of IPC messages.
  - `lemonbeat`, `firmware_status`: Lemonbeat status codes, properties and
    service ports; firmware-update states.
  - `mpsc`: the request queue behind task RPC, with its shared handles.
  - `task_rpc`: the arguments of the task-RPC interface attribute and the
    plan of the items it generates.
  - `xsd`, `typegen`: the XSD model, its normalization and what is generated
    for each complex type.
  - `objgen`: LWM2M object definitions and what is generated for them.
  - `syslog`, `text`: syslog lines with escaped fields; text helpers.
- `tests/` — tests that run the library with its outside crates linked.
- `app/` — the I/O, async and code-writing parts around the library: sockets,
  tasks, tracing, serde forms of the library's types and the `quote` output.

Calls into outside crates (base64, hex, rand, convert_case) go through small
trusted wrappers whose contracts state what the crates document.
