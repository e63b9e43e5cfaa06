# mini_mqtt_client

A desktop MQTT client's core, verified with Verus: it keeps the user's
brokers, subscriptions, command templates, scripts and environment
variables; connects to brokers over MQTT 3.1.1 or 5.0 (TCP, TLS,
WebSockets); tracks every publish and subscription until the broker
acknowledges it; reconnects with jittered exponential back-off; and writes
its data files so that a crash during a write of a valid or missing file
leaves the previous version or the new one to load.

## Layout

- `src/` — the verified library.
  - `models`, `records`, `keyed`, `text`: the stored records, lookups over
    them, and string helpers (trimming, ordering, comparison).
  - `storage`: the in-memory store (`AppData`) and the settings (`AppConfig`)
    with their allowed ranges.
  - `paths`, `persist`: the files kept beside a data file, the decisions of
    a safe replacement (a step machine the caller drives), and loading with
    fallbacks.
  - `protocol`, `connection`, `tls`: protocol versions and capabilities,
    reconnect back-off, connection settings derived from a broker, and TLS
    material read from PEM.
  - `events`, `supervisor`: classification of the client's events and the
    supervisor's decisions, including which subscriptions to restore.
  - `publish`, `subscription`: the trackers that bind operations to packet
    IDs and complete them only on the matching acknowledgement.
  - `commands`: the checks and plans of the user interface's commands.
- `tests/` — tests of the library.
- `app/` — the unverified shell: file and database I/O, the `rumqttc`
  event loops and TLS configuration, and the command handlers.
