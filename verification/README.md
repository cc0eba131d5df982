# IBM Cloud App Configuration client, verified

Feature-flag and property evaluation for IBM Cloud App Configuration, with
its rules proved by Verus.

- `src/` is the library. It holds the configuration model and its indexing,
  segment targeting and rollout (including progressive rollouts), the
  evaluation of features, properties and secret references, the handling of
  service URLs and context options, the decisions of the background
  synchronisation worker (as a state machine), metering batches, and
  connectivity probes. Every function carries a contract checked by Verus;
  `src/laws.rs` states properties that relate several functions.
- `tests/` runs the library on concrete values.
- `app/` is the part that talks to the outside world: HTTP and websocket
  connections, files, threads, and the JSON forms of the data. Its loops
  perform the actions that the library's step functions decide (the
  synchronisation worker, the wait before reconnecting, the connectivity
  check, metering); what is left in it is plumbing: locks, channels, timers
  and conversions between the library's types and their JSON forms.
