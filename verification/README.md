# usermon

The client-side logic of the Usermon telemetry SDK and its `usermon`
command line, written in Verus with its contracts proved.

- `src/` is the verified library:
  - `types.rs`: the wire enumerations (platforms, log and issue levels, RUM
    event types) and the telemetry events of an ingest batch;
  - `client.rs`: endpoint normalisation, the health and ingest requests,
    how a reply is judged, the one-event batches of the convenience calls,
    timestamps and random identifiers;
  - `auth.rs`: credentials and the browser login hand-off (the portal URL,
    reading the loopback callback, its answer);
  - `project.rs`: `usermon.json`, the search for it, stack detection and
    the `usermon init` guides;
  - `cli.rs`: which endpoint and key the command line uses, piping log
    lines in batches, JSON error output;
  - `text.rs`: the string operations the rest is built on.
- `app/` is the `usermon` program around it: argument parsing, files, the
  network, the terminal, and the serde forms of the library's types.
- `tests/` runs the library on concrete values.
