# mcsrvmonitor

A Minecraft server status monitor. It pings the configured Java and Bedrock
servers on a fixed interval, stores every sample in SQLite, and serves the
history as JSON and as a status page.

- `src/` is the verified library: the sampling decisions, the statements
  written to the database, the reading of stored rows, the status judgements
  and the page texts, each with its contract; `src/laws.rs` holds the
  properties that span several parts. The status page's rate is computed
  exactly in the library; the JSON status server's rate is rounded in
  floating point by the program, and the library writes out the rounded
  value.
- `app/` is the program around it: configuration files, the database, the
  network pings and the HTTP servers.
- `tests/` exercises the library on concrete values.
