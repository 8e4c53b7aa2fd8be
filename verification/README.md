# maelstrom

Node infrastructure for the Maelstrom distributed-systems workloads (echo,
unique ids, broadcast), verified with Verus.

- `src/` is the verified library: the wire message model and reply routing
  (`message`), error codes (`error`), the multiplexer's decisions — node id,
  RPC ids, which inbound message answers which RPC (`mux`) — decimal
  rendering (`decimal`), the workload payloads (`protocol`), the `Service`
  trait, and the three services (`echo`, `unique_ids`, `broadcast`).
- `app/` is the program around it: Tokio tasks for stdin and stdout, the
  RPC client, the runtime loop, and serde's wire forms of the library's types.
  Run it with the workload as first argument: `echo`, `unique-ids` or
  `broadcast`.
- `tests/` runs the library on concrete values.
