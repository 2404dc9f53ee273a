# raft_service_rs

A Raft replication service built on `openraft`, with its logic verified by Verus.

- `src/` — the verified library:
  - `pb.rs`: the protobuf messages exchanged and stored by the nodes;
  - `types.rs`: the consensus engine's shapes (log ids, memberships, snapshot metadata,
    replication messages, storage errors);
  - `convert.rs`: conversions between the two, with round-trip laws;
  - `leader_id.rs`, `decimal.rs`: leader identities and their display form;
  - `store.rs`: the replicated state-machine store (applying entries, building,
    installing and serving snapshots) and its laws;
  - `lifecycle.rs`: when the leader-only services start and stop, and the law that
    starts and stops alternate;
  - `application.rs`: the traits an application implements;
  - `server.rs`: the node configuration and the engine's timing configuration.
- `app/` — the asynchronous service around it: the engine's type configuration, the
  state-machine adapter the engine drives, the server and its clients, the orchestrator.
- `tests/` — tests of the library on concrete values.
