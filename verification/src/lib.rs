//! A Raft replication service: protobuf message models, their conversions to and
//! from the consensus engine's own shapes, the replicated state-machine store with its
//! snapshots, and the leader-lifecycle decisions of the orchestrator.

pub mod decimal;
pub mod pb;
pub mod types;
pub mod convert;
pub mod application;
pub mod store;
pub mod lifecycle;
pub mod leader_id;
pub mod server;

