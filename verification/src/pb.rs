//! The protobuf messages that the nodes exchange and store: plain values, as the
//! message compiler lays them out (an optional message field is an `Option`, a map is
//! a `BTreeMap`).
use vstd::prelude::*;
use std::collections::BTreeMap;

verus! {

/// A cluster node: its id and the address of its RPC endpoint.
#[derive(Debug, Default, PartialEq, Eq)]
pub struct Node {
    pub node_id: u64,
    pub rpc_addr: String,
}

impl Clone for Node {
    fn clone(&self) -> (res: Self)
        ensures
            res == *self,
    {
        Node { node_id: self.node_id, rpc_addr: self.rpc_addr.clone() }
    }
}

/// The id of a log entry on the wire: the term of the leader that proposed it and its index.
#[derive(Debug, Clone, Copy, PartialEq, Eq)]
pub struct LogId {
    pub term: u64,
    pub index: u64,
}

/// A leader identity: the term and the node elected in it; leader ids are ordered by
/// term, then by node id.
#[derive(Debug, Clone, Copy, PartialEq, Eq, PartialOrd)]
pub struct LeaderId {
    pub term: u64,
    pub node_id: u64,
}

/// A vote: the leader it is for, and whether a quorum has granted it.
#[derive(Debug, Clone, Copy, PartialEq, Eq)]
pub struct Vote {
    pub leader_id: Option<LeaderId>,
    pub committed: bool,
}

/// A set of node ids, held as the keys of a map.
#[derive(Debug, PartialEq, Eq)]
pub struct NodeIdSet {
    pub node_ids: BTreeMap<u64, ()>,
}

/// A membership configuration: one or more voter sets (more than one during a
/// joint change) and the nodes known to the cluster, by id.
#[derive(Debug, PartialEq, Eq)]
pub struct Membership {
    pub configs: Vec<NodeIdSet>,
    pub nodes: BTreeMap<u64, Node>,
}

/// A replicated log entry: its id, and either application data or a membership change
/// (or neither, for a blank entry).
#[derive(Debug, PartialEq, Eq)]
pub struct Entry {
    pub term: u64,
    pub index: u64,
    pub app_data: Option<Vec<u8>>,
    pub membership: Option<Membership>,
}

/// The replication request a leader sends to a follower.
#[derive(Debug, PartialEq, Eq)]
pub struct AppendEntriesRequest {
    pub vote: Option<Vote>,
    pub prev_log_id: Option<LogId>,
    pub entries: Vec<Entry>,
    pub leader_commit: Option<LogId>,
}

/// A follower's answer to a replication request.
#[derive(Debug, Clone, Copy, PartialEq, Eq)]
pub struct AppendEntriesResponse {
    pub rejected_by: Option<Vote>,
    pub conflict: bool,
    pub last_log_id: Option<LogId>,
}

/// A candidate's request for a vote.
#[derive(Debug, Clone, Copy, PartialEq, Eq)]
pub struct VoteRequest {
    pub vote: Option<Vote>,
    pub last_log_id: Option<LogId>,
}

/// The answer to a vote request.
#[derive(Debug, Clone, Copy, PartialEq, Eq)]
pub struct VoteResponse {
    pub vote: Option<Vote>,
    pub vote_granted: bool,
    pub last_log_id: Option<LogId>,
}

/// The answer the controller service gives to a client write.
#[derive(Debug, PartialEq, Eq)]
pub struct ClientWriteResponse {
    pub log_id: Option<LogId>,
    pub membership: Option<Membership>,
}

impl Membership {
    /// The voter sets, each as its set of ids.
    pub open spec fn config_ids(&self) -> Seq<Set<u64>> {
        self.configs@.map_values(|c: NodeIdSet| c.node_ids@.dom())
    }
}

} // verus!
