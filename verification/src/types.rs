//! The shapes in which the consensus engine hands values to this service and takes
//! them back: log ids keyed by the committed leader (the term), memberships as voter
//! sets plus a node map, snapshot metadata, replication messages and storage errors.
use vstd::prelude::*;
use crate::pb;
use std::collections::{BTreeMap, BTreeSet};
use crate::pb::Node;

verus! {

broadcast use vstd::std_specs::btree::group_btree_axioms, vstd::laws_cmp::group_laws_cmp;

/// A log id: the committed leader id (the term) and the index.
#[derive(Debug, Clone, Copy, PartialEq, Eq)]
pub struct LogId {
    pub leader_id: u64,
    pub index: u64,
}

impl LogId {
    /// The committed leader id, that is the term of the leader that proposed the entry.
    pub fn committed_leader_id(&self) -> (r: &u64)
        ensures
            *r == self.leader_id,
    {
        &self.leader_id
    }

    /// The index of the entry.
    pub fn index(&self) -> (r: u64)
        ensures
            r == self.index,
    {
        self.index
    }
}

/// The abstract value of a membership: its voter sets and its node map.
pub struct MembershipView {
    pub configs: Seq<Set<u64>>,
    pub nodes: Map<u64, Node>,
}

/// A membership: a joint of one or more voter sets, and the nodes of the cluster
/// (a node that is in no voter set is a learner).
#[derive(Debug, PartialEq, Eq)]
pub struct Membership {
    pub configs: Vec<BTreeSet<u64>>,
    pub nodes: BTreeMap<u64, Node>,
}

impl View for Membership {
    type V = MembershipView;

    open spec fn view(&self) -> MembershipView {
        MembershipView {
            configs: self.configs@.map_values(|c: BTreeSet<u64>| c@),
            nodes: self.nodes@,
        }
    }
}

impl View for pb::Membership {
    type V = MembershipView;

    open spec fn view(&self) -> MembershipView {
        MembershipView { configs: self.config_ids(), nodes: self.nodes@ }
    }
}

impl MembershipView {
    /// The node map holds an entry for `id`.
    pub open spec fn has_node(self, id: u64) -> bool {
        self.nodes.contains_key(id)
    }

    /// Every voter of every voter set has an entry in the node map: the condition on
    /// which the engine accepts a membership.
    pub open spec fn voters_have_nodes(self) -> bool {
        forall|i: int, id: u64| 0 <= i < self.configs.len() && #[trigger] self.configs[i].contains(id) ==> self.has_node(id)
    }
}

impl Clone for Membership {
    fn clone(&self) -> (res: Self)
        ensures
            res@ == self@,
    {
        let mut configs: Vec<BTreeSet<u64>> = Vec::new();
        let mut i: usize = 0;
        while i < self.configs.len()
            invariant
                i <= self.configs.len(),
                configs@.len() == i,
                forall|k: int| 0 <= k < i ==> #[trigger] configs@[k]@ == self.configs@[k]@,
            decreases self.configs.len() - i,
        {
            configs.push(self.configs[i].clone());
            i = i + 1;
        }
        let res = Membership { configs, nodes: self.nodes.clone() };
        assert(res@.configs =~= self@.configs);
        res
    }
}

/// A membership together with the id of the log entry that carried it (none for the
/// initial, empty membership).
#[derive(Debug, PartialEq, Eq)]
pub struct StoredMembership {
    pub log_id: Option<LogId>,
    pub membership: Membership,
}

/// The abstract value of a stored membership.
pub struct StoredMembershipView {
    pub log_id: Option<LogId>,
    pub membership: MembershipView,
}

impl View for StoredMembership {
    type V = StoredMembershipView;

    open spec fn view(&self) -> StoredMembershipView {
        StoredMembershipView { log_id: self.log_id, membership: self.membership@ }
    }
}

impl StoredMembership {
    /// A membership stored with the id of the entry that carried it.
    pub fn new(log_id: Option<LogId>, membership: Membership) -> (r: Self)
        ensures
            r.log_id == log_id,
            r.membership == membership,
    {
        StoredMembership { log_id, membership }
    }

    /// The initial stored membership: no entry, no voters and no nodes.
    pub fn empty() -> (r: Self)
        ensures
            r@.log_id is None,
            r@.membership.configs.len() == 0,
            r@.membership.nodes == Map::<u64, Node>::empty(),
    {
        let r = StoredMembership {
            log_id: None,
            membership: Membership { configs: Vec::new(), nodes: BTreeMap::new() },
        };
        assert(r@.membership.configs =~= Seq::<Set<u64>>::empty());
        r
    }
}

impl Clone for StoredMembership {
    fn clone(&self) -> (res: Self)
        ensures
            res@ == self@,
    {
        StoredMembership { log_id: self.log_id, membership: self.membership.clone() }
    }
}

/// What identifies a snapshot: the last log id it covers, the id of the entry of its
/// membership, and its snapshot id.
#[derive(Debug, PartialEq, Eq)]
pub struct SnapshotSignature {
    pub last_log_id: Option<LogId>,
    pub last_membership_log_id: Option<LogId>,
    pub snapshot_id: String,
}

/// The metadata of a snapshot: the last log id it covers, the membership in force at
/// that point, and its id.
#[derive(Debug, PartialEq, Eq)]
pub struct SnapshotMeta {
    pub last_log_id: Option<LogId>,
    pub last_membership: StoredMembership,
    pub snapshot_id: String,
}

/// The abstract value of snapshot metadata.
pub struct SnapshotMetaView {
    pub last_log_id: Option<LogId>,
    pub last_membership: StoredMembershipView,
    pub snapshot_id: Seq<char>,
}

impl View for SnapshotMeta {
    type V = SnapshotMetaView;

    open spec fn view(&self) -> SnapshotMetaView {
        SnapshotMetaView {
            last_log_id: self.last_log_id,
            last_membership: self.last_membership@,
            snapshot_id: self.snapshot_id@,
        }
    }
}

impl Clone for SnapshotMeta {
    fn clone(&self) -> (res: Self)
        ensures
            res@ == self@,
    {
        SnapshotMeta {
            last_log_id: self.last_log_id,
            last_membership: self.last_membership.clone(),
            snapshot_id: self.snapshot_id.clone(),
        }
    }
}

impl SnapshotMeta {
    /// The signature of the snapshot this metadata describes.
    pub fn signature(&self) -> (r: SnapshotSignature)
        ensures
            r.last_log_id == self.last_log_id,
            r.last_membership_log_id == self.last_membership.log_id,
            r.snapshot_id@ == self.snapshot_id@,
    {
        SnapshotSignature {
            last_log_id: self.last_log_id,
            last_membership_log_id: self.last_membership.log_id,
            snapshot_id: self.snapshot_id.clone(),
        }
    }
}

/// A snapshot: its metadata and the serialized application state.
#[derive(Debug, PartialEq, Eq)]
pub struct Snapshot {
    pub meta: SnapshotMeta,
    pub snapshot: Vec<u8>,
}

/// The abstract value of a snapshot.
pub struct SnapshotView {
    pub meta: SnapshotMetaView,
    pub data: Seq<u8>,
}

impl View for Snapshot {
    type V = SnapshotView;

    open spec fn view(&self) -> SnapshotView {
        SnapshotView { meta: self.meta@, data: self.snapshot@ }
    }
}

/// Why the state-machine store failed.
#[derive(Debug, PartialEq, Eq)]
pub enum StorageError {
    /// Applying the entry with this log id failed, for the given reason.
    Apply { log_id: LogId, reason: String },
    /// Reading the snapshot with this signature failed, for the given reason.
    ReadSnapshot { signature: SnapshotSignature, reason: String },
    /// Serializing the application state into a snapshot failed.
    BuildSnapshot { reason: String },
}

/// The replication request, as the engine sees it.
#[derive(Debug, PartialEq, Eq)]
pub struct AppendEntriesRequest {
    pub vote: pb::Vote,
    pub prev_log_id: Option<LogId>,
    pub entries: Vec<pb::Entry>,
    pub leader_commit: Option<LogId>,
}

/// The answer to a replication request, as the engine sees it.
#[derive(Debug, Clone, Copy, PartialEq, Eq)]
pub enum AppendEntriesResponse {
    /// All entries were appended.
    Success,
    /// Entries up to the given log id were appended.
    PartialSuccess(Option<LogId>),
    /// The follower's log does not match at the previous log id.
    Conflict,
    /// The follower has seen a higher vote.
    HigherVote(pb::Vote),
}

/// A vote request, as the engine sees it.
#[derive(Debug, Clone, Copy, PartialEq, Eq)]
pub struct VoteRequest {
    pub vote: pb::Vote,
    pub last_log_id: Option<LogId>,
}

/// The answer to a vote request, as the engine sees it.
#[derive(Debug, Clone, Copy, PartialEq, Eq)]
pub struct VoteResponse {
    pub vote: pb::Vote,
    pub vote_granted: bool,
    pub last_log_id: Option<LogId>,
}

impl VoteResponse {
    /// A vote response from its vote, the responder's last log id and whether the vote
    /// was granted.
    pub fn new(vote: pb::Vote, last_log_id: Option<LogId>, vote_granted: bool) -> (r: Self)
        ensures
            r == (VoteResponse { vote, vote_granted, last_log_id }),
    {
        VoteResponse { vote, vote_granted, last_log_id }
    }
}

/// The engine's answer to a client write: the log id the write was stored at, the
/// application's response, and the new membership when the write changed it.
#[derive(Debug, PartialEq, Eq)]
pub struct ClientWriteResponse {
    pub log_id: LogId,
    pub data: bool,
    pub membership: Option<Membership>,
}

} // verus!
