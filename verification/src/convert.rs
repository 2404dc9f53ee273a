//! Conversions between the protobuf messages and the engine's shapes, and the laws
//! that say which of them undo each other.
use vstd::prelude::*;
use vstd::std_specs::convert::FromSpecImpl;
use crate::pb;
use std::collections::{BTreeMap, BTreeSet};
use crate::types::{
    AppendEntriesRequest, AppendEntriesResponse, ClientWriteResponse, LogId, Membership,
    VoteRequest, VoteResponse,
};

verus! {

broadcast use vstd::std_specs::btree::group_btree_axioms, vstd::laws_cmp::group_laws_cmp;

// ----- log ids -----

/// The wire form of a log id: the committed leader id is the term.
pub open spec fn log_id_to_pb(l: LogId) -> pb::LogId {
    pb::LogId { term: l.leader_id, index: l.index }
}

/// The engine form of a wire log id.
pub open spec fn log_id_from_pb(l: pb::LogId) -> LogId {
    LogId { leader_id: l.term, index: l.index }
}

/// `log_id_to_pb` lifted to an optional log id.
pub open spec fn opt_log_id_to_pb(l: Option<LogId>) -> Option<pb::LogId> {
    match l {
        Some(l) => Some(log_id_to_pb(l)),
        None => None,
    }
}

/// `log_id_from_pb` lifted to an optional log id.
pub open spec fn opt_log_id_from_pb(l: Option<pb::LogId>) -> Option<LogId> {
    match l {
        Some(l) => Some(log_id_from_pb(l)),
        None => None,
    }
}

impl From<LogId> for pb::LogId {
    fn from(log_id: LogId) -> (r: Self) {
        pb::LogId { term: *log_id.committed_leader_id(), index: log_id.index }
    }
}

impl FromSpecImpl<LogId> for pb::LogId {
    open spec fn obeys_from_spec() -> bool {
        true
    }

    open spec fn from_spec(v: LogId) -> pb::LogId {
        log_id_to_pb(v)
    }
}

impl From<pb::LogId> for LogId {
    fn from(log_id: pb::LogId) -> (r: Self) {
        LogId { leader_id: log_id.term, index: log_id.index }
    }
}

impl FromSpecImpl<pb::LogId> for LogId {
    open spec fn obeys_from_spec() -> bool {
        true
    }

    open spec fn from_spec(v: pb::LogId) -> LogId {
        log_id_from_pb(v)
    }
}

fn opt_to_pb(l: Option<LogId>) -> (r: Option<pb::LogId>)
    ensures
        r == opt_log_id_to_pb(l),
{
    match l {
        Some(l) => Some(l.into()),
        None => None,
    }
}

fn opt_from_pb(l: Option<pb::LogId>) -> (r: Option<LogId>)
    ensures
        r == opt_log_id_from_pb(l),
{
    match l {
        Some(l) => Some(l.into()),
        None => None,
    }
}

/// A log id survives a trip to the wire and back, and a wire log id survives a trip
/// to the engine and back.
pub proof fn law_log_id_round_trip(l: LogId, p: pb::LogId)
    ensures
        log_id_from_pb(log_id_to_pb(l)) == l,
        log_id_to_pb(log_id_from_pb(p)) == p,
        opt_log_id_from_pb(opt_log_id_to_pb(Some(l))) == Some(l),
        opt_log_id_to_pb(opt_log_id_from_pb(Some(p))) == Some(p),
{
}

/// The wire term of a log id is its committed leader id and the wire index is its index,
/// and a wire log id reads back the same way; an absent log id stays absent both ways.
pub proof fn law_log_id_fields(l: LogId, p: pb::LogId, ol: Option<LogId>, op: Option<pb::LogId>)
    ensures
        log_id_to_pb(l) == (pb::LogId { term: l.leader_id, index: l.index }),
        log_id_from_pb(p) == (LogId { leader_id: p.term, index: p.index }),
        opt_log_id_to_pb(ol) is Some <==> ol is Some,
        ol matches Some(x) ==> opt_log_id_to_pb(ol) == Some(pb::LogId { term: x.leader_id, index: x.index }),
        opt_log_id_from_pb(op) is Some <==> op is Some,
        op matches Some(x) ==> opt_log_id_from_pb(op) == Some(LogId { leader_id: x.term, index: x.index }),
{
}

// ----- replication responses -----

/// The engine's reading of a wire replication response: a rejecting vote wins, then a
/// conflict, then a last log id (partial success); with none of them, success.
pub open spec fn append_response_from_pb(r: pb::AppendEntriesResponse) -> AppendEntriesResponse {
    if let Some(higher) = r.rejected_by {
        AppendEntriesResponse::HigherVote(higher)
    } else if r.conflict {
        AppendEntriesResponse::Conflict
    } else if let Some(l) = r.last_log_id {
        AppendEntriesResponse::PartialSuccess(Some(log_id_from_pb(l)))
    } else {
        AppendEntriesResponse::Success
    }
}

/// The wire form of an engine replication response.
pub open spec fn append_response_to_pb(r: AppendEntriesResponse) -> pb::AppendEntriesResponse {
    match r {
        AppendEntriesResponse::Success => pb::AppendEntriesResponse {
            rejected_by: None,
            conflict: false,
            last_log_id: None,
        },
        AppendEntriesResponse::PartialSuccess(l) => pb::AppendEntriesResponse {
            rejected_by: None,
            conflict: false,
            last_log_id: opt_log_id_to_pb(l),
        },
        AppendEntriesResponse::Conflict => pb::AppendEntriesResponse {
            rejected_by: None,
            conflict: true,
            last_log_id: None,
        },
        AppendEntriesResponse::HigherVote(v) => pb::AppendEntriesResponse {
            rejected_by: Some(v),
            conflict: false,
            last_log_id: None,
        },
    }
}

impl From<pb::AppendEntriesResponse> for AppendEntriesResponse {
    fn from(resp: pb::AppendEntriesResponse) -> (r: Self) {
        if let Some(higher) = resp.rejected_by {
            return AppendEntriesResponse::HigherVote(higher);
        }
        if resp.conflict {
            return AppendEntriesResponse::Conflict;
        }
        if let Some(log_id) = resp.last_log_id {
            AppendEntriesResponse::PartialSuccess(Some(log_id.into()))
        } else {
            AppendEntriesResponse::Success
        }
    }
}

impl FromSpecImpl<pb::AppendEntriesResponse> for AppendEntriesResponse {
    open spec fn obeys_from_spec() -> bool {
        true
    }

    open spec fn from_spec(v: pb::AppendEntriesResponse) -> AppendEntriesResponse {
        append_response_from_pb(v)
    }
}

impl From<AppendEntriesResponse> for pb::AppendEntriesResponse {
    fn from(resp: AppendEntriesResponse) -> (r: Self) {
        match resp {
            AppendEntriesResponse::Success => pb::AppendEntriesResponse {
                rejected_by: None,
                conflict: false,
                last_log_id: None,
            },
            AppendEntriesResponse::PartialSuccess(log_id) => pb::AppendEntriesResponse {
                rejected_by: None,
                conflict: false,
                last_log_id: opt_to_pb(log_id),
            },
            AppendEntriesResponse::Conflict => pb::AppendEntriesResponse {
                rejected_by: None,
                conflict: true,
                last_log_id: None,
            },
            AppendEntriesResponse::HigherVote(vote) => pb::AppendEntriesResponse {
                rejected_by: Some(vote),
                conflict: false,
                last_log_id: None,
            },
        }
    }
}

impl FromSpecImpl<AppendEntriesResponse> for pb::AppendEntriesResponse {
    open spec fn obeys_from_spec() -> bool {
        true
    }

    open spec fn from_spec(v: AppendEntriesResponse) -> pb::AppendEntriesResponse {
        append_response_to_pb(v)
    }
}

/// A wire replication response says at most one thing: it carries a rejecting vote, or
/// a conflict, or a last log id, or none of them.
pub open spec fn append_response_canonical(r: pb::AppendEntriesResponse) -> bool {
    &&& r.rejected_by is Some ==> !r.conflict && r.last_log_id is None
    &&& r.conflict ==> r.last_log_id is None
}

/// Every engine replication response survives a trip to the wire and back, except a
/// partial success with no log id, which comes back as a plain success.
pub proof fn law_append_response_engine_round_trip(r: AppendEntriesResponse)
    ensures
        r != AppendEntriesResponse::PartialSuccess(None)
            ==> append_response_from_pb(append_response_to_pb(r)) == r,
        append_response_from_pb(append_response_to_pb(AppendEntriesResponse::PartialSuccess(None)))
            == AppendEntriesResponse::Success,
{
    if let AppendEntriesResponse::PartialSuccess(Some(l)) = r {
        law_log_id_round_trip(l, log_id_to_pb(l));
    }
}

/// A wire replication response survives a trip to the engine and back exactly when it
/// is canonical, and what the engine makes of it is always canonical on the wire.
pub proof fn law_append_response_wire_round_trip(r: pb::AppendEntriesResponse)
    ensures
        append_response_to_pb(append_response_from_pb(r)) == r <==> append_response_canonical(r),
        append_response_canonical(append_response_to_pb(append_response_from_pb(r))),
{
    if let Some(l) = r.last_log_id {
        law_log_id_round_trip(log_id_from_pb(l), l);
    }
}

/// What each replication response says on the wire: only a rejection carries the higher
/// vote, only a conflict sets the conflict flag, and only a partial success carries a last
/// log id, its own. Read from the wire, a rejecting vote wins, then the conflict flag, then
/// a last log id; a message with none of them is a success.
pub proof fn law_append_response_fields(r: AppendEntriesResponse, p: pb::AppendEntriesResponse)
    ensures
        append_response_to_pb(r).rejected_by is Some <==> r is HigherVote,
        r matches AppendEntriesResponse::HigherVote(v) ==> append_response_to_pb(r).rejected_by == Some(v),
        append_response_to_pb(r).conflict <==> r is Conflict,
        r matches AppendEntriesResponse::PartialSuccess(l) ==> append_response_to_pb(r).last_log_id
            == opt_log_id_to_pb(l),
        !(r is PartialSuccess) ==> append_response_to_pb(r).last_log_id is None,
        p.rejected_by matches Some(v) ==> append_response_from_pb(p) == AppendEntriesResponse::HigherVote(v),
        p.rejected_by is None && p.conflict ==> append_response_from_pb(p) == AppendEntriesResponse::Conflict,
        p.last_log_id matches Some(l) ==> (p.rejected_by is None && !p.conflict
            ==> append_response_from_pb(p) == AppendEntriesResponse::PartialSuccess(Some(log_id_from_pb(l)))),
        p.rejected_by is None && !p.conflict && p.last_log_id is None
            ==> append_response_from_pb(p) == AppendEntriesResponse::Success,
{
}

// ----- replication requests -----

impl From<AppendEntriesRequest> for pb::AppendEntriesRequest {
    fn from(req: AppendEntriesRequest) -> (r: Self) {
        pb::AppendEntriesRequest {
            vote: Some(req.vote),
            prev_log_id: opt_to_pb(req.prev_log_id),
            entries: req.entries,
            leader_commit: opt_to_pb(req.leader_commit),
        }
    }
}

impl FromSpecImpl<AppendEntriesRequest> for pb::AppendEntriesRequest {
    open spec fn obeys_from_spec() -> bool {
        true
    }

    open spec fn from_spec(req: AppendEntriesRequest) -> pb::AppendEntriesRequest {
        append_request_to_pb(req)
    }
}

/// The wire form of a replication request.
pub open spec fn append_request_to_pb(req: AppendEntriesRequest) -> pb::AppendEntriesRequest {
    pb::AppendEntriesRequest {
        vote: Some(req.vote),
        prev_log_id: opt_log_id_to_pb(req.prev_log_id),
        entries: req.entries,
        leader_commit: opt_log_id_to_pb(req.leader_commit),
    }
}

/// The engine's reading of a wire replication request, which must carry a vote.
pub open spec fn append_request_from_pb(req: pb::AppendEntriesRequest) -> AppendEntriesRequest
    recommends
        req.vote is Some,
{
    AppendEntriesRequest {
        vote: req.vote.unwrap(),
        prev_log_id: opt_log_id_from_pb(req.prev_log_id),
        entries: req.entries,
        leader_commit: opt_log_id_from_pb(req.leader_commit),
    }
}

impl pb::AppendEntriesRequest {
    /// The engine's reading of this request; a request without a vote is malformed.
    pub fn into_engine(self) -> (r: AppendEntriesRequest)
        requires
            self.vote is Some,
        ensures
            r == append_request_from_pb(self),
    {
        AppendEntriesRequest {
            vote: self.vote.unwrap(),
            prev_log_id: opt_from_pb(self.prev_log_id),
            entries: self.entries,
            leader_commit: opt_from_pb(self.leader_commit),
        }
    }
}

/// A replication request survives a trip to the wire and back, and a wire request that
/// carries a vote survives a trip to the engine and back.
pub proof fn law_append_request_round_trip(req: AppendEntriesRequest, p: pb::AppendEntriesRequest)
    ensures
        append_request_from_pb(append_request_to_pb(req)) == req,
        p.vote is Some ==> append_request_to_pb(append_request_from_pb(p)) == p,
{
    match req.prev_log_id { Some(l) => law_log_id_round_trip(l, log_id_to_pb(l)), None => {} }
    match req.leader_commit { Some(l) => law_log_id_round_trip(l, log_id_to_pb(l)), None => {} }
    match p.prev_log_id { Some(l) => law_log_id_round_trip(log_id_from_pb(l), l), None => {} }
    match p.leader_commit { Some(l) => law_log_id_round_trip(log_id_from_pb(l), l), None => {} }
}

/// A replication request keeps each field in its place across the conversion, both ways:
/// the vote, the previous log id, the entries and the leader's commit.
pub proof fn law_append_request_fields(req: AppendEntriesRequest, p: pb::AppendEntriesRequest)
    ensures
        append_request_to_pb(req).vote == Some(req.vote),
        append_request_to_pb(req).prev_log_id == opt_log_id_to_pb(req.prev_log_id),
        append_request_to_pb(req).entries@ == req.entries@,
        append_request_to_pb(req).leader_commit == opt_log_id_to_pb(req.leader_commit),
        p.vote is Some ==> append_request_from_pb(p).vote == p.vote.unwrap(),
        append_request_from_pb(p).prev_log_id == opt_log_id_from_pb(p.prev_log_id),
        append_request_from_pb(p).entries@ == p.entries@,
        append_request_from_pb(p).leader_commit == opt_log_id_from_pb(p.leader_commit),
{
}

// ----- votes -----

impl From<VoteRequest> for pb::VoteRequest {
    fn from(req: VoteRequest) -> (r: Self) {
        pb::VoteRequest { vote: Some(req.vote), last_log_id: opt_to_pb(req.last_log_id) }
    }
}

impl FromSpecImpl<VoteRequest> for pb::VoteRequest {
    open spec fn obeys_from_spec() -> bool {
        true
    }

    open spec fn from_spec(req: VoteRequest) -> pb::VoteRequest {
        vote_request_to_pb(req)
    }
}

/// The wire form of a vote request.
pub open spec fn vote_request_to_pb(req: VoteRequest) -> pb::VoteRequest {
    pb::VoteRequest { vote: Some(req.vote), last_log_id: opt_log_id_to_pb(req.last_log_id) }
}

/// The engine's reading of a wire vote request, which must carry a vote.
pub open spec fn vote_request_from_pb(req: pb::VoteRequest) -> VoteRequest
    recommends
        req.vote is Some,
{
    VoteRequest { vote: req.vote.unwrap(), last_log_id: opt_log_id_from_pb(req.last_log_id) }
}

impl pb::VoteRequest {
    /// The engine's reading of this request; a request without a vote is malformed.
    pub fn into_engine(self) -> (r: VoteRequest)
        requires
            self.vote is Some,
        ensures
            r == vote_request_from_pb(self),
    {
        VoteRequest { vote: self.vote.unwrap(), last_log_id: opt_from_pb(self.last_log_id) }
    }
}

impl From<VoteResponse> for pb::VoteResponse {
    fn from(resp: VoteResponse) -> (r: Self) {
        pb::VoteResponse {
            vote: Some(resp.vote),
            vote_granted: resp.vote_granted,
            last_log_id: opt_to_pb(resp.last_log_id),
        }
    }
}

impl FromSpecImpl<VoteResponse> for pb::VoteResponse {
    open spec fn obeys_from_spec() -> bool {
        true
    }

    open spec fn from_spec(resp: VoteResponse) -> pb::VoteResponse {
        vote_response_to_pb(resp)
    }
}

/// The wire form of a vote response.
pub open spec fn vote_response_to_pb(resp: VoteResponse) -> pb::VoteResponse {
    pb::VoteResponse {
        vote: Some(resp.vote),
        vote_granted: resp.vote_granted,
        last_log_id: opt_log_id_to_pb(resp.last_log_id),
    }
}

/// The engine's reading of a wire vote response, which must carry a vote.
pub open spec fn vote_response_from_pb(resp: pb::VoteResponse) -> VoteResponse
    recommends
        resp.vote is Some,
{
    VoteResponse {
        vote: resp.vote.unwrap(),
        vote_granted: resp.vote_granted,
        last_log_id: opt_log_id_from_pb(resp.last_log_id),
    }
}

impl pb::VoteResponse {
    /// The engine's reading of this response; a response without a vote is malformed.
    pub fn into_engine(self) -> (r: VoteResponse)
        requires
            self.vote is Some,
        ensures
            r == vote_response_from_pb(self),
    {
        VoteResponse::new(self.vote.unwrap(), opt_from_pb(self.last_log_id), self.vote_granted)
    }
}

/// Vote requests and responses survive a trip to the wire and back, and wire ones that
/// carry a vote survive a trip to the engine and back.
pub proof fn law_vote_round_trip(
    req: VoteRequest,
    preq: pb::VoteRequest,
    resp: VoteResponse,
    presp: pb::VoteResponse,
)
    ensures
        vote_request_from_pb(vote_request_to_pb(req)) == req,
        preq.vote is Some ==> vote_request_to_pb(vote_request_from_pb(preq)) == preq,
        vote_response_from_pb(vote_response_to_pb(resp)) == resp,
        presp.vote is Some ==> vote_response_to_pb(vote_response_from_pb(presp)) == presp,
{
    match req.last_log_id { Some(l) => law_log_id_round_trip(l, log_id_to_pb(l)), None => {} }
    match preq.last_log_id { Some(l) => law_log_id_round_trip(log_id_from_pb(l), l), None => {} }
    match resp.last_log_id { Some(l) => law_log_id_round_trip(l, log_id_to_pb(l)), None => {} }
    match presp.last_log_id { Some(l) => law_log_id_round_trip(log_id_from_pb(l), l), None => {} }
}

/// Vote requests and responses keep each field in its place across the conversion, both
/// ways: the vote, the last log id, and whether the vote was granted.
pub proof fn law_vote_fields(
    req: VoteRequest,
    preq: pb::VoteRequest,
    resp: VoteResponse,
    presp: pb::VoteResponse,
)
    ensures
        vote_request_to_pb(req).vote == Some(req.vote),
        vote_request_to_pb(req).last_log_id == opt_log_id_to_pb(req.last_log_id),
        preq.vote is Some ==> vote_request_from_pb(preq).vote == preq.vote.unwrap(),
        vote_request_from_pb(preq).last_log_id == opt_log_id_from_pb(preq.last_log_id),
        vote_response_to_pb(resp).vote == Some(resp.vote),
        vote_response_to_pb(resp).vote_granted == resp.vote_granted,
        vote_response_to_pb(resp).last_log_id == opt_log_id_to_pb(resp.last_log_id),
        presp.vote is Some ==> vote_response_from_pb(presp).vote == presp.vote.unwrap(),
        vote_response_from_pb(presp).vote_granted == presp.vote_granted,
        vote_response_from_pb(presp).last_log_id == opt_log_id_from_pb(presp.last_log_id),
{
}

// ----- memberships -----

/// The node ids of a set, as the keys of a map.
fn ids_to_keys(s: &BTreeSet<u64>) -> (r: BTreeMap<u64, ()>)
    ensures
        r@.dom() == s@,
{
    let mut r: BTreeMap<u64, ()> = BTreeMap::new();
    for id in it: s.iter()
        invariant
            it.seq().unref().to_set() == s@,
            r@.dom() == it.seq().take(it.index()).unref().to_set(),
            it.index() == it.seq().len() ==> r@.dom() == s@,
    {
        let ghost k = it.index();
        assert(id == it.seq()[k]);
        r.insert(*id, ());
        assert(it.seq().take(k + 1).unref() =~= it.seq().take(k).unref().push(*id));
        proof {
            it.seq().take(k).unref().lemma_push_to_set_commute(*id);
        }
        assert(r@.dom() =~= it.seq().take(k + 1).unref().to_set());
        assert(k + 1 == it.seq().len() ==> it.seq().take(k + 1) =~= it.seq());
    }
    r
}

/// The keys of a map, as a set of node ids.
fn keys_to_ids(m: &BTreeMap<u64, ()>) -> (r: BTreeSet<u64>)
    ensures
        r@ == m@.dom(),
{
    let mut r: BTreeSet<u64> = BTreeSet::new();
    for id in it: m.keys()
        invariant
            it.seq().unref().to_set() == m@.dom(),
            r@ == it.seq().take(it.index()).unref().to_set(),
            it.index() == it.seq().len() ==> r@ == m@.dom(),
    {
        let ghost k = it.index();
        assert(id == it.seq()[k]);
        r.insert(*id);
        assert(it.seq().take(k + 1).unref() =~= it.seq().take(k).unref().push(*id));
        proof {
            it.seq().take(k).unref().lemma_push_to_set_commute(*id);
        }
        assert(r@ =~= it.seq().take(k + 1).unref().to_set());
        assert(k + 1 == it.seq().len() ==> it.seq().take(k + 1) =~= it.seq());
    }
    r
}

impl Membership {
    /// The engine's membership read from its wire form: the same voter sets and node map.
    /// The engine accepts only a membership whose voters all have a node entry.
    pub fn from_pb(membership: pb::Membership) -> (r: Membership)
        requires
            membership@.voters_have_nodes(),
        ensures
            r@ == membership@,
    {
        let mut configs: Vec<BTreeSet<u64>> = Vec::new();
        let mut i: usize = 0;
        while i < membership.configs.len()
            invariant
                i <= membership.configs.len(),
                configs@.len() == i,
                forall|k: int| 0 <= k < i ==> #[trigger] configs@[k]@ == membership.configs@[k].node_ids@.dom(),
            decreases membership.configs.len() - i,
        {
            configs.push(keys_to_ids(&membership.configs[i].node_ids));
            i = i + 1;
        }
        let r = Membership { configs, nodes: membership.nodes };
        assert(r@.configs =~= membership@.configs);
        r
    }
}

impl pb::Membership {
    /// Whether the node map holds an entry for `id`.
    pub fn has_node(&self, id: u64) -> (r: bool)
        ensures
            r == self@.has_node(id),
    {
        self.nodes.contains_key(&id)
    }

    /// Whether every voter of every voter set has an entry in the node map, the condition
    /// on which the engine accepts the membership.
    pub fn voters_have_nodes(&self) -> (r: bool)
        ensures
            r == self@.voters_have_nodes(),
    {
        let mut i: usize = 0;
        while i < self.configs.len()
            invariant
                i <= self.configs.len(),
                forall|a: int, id: u64|
                    0 <= a < i && #[trigger] self@.configs[a].contains(id) ==> self@.has_node(id),
            decreases self.configs.len() - i,
        {
            let ids = &self.configs[i].node_ids;
            let ghost set = self@.configs[i as int];
            assert(set == ids@.dom());
            for id in it: ids.keys()
                invariant
                    i < self.configs.len(),
                    set == self@.configs[i as int],
                    it.seq().unref().to_set() == set,
                    forall|a: int, id: u64|
                        0 <= a < i && #[trigger] self@.configs[a].contains(id) ==> self@.has_node(id),
                    forall|id: u64| #[trigger] it.seq().take(it.index()).unref().to_set().contains(id) ==> self@.has_node(id),
                    it.index() == it.seq().len() ==> forall|id: u64| #[trigger] set.contains(id) ==> self@.has_node(id),
            {
                let ghost k = it.index();
                assert(id == it.seq()[k]);
                if !self.has_node(*id) {
                    assert(it.seq().unref()[k] == *id);
                    assert(it.seq().unref().to_set().contains(*id));
                    assert(self@.configs[i as int].contains(*id));
                    return false;
                }
                assert(it.seq().take(k + 1).unref() =~= it.seq().take(k).unref().push(*id));
                proof {
                    it.seq().take(k).unref().lemma_push_to_set_commute(*id);
                }
                assert(k + 1 == it.seq().len() ==> it.seq().take(k + 1) =~= it.seq());
            }
            i = i + 1;
        }
        true
    }

    /// The wire form of an engine membership: the same voter sets and node map.
    pub fn from_engine(membership: Membership) -> (r: pb::Membership)
        ensures
            r@ == membership@,
    {
        let mut configs: Vec<pb::NodeIdSet> = Vec::new();
        let mut i: usize = 0;
        while i < membership.configs.len()
            invariant
                i <= membership.configs.len(),
                configs@.len() == i,
                forall|k: int| 0 <= k < i ==> #[trigger] configs@[k].node_ids@.dom() == membership.configs@[k]@,
            decreases membership.configs.len() - i,
        {
            configs.push(pb::NodeIdSet { node_ids: ids_to_keys(&membership.configs[i]) });
            i = i + 1;
        }
        let r = pb::Membership { configs, nodes: membership.nodes };
        assert(r@.configs =~= membership@.configs);
        r
    }
}

impl pb::ClientWriteResponse {
    /// The wire form of the engine's answer to a client write: its log id and, when the
    /// write changed the membership, the new membership.
    pub fn from_engine(resp: ClientWriteResponse) -> (r: pb::ClientWriteResponse)
        ensures
            r.log_id == Some(log_id_to_pb(resp.log_id)),
            r.membership is Some <==> resp.membership is Some,
            resp.membership is Some ==> r.membership.unwrap()@ == resp.membership.unwrap()@,
    {
        pb::ClientWriteResponse {
            log_id: Some(resp.log_id.into()),
            membership: match resp.membership {
                Some(m) => Some(pb::Membership::from_engine(m)),
                None => None,
            },
        }
    }
}

} // verus!
