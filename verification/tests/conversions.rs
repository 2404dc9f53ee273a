use std::collections::{BTreeMap, BTreeSet};

use raft_service_rs::decimal::push_decimal;
use raft_service_rs::pb;
use raft_service_rs::types::{
    AppendEntriesRequest, AppendEntriesResponse, ClientWriteResponse, LogId, Membership, VoteRequest,
    VoteResponse,
};

fn node(id: u64) -> pb::Node {
    pb::Node { node_id: id, rpc_addr: format!("127.0.0.1:{}", 21000 + id) }
}

fn vote(term: u64, node_id: u64, committed: bool) -> pb::Vote {
    pb::Vote { leader_id: Some(pb::LeaderId { term, node_id }), committed }
}

#[test]
fn decimal_formatting() {
    for (n, text) in [(0u64, "0"), (7, "7"), (10, "10"), (1234567, "1234567"), (u64::MAX, "18446744073709551615")] {
        let mut s = String::from("x");
        push_decimal(&mut s, n);
        assert_eq!(s, format!("x{}", text));
    }
}

#[test]
fn leader_id_accessors_and_display() {
    let l = pb::LeaderId::new(4, 2);
    assert_eq!(l, pb::LeaderId { term: 4, node_id: 2 });
    assert_eq!(l.term(), 4);
    assert_eq!(l.node_id(), Some(&2));
    assert_eq!(l.to_committed(), 4);
    assert_eq!(l.to_string(), "T4-N2");
    assert_eq!(pb::LeaderId::new(12, 0).to_string(), "T12-N0");
}

#[test]
fn log_id_round_trip() {
    let l = LogId { leader_id: 3, index: 9 };
    let p: pb::LogId = l.into();
    assert_eq!(p, pb::LogId { term: 3, index: 9 });
    assert_eq!(*l.committed_leader_id(), 3);
    assert_eq!(l.index(), 9);
    let back: LogId = p.into();
    assert_eq!(back, l);
}

#[test]
fn append_response_engine_round_trip() {
    let l = LogId { leader_id: 2, index: 5 };
    let cases = [
        AppendEntriesResponse::Success,
        AppendEntriesResponse::PartialSuccess(Some(l)),
        AppendEntriesResponse::Conflict,
        AppendEntriesResponse::HigherVote(vote(7, 1, true)),
    ];
    for r in cases {
        let p: pb::AppendEntriesResponse = r.into();
        let back: AppendEntriesResponse = p.into();
        assert_eq!(back, r);
    }
    let p: pb::AppendEntriesResponse = AppendEntriesResponse::PartialSuccess(Some(l)).into();
    assert_eq!(p, pb::AppendEntriesResponse { rejected_by: None, conflict: false, last_log_id: Some(pb::LogId { term: 2, index: 5 }) });
    let p: pb::AppendEntriesResponse = AppendEntriesResponse::Conflict.into();
    assert_eq!(p, pb::AppendEntriesResponse { rejected_by: None, conflict: true, last_log_id: None });
}

#[test]
fn append_response_partial_success_without_log_id_reads_back_as_success() {
    let p: pb::AppendEntriesResponse = AppendEntriesResponse::PartialSuccess(None).into();
    assert_eq!(p, pb::AppendEntriesResponse { rejected_by: None, conflict: false, last_log_id: None });
    let back: AppendEntriesResponse = p.into();
    assert_eq!(back, AppendEntriesResponse::Success);
}

#[test]
fn append_response_wire_precedence() {
    let v = vote(3, 2, false);
    let messy = pb::AppendEntriesResponse {
        rejected_by: Some(v),
        conflict: true,
        last_log_id: Some(pb::LogId { term: 1, index: 1 }),
    };
    let r: AppendEntriesResponse = messy.into();
    assert_eq!(r, AppendEntriesResponse::HigherVote(v));
    let p: pb::AppendEntriesResponse = r.into();
    assert_eq!(p, pb::AppendEntriesResponse { rejected_by: Some(v), conflict: false, last_log_id: None });

    let conflict_and_log = pb::AppendEntriesResponse {
        rejected_by: None,
        conflict: true,
        last_log_id: Some(pb::LogId { term: 1, index: 1 }),
    };
    let r: AppendEntriesResponse = conflict_and_log.into();
    assert_eq!(r, AppendEntriesResponse::Conflict);
}

#[test]
fn append_request_round_trip() {
    let entry = pb::Entry { term: 2, index: 3, app_data: Some(vec![1, 2, 3]), membership: None };
    let req = AppendEntriesRequest {
        vote: vote(2, 1, true),
        prev_log_id: Some(LogId { leader_id: 2, index: 2 }),
        entries: vec![entry],
        leader_commit: None,
    };
    let expected_entries = vec![pb::Entry { term: 2, index: 3, app_data: Some(vec![1, 2, 3]), membership: None }];
    let p: pb::AppendEntriesRequest = req.into();
    assert_eq!(p.vote, Some(vote(2, 1, true)));
    assert_eq!(p.prev_log_id, Some(pb::LogId { term: 2, index: 2 }));
    assert_eq!(p.leader_commit, None);
    assert_eq!(p.entries, expected_entries);
    let back = p.into_engine();
    assert_eq!(back.vote, vote(2, 1, true));
    assert_eq!(back.prev_log_id, Some(LogId { leader_id: 2, index: 2 }));
    assert_eq!(back.entries, expected_entries);
    assert_eq!(back.leader_commit, None);
}

#[test]
fn vote_messages_round_trip() {
    let req = VoteRequest { vote: vote(5, 3, false), last_log_id: Some(LogId { leader_id: 4, index: 10 }) };
    let p: pb::VoteRequest = req.into();
    assert_eq!(p, pb::VoteRequest { vote: Some(vote(5, 3, false)), last_log_id: Some(pb::LogId { term: 4, index: 10 }) });
    assert_eq!(p.into_engine(), req);

    let resp = VoteResponse::new(vote(5, 3, true), None, true);
    assert_eq!(resp, VoteResponse { vote: vote(5, 3, true), vote_granted: true, last_log_id: None });
    let p: pb::VoteResponse = resp.into();
    assert_eq!(p, pb::VoteResponse { vote: Some(vote(5, 3, true)), vote_granted: true, last_log_id: None });
    assert_eq!(p.into_engine(), resp);
}

fn id_set(ids: &[u64]) -> pb::NodeIdSet {
    pb::NodeIdSet { node_ids: ids.iter().map(|&id| (id, ())).collect() }
}

fn sample_pb_membership() -> pb::Membership {
    pb::Membership {
        configs: vec![id_set(&[1, 2]), id_set(&[2, 3])],
        nodes: (1..=4).map(|id| (id, node(id))).collect(),
    }
}

#[test]
fn membership_round_trip() {
    let m = Membership::from_pb(sample_pb_membership());
    assert_eq!(m.configs, vec![BTreeSet::from([1, 2]), BTreeSet::from([2, 3])]);
    assert_eq!(m.nodes.len(), 4);
    assert_eq!(m.nodes[&4], node(4));
    let copy = m.clone();
    assert_eq!(copy, m);
    let back = pb::Membership::from_engine(m);
    assert_eq!(back, sample_pb_membership());
}

#[test]
fn client_write_response_to_wire() {
    let resp = ClientWriteResponse {
        log_id: LogId { leader_id: 6, index: 42 },
        data: true,
        membership: Some(Membership::from_pb(sample_pb_membership())),
    };
    let p = pb::ClientWriteResponse::from_engine(resp);
    assert_eq!(p.log_id, Some(pb::LogId { term: 6, index: 42 }));
    assert_eq!(p.membership, Some(sample_pb_membership()));

    let resp = ClientWriteResponse { log_id: LogId { leader_id: 1, index: 1 }, data: false, membership: None };
    let p = pb::ClientWriteResponse::from_engine(resp);
    assert_eq!(p, pb::ClientWriteResponse { log_id: Some(pb::LogId { term: 1, index: 1 }), membership: None });
}

#[test]
fn membership_voters_need_nodes() {
    let m = sample_pb_membership();
    assert!(m.voters_have_nodes());
    assert!(m.has_node(4));
    assert!(!m.has_node(5));
    let missing = pb::Membership {
        configs: vec![id_set(&[1, 5])],
        nodes: BTreeMap::from([(1, node(1))]),
    };
    assert!(!missing.voters_have_nodes());
    let entry = pb::Entry { term: 1, index: 1, app_data: None, membership: Some(missing) };
    assert!(!entry.is_applicable());
    assert_eq!(entry.log_id(), LogId { leader_id: 1, index: 1 });
    let with_data = pb::Entry { app_data: Some(vec![]), ..entry };
    assert!(with_data.is_applicable());
}

#[test]
fn leader_ids_order_by_term_then_node() {
    assert!(pb::LeaderId::new(1, 9) < pb::LeaderId::new(2, 0));
    assert!(pb::LeaderId::new(2, 1) < pb::LeaderId::new(2, 3));
    assert!(!(pb::LeaderId::new(2, 3) < pb::LeaderId::new(2, 3)));
}
