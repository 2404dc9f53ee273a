use std::cell::RefCell;
use std::collections::BTreeMap;
use std::rc::Rc;

use raft_service_rs::application::{ApplicationStateMachine, LeaderLifetimeService, LeaderLifetimeServiceBuilder};
use raft_service_rs::lifecycle::{LeaderLifecycle, LeaderLifetimeDriver, LifecycleAction};
use raft_service_rs::pb;
use raft_service_rs::server::{raft_config, voters_to_add, RaftServiceConfig, SnapshotPolicySetting};
use raft_service_rs::store::{make_snapshot_id, StateMachineStore};
use raft_service_rs::types::{LogId, Membership, SnapshotMeta, StorageError, StoredMembership};

/// A key-value application: requests are `key=value`, snapshots are `key=value` lines.
#[derive(Debug, Default, PartialEq)]
struct KeyValue {
    map: BTreeMap<String, String>,
    fail_export: bool,
}

impl ApplicationStateMachine for KeyValue {
    type Response = usize;

    fn export(&self) -> Result<Vec<u8>, String> {
        if self.fail_export {
            return Err("cannot export".to_string());
        }
        let lines: Vec<String> = self.map.iter().map(|(k, v)| format!("{}={}", k, v)).collect();
        Ok(lines.join("\n").into_bytes())
    }

    fn import(snapshot: &[u8]) -> Result<Self, String> {
        let text = std::str::from_utf8(snapshot).map_err(|e| e.to_string())?;
        let mut map = BTreeMap::new();
        for line in text.lines() {
            let (k, v) = line.split_once('=').ok_or_else(|| format!("bad line {:?}", line))?;
            map.insert(k.to_string(), v.to_string());
        }
        Ok(KeyValue { map, fail_export: false })
    }

    fn apply(&mut self, request: &[u8]) -> Result<usize, String> {
        let text = std::str::from_utf8(request).map_err(|e| e.to_string())?;
        let (k, v) = text.split_once('=').ok_or_else(|| "not a key=value request".to_string())?;
        self.map.insert(k.to_string(), v.to_string());
        Ok(self.map.len())
    }
}

fn node(id: u64) -> pb::Node {
    pb::Node { node_id: id, rpc_addr: format!("127.0.0.1:{}", 21000 + id) }
}

fn data_entry(term: u64, index: u64, data: &str) -> pb::Entry {
    pb::Entry { term, index, app_data: Some(data.as_bytes().to_vec()), membership: None }
}

fn membership_entry(term: u64, index: u64, ids: Vec<u64>) -> pb::Entry {
    let nodes = ids.iter().map(|&id| (id, node(id))).collect();
    let node_ids = ids.iter().map(|&id| (id, ())).collect();
    pb::Entry {
        term,
        index,
        app_data: None,
        membership: Some(pb::Membership { configs: vec![pb::NodeIdSet { node_ids }], nodes }),
    }
}

fn blank_entry(term: u64, index: u64) -> pb::Entry {
    pb::Entry { term, index, app_data: None, membership: None }
}

#[test]
fn fresh_store_has_nothing_applied() {
    let store = StateMachineStore::new(KeyValue::default());
    let (last, membership) = store.applied_state();
    assert_eq!(last, None);
    assert_eq!(membership.log_id, None);
    assert!(membership.membership.configs.is_empty());
    assert!(membership.membership.nodes.is_empty());
    assert!(store.get_current_snapshot().is_none());
    assert!(store.begin_receiving_snapshot().is_empty());
}

#[test]
fn apply_entries_updates_bookkeeping_and_application() {
    let mut store = StateMachineStore::new(KeyValue::default());
    assert_eq!(store.apply_entry(blank_entry(1, 1)), Ok(None));
    assert_eq!(store.applied_state().0, Some(LogId { leader_id: 1, index: 1 }));

    assert_eq!(store.apply_entry(membership_entry(1, 2, vec![1, 2])), Ok(None));
    let (last, membership) = store.applied_state();
    assert_eq!(last, Some(LogId { leader_id: 1, index: 2 }));
    assert_eq!(membership.log_id, Some(LogId { leader_id: 1, index: 2 }));
    assert_eq!(membership.membership.configs, vec![std::collections::BTreeSet::from([1, 2])]);

    assert_eq!(store.apply_entry(data_entry(2, 3, "a=1")), Ok(Some(1)));
    assert_eq!(store.apply_entry(data_entry(2, 4, "b=2")), Ok(Some(2)));
    assert_eq!(store.apply_entry(data_entry(2, 5, "a=3")), Ok(Some(2)));
    let (last, membership) = store.applied_state();
    assert_eq!(last, Some(LogId { leader_id: 2, index: 5 }));
    assert_eq!(membership.log_id, Some(LogId { leader_id: 1, index: 2 }));
    assert_eq!(store.application_data().map.get("a").map(String::as_str), Some("3"));
}

#[test]
fn data_entry_with_membership_is_applied_as_data() {
    let mut store = StateMachineStore::new(KeyValue::default());
    let mut e = membership_entry(1, 1, vec![1]);
    e.app_data = Some(b"k=v".to_vec());
    assert_eq!(store.apply_entry(e), Ok(Some(1)));
    let (_, membership) = store.applied_state();
    assert_eq!(membership.log_id, None);
}

#[test]
fn failing_apply_reports_the_entry() {
    let mut store = StateMachineStore::new(KeyValue::default());
    let r = store.apply_entry(data_entry(3, 8, "garbage"));
    match r {
        Err(StorageError::Apply { log_id, reason }) => {
            assert_eq!(log_id, LogId { leader_id: 3, index: 8 });
            assert_eq!(reason, "not a key=value request");
        },
        other => panic!("unexpected {:?}", other),
    }
    assert_eq!(store.applied_state().0, Some(LogId { leader_id: 3, index: 8 }));
}

#[test]
fn snapshot_ids() {
    assert_eq!(make_snapshot_id(None, 1), "--1");
    assert_eq!(make_snapshot_id(Some(LogId { leader_id: 3, index: 17 }), 2), "3-17-2");
}

#[test]
fn build_snapshot_then_read_it_back() {
    let mut store = StateMachineStore::new(KeyValue::default());
    let first = store.build_snapshot().unwrap();
    assert_eq!(first.meta.snapshot_id, "--1");
    assert_eq!(first.meta.last_log_id, None);

    store.apply_entry(membership_entry(1, 1, vec![1])).unwrap();
    store.apply_entry(data_entry(1, 2, "x=y")).unwrap();
    let second = store.build_snapshot().unwrap();
    assert_eq!(second.meta.snapshot_id, "1-2-2");
    assert_eq!(second.meta.last_log_id, Some(LogId { leader_id: 1, index: 2 }));
    assert_eq!(second.meta.last_membership.log_id, Some(LogId { leader_id: 1, index: 1 }));
    assert_eq!(second.snapshot, b"x=y".to_vec());
    assert_eq!(store.get_current_snapshot(), Some(second));
}

#[test]
fn build_snapshot_failure_changes_nothing() {
    let mut store = StateMachineStore::new(KeyValue { map: BTreeMap::new(), fail_export: true });
    assert_eq!(store.build_snapshot(), Err(StorageError::BuildSnapshot { reason: "cannot export".to_string() }));
    assert!(store.get_current_snapshot().is_none());
}

#[test]
fn install_snapshot_then_read_it_back() {
    let mut store = StateMachineStore::new(KeyValue::default());
    store.apply_entry(data_entry(1, 1, "old=1")).unwrap();
    let meta = SnapshotMeta {
        last_log_id: Some(LogId { leader_id: 4, index: 20 }),
        last_membership: StoredMembership::new(
            Some(LogId { leader_id: 3, index: 10 }),
            Membership {
                configs: vec![std::collections::BTreeSet::from([1, 2, 3])],
                nodes: (1..=3).map(|id| (id, node(id))).collect(),
            },
        ),
        snapshot_id: "4-20-7".to_string(),
    };
    store.install_snapshot(&meta, b"a=1\nb=2".to_vec()).unwrap();
    let (last, membership) = store.applied_state();
    assert_eq!(last, Some(LogId { leader_id: 4, index: 20 }));
    assert_eq!(membership, meta.last_membership);
    assert_eq!(store.application_data().map.len(), 2);
    assert_eq!(store.application_data().map.get("old"), None);
    let current = store.get_current_snapshot().unwrap();
    assert_eq!(current.meta, meta);
    assert_eq!(current.snapshot, b"a=1\nb=2".to_vec());
    // The build counter is untouched by an install.
    assert_eq!(store.build_snapshot().unwrap().meta.snapshot_id, "4-20-1");
}

#[test]
fn install_unreadable_snapshot_changes_nothing() {
    let mut store = StateMachineStore::new(KeyValue::default());
    store.apply_entry(data_entry(1, 1, "k=v")).unwrap();
    let meta = SnapshotMeta {
        last_log_id: Some(LogId { leader_id: 9, index: 9 }),
        last_membership: StoredMembership::new(None, Membership { configs: vec![], nodes: BTreeMap::new() }),
        snapshot_id: "9-9-1".to_string(),
    };
    match store.install_snapshot(&meta, b"no equals sign".to_vec()) {
        Err(StorageError::ReadSnapshot { signature, .. }) => {
            assert_eq!(signature.last_log_id, meta.last_log_id);
            assert_eq!(signature.last_membership_log_id, None);
            assert_eq!(signature.snapshot_id, "9-9-1");
        },
        other => panic!("unexpected {:?}", other),
    }
    assert_eq!(store.applied_state().0, Some(LogId { leader_id: 1, index: 1 }));
    assert!(store.get_current_snapshot().is_none());
    assert_eq!(store.application_data().map.get("k").map(String::as_str), Some("v"));
}

#[test]
fn lifecycle_starts_and_stops_with_leadership() {
    let mut l = LeaderLifecycle::new();
    assert!(!l.is_leading());
    let events = [false, true, true, false, false, true];
    let mut actions = vec![];
    for e in events {
        let a = l.on_metrics(e);
        assert_eq!(l.is_leading(), e);
        if a != LifecycleAction::Nothing {
            actions.push(a);
        }
    }
    actions.push(l.on_shutdown());
    assert!(!l.is_leading());
    assert_eq!(
        actions,
        vec![LifecycleAction::Start, LifecycleAction::Stop, LifecycleAction::Start, LifecycleAction::Stop]
    );
    assert_eq!(l.on_shutdown(), LifecycleAction::Nothing);
}

struct Recorder {
    log: Rc<RefCell<Vec<String>>>,
    fail_build: bool,
}

struct Service {
    id: usize,
    log: Rc<RefCell<Vec<String>>>,
}

impl LeaderLifetimeService for Service {
    fn start(&self) -> Result<(), String> {
        self.log.borrow_mut().push(format!("start {}", self.id));
        Ok(())
    }

    fn stop(&self) -> Result<(), String> {
        self.log.borrow_mut().push(format!("stop {}", self.id));
        Ok(())
    }
}

impl LeaderLifetimeServiceBuilder for Recorder {
    type Service = Service;

    fn build(&self) -> Result<Service, String> {
        if self.fail_build {
            return Err("no service".to_string());
        }
        let id = self.log.borrow().len();
        Ok(Service { id, log: self.log.clone() })
    }
}

#[test]
fn driver_runs_one_service_per_leadership() {
    let log = Rc::new(RefCell::new(vec![]));
    let mut d = LeaderLifetimeDriver::new(Recorder { log: log.clone(), fail_build: false });
    assert_eq!(d.on_metrics(true), Ok(LifecycleAction::Start));
    assert!(d.running());
    assert_eq!(d.on_metrics(true), Ok(LifecycleAction::Nothing));
    assert_eq!(d.on_metrics(false), Ok(LifecycleAction::Stop));
    assert!(!d.running());
    assert_eq!(d.on_metrics(true), Ok(LifecycleAction::Start));
    assert_eq!(d.shutdown(), Ok(LifecycleAction::Stop));
    assert_eq!(d.shutdown(), Ok(LifecycleAction::Nothing));
    assert_eq!(*log.borrow(), vec!["start 0", "stop 0", "start 2", "stop 2"]);
}

#[test]
fn driver_build_failure_leaves_nothing_running() {
    let log = Rc::new(RefCell::new(vec![]));
    let mut d = LeaderLifetimeDriver::new(Recorder { log: log.clone(), fail_build: true });
    assert_eq!(d.on_metrics(true), Err("no service".to_string()));
    assert!(!d.running());
    assert!(log.borrow().is_empty());
}

#[test]
fn engine_config_is_valid() {
    assert!(raft_config().is_ok());
    let config = raft_config().unwrap();
    let s = config.settings().clone();
    assert_eq!(s.heartbeat_interval, 500);
    assert_eq!(s.election_timeout_min, 1500);
    assert_eq!(s.election_timeout_max, 3000);
    assert_eq!(s.cluster_name, "foo");
    assert_eq!(s.install_snapshot_timeout, 200);
    assert_eq!(s.send_snapshot_timeout, 0);
    assert_eq!(s.max_payload_entries, 300);
    assert_eq!(s.replication_lag_threshold, 5000);
    assert_eq!(s.snapshot_policy, SnapshotPolicySetting::LogsSinceLast(5000));
    assert_eq!(s.snapshot_max_chunk_size, 3 * 1024 * 1024);
    assert_eq!(s.max_in_snapshot_log_to_keep, 1000);
    assert_eq!(s.purge_batch_size, 1);
    assert!(s.enable_tick && s.enable_heartbeat && s.enable_elect);
    // The settings are those of the engine's own defaults, but for the timings.
    let d = openraft::Config::default();
    assert_eq!(s.cluster_name, d.cluster_name);
    assert_eq!(s.install_snapshot_timeout, d.install_snapshot_timeout);
    assert_eq!(s.max_payload_entries, d.max_payload_entries);
    assert_eq!(s.replication_lag_threshold, d.replication_lag_threshold);
    assert_eq!(s.snapshot_max_chunk_size, d.snapshot_max_chunk_size);
    assert_eq!(s.max_in_snapshot_log_to_keep, d.max_in_snapshot_log_to_keep);
    assert_eq!(s.purge_batch_size, d.purge_batch_size);
    assert_eq!(d.snapshot_policy, openraft::SnapshotPolicy::LogsSinceLast(5000));
    let c = raft_config().unwrap().into_config();
    assert_eq!(c.heartbeat_interval, 500);
    assert_eq!(c.election_timeout_min, 1500);
    assert_eq!(c.election_timeout_max, 3000);
}

#[test]
fn adding_a_voter_names_it_by_its_id() {
    let v = voters_to_add(node(3));
    assert_eq!(v, BTreeMap::from([(3, node(3))]));
}

#[test]
fn service_config_holds_its_fields() {
    let c = RaftServiceConfig { node_id: 1, rpc_url: "127.0.0.1:21001".to_string(), log_path: std::path::PathBuf::from("/tmp/raft-1") };
    let d = c.clone();
    assert_eq!(c, d);
    assert_eq!(d.node_id, 1);
}

#[test]
fn snapshot_transfer_between_replicas() {
    let mut leader = StateMachineStore::new(KeyValue::default());
    leader.apply_entry(membership_entry(1, 1, vec![1, 2])).unwrap();
    leader.apply_entry(data_entry(1, 2, "k=1")).unwrap();
    leader.apply_entry(data_entry(2, 3, "j=2")).unwrap();
    assert_eq!(leader.snapshot_idx(), 0);
    let snapshot = leader.build_snapshot().unwrap();
    assert_eq!(leader.snapshot_idx(), 1);

    let mut follower = StateMachineStore::new(KeyValue::default());
    follower.apply_entry(data_entry(1, 1, "stale=1")).unwrap();
    follower.install_snapshot(&snapshot.meta, snapshot.snapshot.clone()).unwrap();
    assert_eq!(follower.applied_state(), leader.applied_state());
    assert_eq!(follower.application_data(), leader.application_data());
    assert_eq!(follower.get_current_snapshot(), leader.get_current_snapshot());
    assert_eq!(follower.snapshot_idx(), 0);
}

#[test]
fn apply_batch_stops_at_first_failure() {
    let mut store = StateMachineStore::new(KeyValue::default());
    let (responses, outcome) = store.apply_entries(vec![
        blank_entry(1, 1),
        membership_entry(1, 2, vec![1]),
        data_entry(1, 3, "a=1"),
        data_entry(1, 4, "b=2"),
    ]);
    assert_eq!(outcome, Ok(()));
    assert_eq!(responses, vec![None, None, Some(1), Some(2)]);
    assert_eq!(store.applied_state().0, Some(LogId { leader_id: 1, index: 4 }));

    let (responses, outcome) = store.apply_entries(vec![
        data_entry(2, 5, "c=3"),
        data_entry(2, 6, "broken"),
        data_entry(2, 7, "d=4"),
    ]);
    assert_eq!(responses, vec![Some(3)]);
    match outcome {
        Err(StorageError::Apply { log_id, .. }) => assert_eq!(log_id, LogId { leader_id: 2, index: 6 }),
        other => panic!("unexpected {:?}", other),
    }
    assert_eq!(store.applied_state().0, Some(LogId { leader_id: 2, index: 6 }));
    assert_eq!(store.application_data().map.get("d"), None);
    assert_eq!(store.application_data().map.len(), 3);
}

#[test]
fn installing_twice_is_installing_once() {
    let mut store = StateMachineStore::new(KeyValue::default());
    let meta = SnapshotMeta {
        last_log_id: Some(LogId { leader_id: 2, index: 5 }),
        last_membership: StoredMembership::new(None, Membership { configs: vec![], nodes: BTreeMap::new() }),
        snapshot_id: "2-5-1".to_string(),
    };
    store.install_snapshot(&meta, b"x=1".to_vec()).unwrap();
    let once = (store.applied_state(), store.get_current_snapshot(), store.application_data().map.clone());
    store.install_snapshot(&meta, b"x=1".to_vec()).unwrap();
    let twice = (store.applied_state(), store.get_current_snapshot(), store.application_data().map.clone());
    assert_eq!(once, twice);
}
