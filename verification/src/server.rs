//! The service's configuration, the consensus engine's configuration, and the
//! membership change that adds a voter.
use vstd::prelude::*;
use std::path::PathBuf;
use openraft::{Config, ConfigError, SnapshotPolicy};
use std::collections::BTreeMap;
use crate::pb::Node;

verus! {

broadcast use vstd::std_specs::btree::group_btree_axioms, vstd::laws_cmp::group_laws_cmp;

/// Where a node of the service runs: its id, the address its RPC server listens on, and
/// the directory of its log store.
#[derive(Debug, Clone, PartialEq, Eq)]
pub struct RaftServiceConfig {
    pub node_id: u64,
    pub rpc_url: String,
    pub log_path: PathBuf,
}

#[verifier::external_type_specification]
#[verifier::external_body]
pub struct ExPathBuf(PathBuf);

/// `PathBuf::clone`, which the derived `Clone` of `RaftServiceConfig` calls; nothing is
/// claimed of the copy.
pub assume_specification[ <PathBuf as Clone>::clone ](p: &PathBuf) -> PathBuf;

#[verifier::external_type_specification]
#[verifier::external_body]
pub struct ExConfig(Config);

#[verifier::external_type_specification]
#[verifier::external_body]
pub struct ExConfigError(ConfigError);

/// The interval between heartbeats, in milliseconds.
pub const HEARTBEAT_INTERVAL: u64 = 500;

/// The shortest election timeout, in milliseconds.
pub const ELECTION_TIMEOUT_MIN: u64 = 1500;

/// The longest election timeout, in milliseconds.
pub const ELECTION_TIMEOUT_MAX: u64 = 3000;

/// When the engine builds snapshots on its own.
#[derive(Debug, Clone, Copy, PartialEq, Eq)]
pub enum SnapshotPolicySetting {
    /// Once the log has grown by this many entries since the last snapshot.
    LogsSinceLast(u64),
    /// Never.
    Never,
}

/// Every setting of an engine configuration (times in milliseconds, sizes in bytes).
#[derive(Debug, Clone, PartialEq, Eq)]
pub struct EngineSettings {
    pub cluster_name: String,
    pub election_timeout_min: u64,
    pub election_timeout_max: u64,
    pub heartbeat_interval: u64,
    pub install_snapshot_timeout: u64,
    pub send_snapshot_timeout: u64,
    pub max_payload_entries: u64,
    pub replication_lag_threshold: u64,
    pub snapshot_policy: SnapshotPolicySetting,
    pub snapshot_max_chunk_size: u64,
    pub max_in_snapshot_log_to_keep: u64,
    pub purge_batch_size: u64,
    pub enable_tick: bool,
    pub enable_heartbeat: bool,
    pub enable_elect: bool,
}

/// The abstract value of engine settings: the cluster name as its characters.
pub struct EngineSettingsView {
    pub cluster_name: Seq<char>,
    pub election_timeout_min: u64,
    pub election_timeout_max: u64,
    pub heartbeat_interval: u64,
    pub install_snapshot_timeout: u64,
    pub send_snapshot_timeout: u64,
    pub max_payload_entries: u64,
    pub replication_lag_threshold: u64,
    pub snapshot_policy: SnapshotPolicySetting,
    pub snapshot_max_chunk_size: u64,
    pub max_in_snapshot_log_to_keep: u64,
    pub purge_batch_size: u64,
    pub enable_tick: bool,
    pub enable_heartbeat: bool,
    pub enable_elect: bool,
}

impl View for EngineSettings {
    type V = EngineSettingsView;

    open spec fn view(&self) -> EngineSettingsView {
        EngineSettingsView {
            cluster_name: self.cluster_name@,
            election_timeout_min: self.election_timeout_min,
            election_timeout_max: self.election_timeout_max,
            heartbeat_interval: self.heartbeat_interval,
            install_snapshot_timeout: self.install_snapshot_timeout,
            send_snapshot_timeout: self.send_snapshot_timeout,
            max_payload_entries: self.max_payload_entries,
            replication_lag_threshold: self.replication_lag_threshold,
            snapshot_policy: self.snapshot_policy,
            snapshot_max_chunk_size: self.snapshot_max_chunk_size,
            max_in_snapshot_log_to_keep: self.max_in_snapshot_log_to_keep,
            purge_batch_size: self.purge_batch_size,
            enable_tick: self.enable_tick,
            enable_heartbeat: self.enable_heartbeat,
            enable_elect: self.enable_elect,
        }
    }
}

/// The engine's default configuration (its `Default`, from the default values of its
/// command-line options: cluster "foo", install-snapshot timeout 200, no separate
/// send-snapshot timeout, 300 entries per payload, lag threshold 5000, a snapshot every
/// 5000 entries, 3 MiB chunks, 1000 entries kept after a snapshot, purges of 1, tick,
/// heartbeat and elections on), with the given heartbeat interval and election timeouts.
pub open spec fn engine_settings(heartbeat_interval: u64, election_timeout_min: u64, election_timeout_max: u64) -> EngineSettingsView {
    EngineSettingsView {
        cluster_name: seq!['f', 'o', 'o'],
        election_timeout_min,
        election_timeout_max,
        heartbeat_interval,
        install_snapshot_timeout: 200,
        send_snapshot_timeout: 0,
        max_payload_entries: 300,
        replication_lag_threshold: 5000,
        snapshot_policy: SnapshotPolicySetting::LogsSinceLast(5000),
        snapshot_max_chunk_size: 3145728,
        max_in_snapshot_log_to_keep: 1000,
        purge_batch_size: 1,
        enable_tick: true,
        enable_heartbeat: true,
        enable_elect: true,
    }
}

/// The engine settings keep each given timing in its own field.
pub proof fn law_engine_settings_timings(heartbeat_interval: u64, election_timeout_min: u64, election_timeout_max: u64)
    ensures
        engine_settings(heartbeat_interval, election_timeout_min, election_timeout_max).heartbeat_interval
            == heartbeat_interval,
        engine_settings(heartbeat_interval, election_timeout_min, election_timeout_max).election_timeout_min
            == election_timeout_min,
        engine_settings(heartbeat_interval, election_timeout_min, election_timeout_max).election_timeout_max
            == election_timeout_max,
{
}

/// A validated engine configuration, together with the settings it holds.
pub struct RaftConfig {
    config: Config,
    settings: EngineSettings,
}

impl View for RaftConfig {
    type V = EngineSettingsView;

    closed spec fn view(&self) -> EngineSettingsView {
        self.settings@
    }
}

impl RaftConfig {
    /// The settings the configuration holds.
    pub fn settings(&self) -> (r: &EngineSettings)
        ensures
            r@ == self@,
    {
        &self.settings
    }

    /// The engine configuration itself.
    pub fn into_config(self) -> Config {
        self.config
    }
}

/// `openraft::Config::validate` on the engine's default configuration with the given
/// heartbeat interval and election timeouts. The engine's source accepts it exactly when
/// the shortest election timeout is below the longest one and above the heartbeat
/// interval (the default payload limit, 300 entries, is not zero), and then returns the
/// configuration unchanged: the engine's defaults with the given timings. The settings
/// beside it are read from the returned configuration.
#[verifier::external_body]
#[allow(deprecated)]
fn validated_config(heartbeat_interval: u64, election_timeout_min: u64, election_timeout_max: u64)
    -> (r: Result<RaftConfig, ConfigError>)
    ensures
        r is Ok == (election_timeout_min < election_timeout_max && heartbeat_interval < election_timeout_min),
        r matches Ok(c) ==> c@ == engine_settings(heartbeat_interval, election_timeout_min, election_timeout_max),
{
    let c = (Config { heartbeat_interval, election_timeout_min, election_timeout_max, ..Default::default() }).validate()?;
    let snapshot_policy = match c.snapshot_policy { SnapshotPolicy::LogsSinceLast(n) => SnapshotPolicySetting::LogsSinceLast(n), SnapshotPolicy::Never => SnapshotPolicySetting::Never };
    let settings = EngineSettings { cluster_name: c.cluster_name.clone(), election_timeout_min: c.election_timeout_min, election_timeout_max: c.election_timeout_max,
        heartbeat_interval: c.heartbeat_interval, install_snapshot_timeout: c.install_snapshot_timeout, send_snapshot_timeout: c.send_snapshot_timeout,
        max_payload_entries: c.max_payload_entries, replication_lag_threshold: c.replication_lag_threshold, snapshot_policy,
        snapshot_max_chunk_size: c.snapshot_max_chunk_size, max_in_snapshot_log_to_keep: c.max_in_snapshot_log_to_keep, purge_batch_size: c.purge_batch_size,
        enable_tick: c.enable_tick, enable_heartbeat: c.enable_heartbeat, enable_elect: c.enable_elect };
    Ok(RaftConfig { config: c, settings })
}

/// The engine configuration of every node: heartbeats every 500 ms, election timeouts
/// between 1500 and 3000 ms, the engine's defaults otherwise. It is always valid.
pub fn raft_config() -> (r: Result<RaftConfig, ConfigError>)
    ensures
        r is Ok,
        r matches Ok(c) ==> c@ == engine_settings(HEARTBEAT_INTERVAL, ELECTION_TIMEOUT_MIN, ELECTION_TIMEOUT_MAX),
        r matches Ok(c) ==> {
            &&& c@.heartbeat_interval == 500
            &&& c@.election_timeout_min == 1500
            &&& c@.election_timeout_max == 3000
        },
{
    validated_config(HEARTBEAT_INTERVAL, ELECTION_TIMEOUT_MIN, ELECTION_TIMEOUT_MAX)
}

/// The voters that adding `node` as a voter adds: the node, under its own id.
pub fn voters_to_add(node: Node) -> (r: BTreeMap<u64, Node>)
    ensures
        r@ == Map::<u64, Node>::empty().insert(node.node_id, node),
{
    let mut r: BTreeMap<u64, Node> = BTreeMap::new();
    let node_id = node.node_id;
    r.insert(node_id, node);
    r
}

} // verus!
