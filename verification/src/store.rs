//! The replicated state-machine store: it applies committed log entries to the
//! application, remembers the last applied log id and the last membership, and
//! builds, installs and serves snapshots.
use vstd::prelude::*;
use crate::application::ApplicationStateMachine;
use crate::decimal::{
    decimal, decimal_value, is_digit, lemma_decimal_dash_free, lemma_decimal_injective,
    lemma_decimal_shape, lemma_decimal_value, lemma_split_dash_field, lemma_split_dash_last,
    push_decimal, split_dash,
};
use crate::pb;
use crate::types::{
    LogId, Membership, Snapshot, SnapshotMeta, SnapshotMetaView, SnapshotView, StorageError,
    StoredMembership, StoredMembershipView,
};

verus! {

/// The log id of an entry: its term is the committed leader id.
pub open spec fn entry_log_id(e: pb::Entry) -> LogId {
    LogId { leader_id: e.term, index: e.index }
}

impl pb::Entry {
    /// Whether the store can apply this entry: a membership entry must name a node for
    /// each of its voters.
    pub fn is_applicable(&self) -> (r: bool)
        ensures
            r == entry_applicable(*self),
    {
        match (&self.app_data, &self.membership) {
            (None, Some(m)) => m.voters_have_nodes(),
            _ => true,
        }
    }

    /// The log id of this entry.
    pub fn log_id(&self) -> (r: LogId)
        ensures
            r == entry_log_id(*self),
            r.leader_id == self.term,
            r.index == self.index,
    {
        LogId { leader_id: self.term, index: self.index }
    }
}

/// The store's bookkeeping, apart from the application state itself: the last applied
/// log id, the last membership, the counter of built snapshots and the current snapshot.
pub struct StoreView {
    pub last_applied: Option<LogId>,
    pub last_membership: StoredMembershipView,
    pub snapshot_idx: u64,
    pub current_snapshot: Option<SnapshotView>,
}

/// The bookkeeping of a fresh store.
pub open spec fn initial_view() -> StoreView {
    StoreView {
        last_applied: None,
        last_membership: StoredMembershipView {
            log_id: None,
            membership: crate::types::MembershipView { configs: Seq::empty(), nodes: Map::empty() },
        },
        snapshot_idx: 0,
        current_snapshot: None,
    }
}

/// A membership entry can be applied only when the engine accepts its membership.
pub open spec fn entry_applicable(e: pb::Entry) -> bool {
    e.app_data is None && e.membership is Some ==> e.membership.unwrap()@.voters_have_nodes()
}

/// The bookkeeping after applying one entry: the entry becomes the last applied one,
/// and a membership entry (one without application data) becomes the last membership.
pub open spec fn apply_step(v: StoreView, e: pb::Entry) -> StoreView {
    let log_id = entry_log_id(e);
    if e.app_data is None && e.membership is Some {
        StoreView {
            last_applied: Some(log_id),
            last_membership: StoredMembershipView {
                log_id: Some(log_id),
                membership: e.membership.unwrap()@,
            },
            ..v
        }
    } else {
        StoreView { last_applied: Some(log_id), ..v }
    }
}

/// The bookkeeping after applying a sequence of entries in order.
pub open spec fn apply_all(v: StoreView, entries: Seq<pb::Entry>) -> StoreView
    decreases entries.len(),
{
    if entries.len() == 0 {
        v
    } else {
        apply_step(apply_all(v, entries.drop_last()), entries.last())
    }
}

/// The id of the snapshot numbered `idx` whose last applied log id is `last`:
/// `{term}-{index}-{idx}`, or `--{idx}` when nothing has been applied.
pub open spec fn snapshot_id(last: Option<LogId>, idx: u64) -> Seq<char> {
    match last {
        Some(l) => decimal(l.leader_id as nat) + seq!['-'] + decimal(l.index as nat) + seq!['-']
            + decimal(idx as nat),
        None => seq!['-', '-'] + decimal(idx as nat),
    }
}

/// The snapshot built from the bookkeeping `v` and the exported application state `data`.
pub open spec fn built_snapshot(v: StoreView, data: Seq<u8>) -> SnapshotView {
    SnapshotView {
        meta: SnapshotMetaView {
            last_log_id: v.last_applied,
            last_membership: v.last_membership,
            snapshot_id: snapshot_id(v.last_applied, (v.snapshot_idx + 1) as u64),
        },
        data,
    }
}

/// The bookkeeping after building a snapshot of the exported state `data`.
pub open spec fn after_build(v: StoreView, data: Seq<u8>) -> StoreView {
    StoreView {
        snapshot_idx: (v.snapshot_idx + 1) as u64,
        current_snapshot: Some(built_snapshot(v, data)),
        ..v
    }
}

/// The bookkeeping after installing the snapshot `meta`, `data`.
pub open spec fn after_install(v: StoreView, meta: SnapshotMetaView, data: Seq<u8>) -> StoreView {
    StoreView {
        last_applied: meta.last_log_id,
        last_membership: meta.last_membership,
        snapshot_idx: v.snapshot_idx,
        current_snapshot: Some(SnapshotView { meta, data }),
    }
}

/// What applying the entry `e` did to the application, which went from `old_app` to
/// `new_app`, given that the store answered `r`: an entry with data was handed to the
/// application's `apply`, whose answer is the store's (its response, or its failure
/// reported against the entry's log id); any other entry leaves the application alone
/// and is answered with no response.
pub open spec fn entry_applied<A: ApplicationStateMachine>(
    old_app: A,
    e: pb::Entry,
    new_app: A,
    r: Result<Option<A::Response>, StorageError>,
) -> bool {
    match e.app_data {
        Some(data) => match r {
            Ok(Some(v)) => A::apply_ensures(old_app, data@, new_app, Ok(v)),
            Err(StorageError::Apply { log_id, reason }) => {
                &&& log_id == entry_log_id(e)
                &&& A::apply_ensures(old_app, data@, new_app, Err(reason@))
            },
            _ => false,
        },
        None => r is Ok && r->Ok_0 is None && new_app == old_app,
    }
}

/// How many entries a batch processed: those with a response, and the failing one.
pub open spec fn applied_count(responses: nat, outcome: Result<(), StorageError>) -> int {
    if outcome is Ok { responses as int } else { responses as int + 1 }
}

/// The application went through the states `apps` while a batch of `entries` was
/// applied, answering `responses` and ending with `outcome`: each entry with a response
/// took the application from one state to the next as `entry_applied` says, and so did
/// the failing entry, if any.
pub open spec fn batch_applied<A: ApplicationStateMachine>(
    apps: Seq<A>,
    entries: Seq<pb::Entry>,
    responses: Seq<Option<A::Response>>,
    outcome: Result<(), StorageError>,
) -> bool {
    let n = responses.len() as int;
    &&& apps.len() == applied_count(responses.len(), outcome) + 1
    &&& applied_count(responses.len(), outcome) <= entries.len()
    &&& forall|i: int| 0 <= i < n ==> entry_applied(apps[i], entries[i], apps[i + 1], Ok(#[trigger] responses[i]))
    &&& outcome matches Err(e) ==> entry_applied(apps[n], entries[n], apps[n + 1], Err(e))
}

/// The state the store guards: the application state and what was last applied to it.
pub struct StateMachineData<A> {
    last_applied_log: Option<LogId>,
    last_membership: StoredMembership,
    application_data: A,
}

/// The snapshot the store currently serves.
struct StoredSnapshot {
    meta: SnapshotMeta,
    data: Vec<u8>,
}

/// The replicated state-machine store over the application state `A`.
pub struct StateMachineStore<A> {
    state_machine: StateMachineData<A>,
    snapshot_idx: u64,
    current_snapshot: Option<StoredSnapshot>,
}

impl<A> View for StateMachineStore<A> {
    type V = StoreView;

    closed spec fn view(&self) -> StoreView {
        StoreView {
            last_applied: self.state_machine.last_applied_log,
            last_membership: self.state_machine.last_membership@,
            snapshot_idx: self.snapshot_idx,
            current_snapshot: match self.current_snapshot {
                Some(s) => Some(SnapshotView { meta: s.meta@, data: s.data@ }),
                None => None,
            },
        }
    }
}

impl<A: ApplicationStateMachine> StateMachineStore<A> {
    /// The application state held by the store.
    pub closed spec fn application(&self) -> A {
        self.state_machine.application_data
    }

    /// A fresh store over the application state `application_data`.
    pub fn new(application_data: A) -> (r: Self)
        ensures
            r@ == initial_view(),
            r.application() == application_data,
    {
        let r = StateMachineStore {
            state_machine: StateMachineData {
                last_applied_log: None,
                last_membership: StoredMembership::empty(),
                application_data,
            },
            snapshot_idx: 0,
            current_snapshot: None,
        };
        assert(r@.last_membership.membership.configs =~= Seq::<Set<u64>>::empty());
        r
    }

    /// The application state, for reading.
    pub fn application_data(&self) -> (r: &A)
        ensures
            *r == self.application(),
    {
        &self.state_machine.application_data
    }

    /// How many snapshots this store has built.
    pub fn snapshot_idx(&self) -> (r: u64)
        ensures
            r == self@.snapshot_idx,
    {
        self.snapshot_idx
    }

    /// The last applied log id and the last membership.
    pub fn applied_state(&self) -> (r: (Option<LogId>, StoredMembership))
        ensures
            r.0 == self@.last_applied,
            r.1@ == self@.last_membership,
    {
        (self.state_machine.last_applied_log, self.state_machine.last_membership.clone())
    }

    /// Applies one committed entry. The entry becomes the last applied one whatever
    /// happens next; application data is handed to the application, whose response is
    /// returned, and whose failure is reported against the entry's log id; a membership
    /// entry becomes the last membership; a blank entry changes nothing more.
    pub fn apply_entry(&mut self, entry: pb::Entry) -> (r: Result<Option<A::Response>, StorageError>)
        requires
            entry_applicable(entry),
        ensures
            final(self)@ == apply_step(old(self)@, entry),
            final(self)@.last_applied == Some(LogId { leader_id: entry.term, index: entry.index }),
            r matches Err(StorageError::Apply { log_id, .. })
                ==> log_id == (LogId { leader_id: entry.term, index: entry.index }),
            entry_applied(old(self).application(), entry, final(self).application(), r),
    {
        let log_id = entry.log_id();
        self.state_machine.last_applied_log = Some(log_id);
        match entry.app_data {
            Some(req) => {
                match self.state_machine.application_data.apply(req.as_slice()) {
                    Ok(response) => Ok(Some(response)),
                    Err(reason) => Err(StorageError::Apply { log_id, reason }),
                }
            },
            None => {
                if let Some(membership) = entry.membership {
                    self.state_machine.last_membership =
                        StoredMembership::new(Some(log_id), Membership::from_pb(membership));
                }
                Ok(None)
            },
        }
    }

    /// Applies committed entries in order, as `apply_entry` does each, and stops at the
    /// first one that fails. Returns the responses of the entries applied successfully,
    /// and the failure, if any.
    pub fn apply_entries(&mut self, entries: Vec<pb::Entry>) -> (r: (Vec<Option<A::Response>>, Result<(), StorageError>))
        requires
            forall|i: int| 0 <= i < entries@.len() ==> entry_applicable(#[trigger] entries@[i]),
        ensures
            r.1 is Ok ==> r.0@.len() == entries@.len(),
            r.1 is Err ==> r.0@.len() < entries@.len(),
            final(self)@ == apply_all(old(self)@, entries@.take(applied_count(r.0@.len(), r.1))),
            exists|apps: Seq<A>| {
                &&& apps.len() > 0
                &&& apps[0] == old(self).application()
                &&& apps.last() == final(self).application()
                &&& batch_applied(apps, entries@, r.0@, r.1)
            },
    {
        let ghost apps: Seq<A> = seq![self.application()];
        let ghost all = entries@;
        let ghost start = self@;
        let mut responses: Vec<Option<A::Response>> = Vec::new();
        for entry in it: entries.into_iter()
            invariant
                it.seq() == all,
                all == entries@,
                start == old(self)@,
                apps[0] == old(self).application(),
                responses@.len() == it.index(),
                forall|i: int| 0 <= i < all.len() ==> entry_applicable(#[trigger] all[i]),
                self@ == apply_all(start, all.take(it.index() as int)),
                apps.len() == it.index() + 1,
                apps.last() == self.application(),
                batch_applied(apps, all, responses@, Ok(())),
        {
            let ghost k = it.index() as int;
            assert(entry == all[k]);
            proof {
                assert(all.take(k + 1).drop_last() =~= all.take(k));
                assert(all.take(k + 1).last() == all[k]);
            }
            match self.apply_entry(entry) {
                Ok(response) => {
                    proof {
                        apps = apps.push(self.application());
                    }
                    responses.push(response);
                    assert(batch_applied(apps, all, responses@, Ok(())));
                },
                Err(e) => {
                    proof {
                        apps = apps.push(self.application());
                    }
                    assert(batch_applied(apps, all, responses@, Err(e)));
                    assert(apps.len() > 0 && apps[0] == old(self).application() && apps.last() == self.application());
                    return (responses, Err(e));
                },
            }
        }
        assert(all.take(all.len() as int) =~= all);
        assert(apps.len() > 0 && apps[0] == old(self).application() && apps.last() == self.application());
        assert(batch_applied(apps, entries@, responses@, Ok(())));
        (responses, Ok(()))
    }

    /// The serialized form a received snapshot is collected into: empty at first.
    pub fn begin_receiving_snapshot(&self) -> (r: Vec<u8>)
        ensures
            r@.len() == 0,
    {
        Vec::new()
    }

    /// Builds a snapshot of the current state: its metadata is the last applied log id
    /// and membership, with an id numbered by a counter that each build advances; it
    /// becomes the current snapshot. When the application cannot export its state,
    /// nothing changes.
    pub fn build_snapshot(&mut self) -> (r: Result<Snapshot, StorageError>)
        requires
            old(self)@.snapshot_idx < u64::MAX,
        ensures
            final(self).application() == old(self).application(),
            match r {
                Ok(snapshot) => {
                    &&& old(self).application().export_ensures(Ok(snapshot@.data))
                    &&& snapshot@ == built_snapshot(old(self)@, snapshot@.data)
                    &&& final(self)@ == after_build(old(self)@, snapshot@.data)
                },
                Err(e) => {
                    &&& final(self)@ == old(self)@
                    &&& e matches StorageError::BuildSnapshot { reason }
                    &&& old(self).application().export_ensures(Err(reason@))
                },
            },
    {
        let data = match self.state_machine.application_data.export() {
            Ok(data) => data,
            Err(reason) => {
                return Err(StorageError::BuildSnapshot { reason });
            },
        };
        let last_applied_log = self.state_machine.last_applied_log;
        let last_membership = self.state_machine.last_membership.clone();

        self.snapshot_idx = self.snapshot_idx + 1;
        let snapshot_idx = self.snapshot_idx;
        let snapshot_id = make_snapshot_id(last_applied_log, snapshot_idx);

        let meta = SnapshotMeta { last_log_id: last_applied_log, last_membership, snapshot_id };
        let stored_data = data.clone();
        assert(stored_data@ =~= data@);
        self.current_snapshot = Some(StoredSnapshot { meta: meta.clone(), data: stored_data });
        Ok(Snapshot { meta, snapshot: data })
    }

    /// Installs a received snapshot: the application state becomes what the snapshot
    /// holds, the snapshot's last log id and membership become the last applied ones,
    /// and the snapshot becomes the current one. When the application cannot read the
    /// snapshot, nothing changes and the error names the snapshot's signature.
    pub fn install_snapshot(&mut self, meta: &SnapshotMeta, snapshot: Vec<u8>) -> (r: Result<(), StorageError>)
        ensures
            match r {
                Ok(()) => {
                    &&& final(self)@ == after_install(old(self)@, meta@, snapshot@)
                    &&& A::import_ensures(snapshot@, Ok(final(self).application()))
                },
                Err(e) => {
                    &&& final(self)@ == old(self)@
                    &&& final(self).application() == old(self).application()
                    &&& e matches StorageError::ReadSnapshot { signature, reason }
                    &&& A::import_ensures(snapshot@, Err(reason@))
                    &&& signature.last_log_id == meta.last_log_id
                    &&& signature.last_membership_log_id == meta.last_membership.log_id
                    &&& signature.snapshot_id@ == meta.snapshot_id@
                },
            },
    {
        let new_meta = meta.clone();
        let application_data = match A::import(snapshot.as_slice()) {
            Ok(a) => a,
            Err(reason) => {
                return Err(StorageError::ReadSnapshot { signature: new_meta.signature(), reason });
            },
        };
        self.state_machine = StateMachineData {
            last_applied_log: meta.last_log_id,
            last_membership: meta.last_membership.clone(),
            application_data,
        };
        self.current_snapshot = Some(StoredSnapshot { meta: new_meta, data: snapshot });
        Ok(())
    }

    /// The current snapshot, if one was built or installed.
    pub fn get_current_snapshot(&self) -> (r: Option<Snapshot>)
        ensures
            r is Some <==> self@.current_snapshot is Some,
            r is Some ==> r.unwrap()@ == self@.current_snapshot.unwrap(),
    {
        match &self.current_snapshot {
            Some(s) => {
                let data = s.data.clone();
                assert(data@ =~= s.data@);
                Some(Snapshot { meta: s.meta.clone(), snapshot: data })
            },
            None => None,
        }
    }
}

/// The id of the snapshot numbered `idx` whose last applied log id is `last`.
pub fn make_snapshot_id(last: Option<LogId>, idx: u64) -> (r: String)
    ensures
        r@ == snapshot_id(last, idx),
        last matches Some(l) ==> r@ == decimal(l.leader_id as nat) + seq!['-'] + decimal(
            l.index as nat,
        ) + seq!['-'] + decimal(idx as nat),
        last is None ==> r@ == seq!['-', '-'] + decimal(idx as nat),
{
    let mut s = String::new();
    proof {
        reveal_strlit("-");
    }
    match last {
        Some(l) => {
            push_decimal(&mut s, *l.committed_leader_id());
            s.append("-");
            push_decimal(&mut s, l.index());
            s.append("-");
            push_decimal(&mut s, idx);
        },
        None => {
            s.append("-");
            s.append("-");
            push_decimal(&mut s, idx);
        },
    }
    assert(s@ =~= snapshot_id(last, idx));
    s
}

// ----- laws -----

/// Installing a snapshot is read back: afterwards the applied state is the snapshot's
/// last log id and membership, and the current snapshot is the installed one. The
/// counter of built snapshots is left alone.
pub proof fn law_install_then_read(v: StoreView, meta: SnapshotMetaView, data: Seq<u8>)
    ensures
        after_install(v, meta, data).last_applied == meta.last_log_id,
        after_install(v, meta, data).last_membership == meta.last_membership,
        after_install(v, meta, data).current_snapshot == Some(SnapshotView { meta, data }),
        after_install(v, meta, data).snapshot_idx == v.snapshot_idx,
{
}

/// Building a snapshot is read back: afterwards the current snapshot is the one built,
/// whose metadata is the applied state at the time of the build; the applied state
/// itself does not change, and the counter advances by one.
pub proof fn law_build_then_read(v: StoreView, data: Seq<u8>)
    requires
        v.snapshot_idx < u64::MAX,
    ensures
        after_build(v, data).current_snapshot == Some(built_snapshot(v, data)),
        built_snapshot(v, data).meta.last_log_id == v.last_applied,
        built_snapshot(v, data).meta.last_membership == v.last_membership,
        built_snapshot(v, data).data == data,
        after_build(v, data).last_applied == v.last_applied,
        after_build(v, data).last_membership == v.last_membership,
        after_build(v, data).snapshot_idx == v.snapshot_idx + 1,
{
}

proof fn lemma_suffix_after_dash(p1: Seq<char>, d1: Seq<char>, p2: Seq<char>, d2: Seq<char>)
    requires
        p1.len() > 0 && p1.last() == '-',
        p2.len() > 0 && p2.last() == '-',
        forall|i: int| 0 <= i < d1.len() ==> is_digit(#[trigger] d1[i]),
        forall|i: int| 0 <= i < d2.len() ==> is_digit(#[trigger] d2[i]),
        p1 + d1 == p2 + d2,
    ensures
        d1 == d2,
{
    let s = p1 + d1;
    if d1.len() < d2.len() {
        let k = s.len() - d1.len() - 1;
        assert(s[k] == p1.last());
        assert(s[k] == (p2 + d2)[k]);
        assert(is_digit(d2[k - p2.len()]));
    } else if d2.len() < d1.len() {
        let k = s.len() - d2.len() - 1;
        assert((p2 + d2)[k] == p2.last());
        assert(s[k] == (p2 + d2)[k]);
        assert(is_digit(d1[k - p1.len()]));
    } else {
        assert(d1 =~= s.subrange(p1.len() as int, s.len() as int));
        assert(d2 =~= (p2 + d2).subrange(p2.len() as int, s.len() as int));
    }
}

proof fn lemma_snapshot_id_split(last: Option<LogId>, idx: u64) -> (p: Seq<char>)
    ensures
        p.len() > 0 && p.last() == '-',
        snapshot_id(last, idx) == p + decimal(idx as nat),
{
    match last {
        Some(l) => {
            let p = decimal(l.leader_id as nat) + seq!['-'] + decimal(l.index as nat) + seq!['-'];
            assert(p.last() == '-');
            p
        },
        None => {
            let p = seq!['-', '-'];
            p
        },
    }
}

/// A snapshot id is the decimal term, a dash, the decimal index, a dash and the decimal
/// counter; with nothing applied it is two dashes and the decimal counter.
pub proof fn law_snapshot_id_format(l: LogId, idx: u64)
    ensures
        snapshot_id(Some(l), idx) == decimal(l.leader_id as nat) + seq!['-'] + decimal(
            l.index as nat,
        ) + seq!['-'] + decimal(idx as nat),
        snapshot_id(None, idx) == seq!['-', '-'] + decimal(idx as nat),
{
}

/// A snapshot id reads back: split at its dashes it has three fields, which read as the
/// term and the index of the last applied log id and as the counter; with nothing
/// applied the first two fields are empty.
pub proof fn law_snapshot_id_fields(last: Option<LogId>, idx: u64)
    ensures
        split_dash(snapshot_id(last, idx)).len() == 3,
        split_dash(snapshot_id(last, idx))[2] == decimal(idx as nat),
        decimal_value(split_dash(snapshot_id(last, idx))[2]) == idx,
        last matches Some(l) ==> {
            &&& split_dash(snapshot_id(last, idx))[0] == decimal(l.leader_id as nat)
            &&& split_dash(snapshot_id(last, idx))[1] == decimal(l.index as nat)
            &&& decimal_value(split_dash(snapshot_id(last, idx))[0]) == l.leader_id
            &&& decimal_value(split_dash(snapshot_id(last, idx))[1]) == l.index
        },
        last is None ==> {
            &&& split_dash(snapshot_id(last, idx))[0] == Seq::<char>::empty()
            &&& split_dash(snapshot_id(last, idx))[1] == Seq::<char>::empty()
        },
{
    let c = decimal(idx as nat);
    lemma_decimal_dash_free(idx as nat);
    lemma_decimal_value(idx as nat);
    lemma_split_dash_last(c);
    match last {
        Some(l) => {
            let a = decimal(l.leader_id as nat);
            let b = decimal(l.index as nat);
            lemma_decimal_dash_free(l.leader_id as nat);
            lemma_decimal_dash_free(l.index as nat);
            lemma_decimal_value(l.leader_id as nat);
            lemma_decimal_value(l.index as nat);
            lemma_split_dash_field(b, c);
            lemma_split_dash_field(a, b + seq!['-'] + c);
            assert(snapshot_id(last, idx) =~= a + seq!['-'] + (b + seq!['-'] + c));
            assert(split_dash(snapshot_id(last, idx)) =~= seq![a, b, c]);
        },
        None => {
            let e = Seq::<char>::empty();
            lemma_split_dash_field(e, c);
            lemma_split_dash_field(e, seq!['-'] + c);
            assert(e + seq!['-'] + c =~= seq!['-'] + c);
            assert(e + seq!['-'] + (seq!['-'] + c) =~= snapshot_id(last, idx));
            assert(split_dash(snapshot_id(last, idx)) =~= seq![e, e, c]);
        },
    }
}

/// Snapshots numbered differently have different ids, whatever log ids they cover.
pub proof fn law_snapshot_ids_distinct(l1: Option<LogId>, i1: u64, l2: Option<LogId>, i2: u64)
    requires
        i1 != i2,
    ensures
        snapshot_id(l1, i1) != snapshot_id(l2, i2),
{
    let p1 = lemma_snapshot_id_split(l1, i1);
    let p2 = lemma_snapshot_id_split(l2, i2);
    lemma_decimal_shape(i1 as nat);
    lemma_decimal_shape(i2 as nat);
    if snapshot_id(l1, i1) == snapshot_id(l2, i2) {
        lemma_suffix_after_dash(p1, decimal(i1 as nat), p2, decimal(i2 as nat));
        lemma_decimal_injective(i1 as nat, i2 as nat);
    }
}

/// Two snapshots built one after the other have different ids.
pub proof fn law_successive_builds_distinct(v: StoreView, d1: Seq<u8>, d2: Seq<u8>)
    requires
        v.snapshot_idx + 1 < u64::MAX,
    ensures
        built_snapshot(after_build(v, d1), d2).meta.snapshot_id != built_snapshot(v, d1).meta.snapshot_id,
{
    law_snapshot_ids_distinct(
        after_build(v, d1).last_applied,
        (v.snapshot_idx + 2) as u64,
        v.last_applied,
        (v.snapshot_idx + 1) as u64,
    );
}

/// Applying entries in two batches leaves the same bookkeeping as applying them at once.
pub proof fn law_apply_batches(v: StoreView, a: Seq<pb::Entry>, b: Seq<pb::Entry>)
    ensures
        apply_all(v, a + b) == apply_all(apply_all(v, a), b),
    decreases b.len(),
{
    if b.len() == 0 {
        assert(a + b =~= a);
    } else {
        law_apply_batches(v, a, b.drop_last());
        assert((a + b).drop_last() =~= a + b.drop_last());
        assert((a + b).last() == b.last());
    }
}

/// After applying a non-empty sequence of entries, the last applied log id is that of
/// the last entry; applying entries never touches the snapshots.
pub proof fn law_apply_last_applied(v: StoreView, entries: Seq<pb::Entry>)
    ensures
        entries.len() > 0 ==> apply_all(v, entries).last_applied == Some(entry_log_id(entries.last())),
        entries.len() > 0 ==> apply_all(v, entries).last_applied
            == Some(LogId { leader_id: entries.last().term, index: entries.last().index }),
        apply_all(v, entries).snapshot_idx == v.snapshot_idx,
        apply_all(v, entries).current_snapshot == v.current_snapshot,
    decreases entries.len(),
{
    if entries.len() > 0 {
        law_apply_last_applied(v, entries.drop_last());
    }
}

/// The log id of an entry is its term and its index, in that order: applying an entry
/// makes exactly that log id the last applied one, whatever else the entry carries.
pub proof fn law_entry_log_id(v: StoreView, e: pb::Entry)
    ensures
        entry_log_id(e) == (LogId { leader_id: e.term, index: e.index }),
        entry_log_id(e).leader_id == e.term,
        entry_log_id(e).index == e.index,
        apply_step(v, e).last_applied == Some(LogId { leader_id: e.term, index: e.index }),
{
}

/// An entry that changes the membership: it carries a membership and no application data.
pub open spec fn is_membership_entry(e: pb::Entry) -> bool {
    e.app_data is None && e.membership is Some
}

/// After applying a sequence of entries, the last membership is the one carried by the
/// last membership entry among them, stored with that entry's log id; when there is
/// none, it is the membership from before.
pub proof fn law_apply_last_membership(v: StoreView, entries: Seq<pb::Entry>)
    ensures
        (forall|i: int| 0 <= i < entries.len() ==> !is_membership_entry(#[trigger] entries[i]))
            ==> apply_all(v, entries).last_membership == v.last_membership,
        forall|k: int|
            0 <= k < entries.len() && is_membership_entry(#[trigger] entries[k])
                && (forall|j: int| k < j < entries.len() ==> !is_membership_entry(#[trigger] entries[j]))
                ==> apply_all(v, entries).last_membership == (StoredMembershipView {
                    log_id: Some(entry_log_id(entries[k])),
                    membership: entries[k].membership.unwrap()@,
                }),
    decreases entries.len(),
{
    if entries.len() > 0 {
        let prefix = entries.drop_last();
        law_apply_last_membership(v, prefix);
        assert forall|i: int| 0 <= i < prefix.len() implies prefix[i] == entries[i] by {}
        assert forall|k: int|
            0 <= k < entries.len() && is_membership_entry(#[trigger] entries[k])
                && (forall|j: int| k < j < entries.len() ==> !is_membership_entry(#[trigger] entries[j]))
            implies apply_all(v, entries).last_membership == (StoredMembershipView {
                log_id: Some(entry_log_id(entries[k])),
                membership: entries[k].membership.unwrap()@,
            }) by {
            if k < entries.len() - 1 {
                assert(!is_membership_entry(entries[entries.len() - 1]));
                assert(prefix[k] == entries[k]);
                assert forall|j: int| k < j < prefix.len() implies !is_membership_entry(#[trigger] prefix[j]) by {
                    assert(prefix[j] == entries[j]);
                }
            }
        }
        if forall|i: int| 0 <= i < entries.len() ==> !is_membership_entry(#[trigger] entries[i]) {
            assert(!is_membership_entry(entries[entries.len() - 1]));
            assert forall|i: int| 0 <= i < prefix.len() implies !is_membership_entry(#[trigger] prefix[i]) by {
                assert(prefix[i] == entries[i]);
            }
        }
    }
}

/// The application reads back what it exports: importing any snapshot that `a` exports
/// gives `a` again.
pub open spec fn snapshot_round_trips<A: ApplicationStateMachine>(a: A) -> bool {
    forall|d: Seq<u8>, b: A| #![trigger a.export_ensures(Ok(d)), A::import_ensures(d, Ok(b))]
        a.export_ensures(Ok(d)) && A::import_ensures(d, Ok(b)) ==> b == a
}

/// Importing `d` always comes out the same way.
pub open spec fn import_deterministic<A: ApplicationStateMachine>(d: Seq<u8>) -> bool {
    forall|r1: Result<A, Seq<char>>, r2: Result<A, Seq<char>>|
        #![trigger A::import_ensures(d, r1), A::import_ensures(d, r2)]
        A::import_ensures(d, r1) && A::import_ensures(d, r2) ==> r1 == r2
}

/// A snapshot built on one replica, whose application `a` exported `data`, and
/// installed on another replica, whose application became `b` by importing `data`,
/// brings the second replica to the first one's applied state at the time of the build;
/// the second then serves the same snapshot as the first; and when the application
/// reads back what it exports, both replicas hold the same application state.
pub proof fn law_snapshot_transfer<A: ApplicationStateMachine>(v: StoreView, w: StoreView, a: A, data: Seq<u8>, b: A)
    requires
        a.export_ensures(Ok(data)),
        A::import_ensures(data, Ok(b)),
    ensures
        ({
            let built = built_snapshot(v, data);
            let installed = after_install(w, built.meta, built.data);
            &&& installed.last_applied == v.last_applied
            &&& installed.last_membership == v.last_membership
            &&& installed.current_snapshot == Some(built)
            &&& after_build(v, data).current_snapshot == installed.current_snapshot
        }),
        snapshot_round_trips(a) ==> b == a,
{
}

/// Installing the same snapshot twice leaves the same bookkeeping as installing it
/// once; when importing its data always comes out the same way, the second install
/// succeeds exactly when the first did, and with the same application state.
pub proof fn law_install_idempotent<A: ApplicationStateMachine>(
    w: StoreView,
    meta: SnapshotMetaView,
    data: Seq<u8>,
    first: Result<A, Seq<char>>,
    second: Result<A, Seq<char>>,
)
    requires
        A::import_ensures(data, first),
        A::import_ensures(data, second),
    ensures
        after_install(after_install(w, meta, data), meta, data) == after_install(w, meta, data),
        import_deterministic::<A>(data) ==> second == first,
{
}

/// A successful operation of the store, as it changes the bookkeeping: applying an
/// entry, building a snapshot of exported data, or installing a snapshot. (A failed
/// build or install changes nothing.)
pub enum StoreStep {
    Apply(pb::Entry),
    Build(Seq<u8>),
    Install(SnapshotMetaView, Seq<u8>),
}

/// The bookkeeping after one step.
pub open spec fn run_step(v: StoreView, step: StoreStep) -> StoreView {
    match step {
        StoreStep::Apply(e) => apply_step(v, e),
        StoreStep::Build(data) => after_build(v, data),
        StoreStep::Install(meta, data) => after_install(v, meta, data),
    }
}

/// The bookkeeping after the steps, in order.
pub open spec fn run_steps(v: StoreView, steps: Seq<StoreStep>) -> StoreView
    decreases steps.len(),
{
    if steps.len() == 0 {
        v
    } else {
        run_step(run_steps(v, steps.drop_last()), steps.last())
    }
}

/// How many of the steps build a snapshot.
pub open spec fn build_count(steps: Seq<StoreStep>) -> nat
    decreases steps.len(),
{
    if steps.len() == 0 {
        0
    } else {
        build_count(steps.drop_last()) + if steps.last() is Build { 1nat } else { 0nat }
    }
}

/// The snapshot that a step makes current, if it makes one, from the bookkeeping `v`
/// before it.
pub open spec fn step_snapshot(v: StoreView, step: StoreStep) -> Option<SnapshotView> {
    match step {
        StoreStep::Apply(_) => None,
        StoreStep::Build(data) => Some(built_snapshot(v, data)),
        StoreStep::Install(meta, data) => Some(SnapshotView { meta, data }),
    }
}

proof fn lemma_run_steps_counter(v: StoreView, steps: Seq<StoreStep>)
    requires
        v.snapshot_idx + build_count(steps) <= u64::MAX,
    ensures
        run_steps(v, steps).snapshot_idx == v.snapshot_idx + build_count(steps),
    decreases steps.len(),
{
    if steps.len() > 0 {
        lemma_run_steps_counter(v, steps.drop_last());
    }
}

proof fn lemma_build_count_prefix(steps: Seq<StoreStep>, i: int, j: int)
    requires
        0 <= i <= j <= steps.len(),
    ensures
        build_count(steps.take(i)) <= build_count(steps.take(j)),
        i < j && steps[i] is Build ==> build_count(steps.take(i)) + 1 <= build_count(steps.take(j)),
    decreases j - i,
{
    if i < j {
        lemma_build_count_prefix(steps, i, j - 1);
        assert(steps.take(j).drop_last() =~= steps.take(j - 1));
        if i == j - 1 {
            assert(steps.take(j).last() == steps[i]);
        }
    }
}

/// Over any run of the store, two snapshots built at different steps have different
/// ids (as long as the build counter does not overflow).
pub proof fn law_built_ids_distinct(v: StoreView, steps: Seq<StoreStep>, i: int, j: int)
    requires
        0 <= i < j < steps.len(),
        steps[i] is Build,
        steps[j] is Build,
        v.snapshot_idx + build_count(steps) <= u64::MAX,
    ensures
        step_snapshot(run_steps(v, steps.take(i)), steps[i]).unwrap().meta.snapshot_id
            != step_snapshot(run_steps(v, steps.take(j)), steps[j]).unwrap().meta.snapshot_id,
{
    lemma_build_count_prefix(steps, i, j);
    lemma_build_count_prefix(steps, j + 1, steps.len() as int);
    lemma_build_count_prefix(steps, j, j + 1);
    assert(steps.take(steps.len() as int) =~= steps);
    lemma_run_steps_counter(v, steps.take(i));
    lemma_run_steps_counter(v, steps.take(j));
    let vi = run_steps(v, steps.take(i));
    let vj = run_steps(v, steps.take(j));
    law_snapshot_ids_distinct(
        vi.last_applied,
        (vi.snapshot_idx + 1) as u64,
        vj.last_applied,
        (vj.snapshot_idx + 1) as u64,
    );
}

/// After any run of the store, the current snapshot is the one made by the last step
/// that built or installed one; when no step did, it is the one from before.
pub proof fn law_current_snapshot_after_run(v: StoreView, steps: Seq<StoreStep>)
    ensures
        (forall|i: int| 0 <= i < steps.len() ==> (#[trigger] steps[i]) is Apply)
            ==> run_steps(v, steps).current_snapshot == v.current_snapshot,
        forall|k: int|
            0 <= k < steps.len() && !((#[trigger] steps[k]) is Apply)
                && (forall|j: int| k < j < steps.len() ==> (#[trigger] steps[j]) is Apply)
                ==> run_steps(v, steps).current_snapshot == step_snapshot(run_steps(v, steps.take(k)), steps[k]),
    decreases steps.len(),
{
    if steps.len() > 0 {
        let prefix = steps.drop_last();
        let n = steps.len() - 1;
        law_current_snapshot_after_run(v, prefix);
        assert forall|k: int|
            0 <= k < steps.len() && !((#[trigger] steps[k]) is Apply)
                && (forall|j: int| k < j < steps.len() ==> (#[trigger] steps[j]) is Apply)
            implies run_steps(v, steps).current_snapshot == step_snapshot(run_steps(v, steps.take(k)), steps[k]) by {
            if k < n {
                assert(steps[n] is Apply);
                assert(prefix[k] == steps[k]);
                assert(prefix.take(k) =~= steps.take(k));
                assert forall|j: int| k < j < prefix.len() implies (#[trigger] prefix[j]) is Apply by {
                    assert(prefix[j] == steps[j]);
                }
            } else {
                assert(steps.take(k) =~= prefix);
            }
        }
        if forall|i: int| 0 <= i < steps.len() ==> (#[trigger] steps[i]) is Apply {
            assert(steps[n] is Apply);
            assert forall|i: int| 0 <= i < prefix.len() implies (#[trigger] prefix[i]) is Apply by {
                assert(prefix[i] == steps[i]);
            }
        }
    }
}

} // verus!
