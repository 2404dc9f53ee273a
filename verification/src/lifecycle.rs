//! The orchestrator's decisions about the leader-lifetime services: they run exactly
//! while this node is the leader, and are stopped when the service shuts down.
use vstd::prelude::*;
use crate::application::{LeaderLifetimeService, LeaderLifetimeServiceBuilder};

verus! {

/// What the orchestrator does with the leader-lifetime services after an event.
#[derive(Debug, Clone, Copy, PartialEq, Eq)]
pub enum LifecycleAction {
    /// Start them: this node has become the leader.
    Start,
    /// Stop them: this node is no longer the leader, or the service is shutting down.
    Stop,
    /// Leave them as they are.
    Nothing,
}

/// The action owed when the metrics report `is_leader`, the services running iff `leading`.
pub open spec fn metrics_action(leading: bool, is_leader: bool) -> LifecycleAction {
    if is_leader && !leading {
        LifecycleAction::Start
    } else if !is_leader && leading {
        LifecycleAction::Stop
    } else {
        LifecycleAction::Nothing
    }
}

/// The action owed on shutdown, the services running iff `leading`.
pub open spec fn shutdown_action(leading: bool) -> LifecycleAction {
    if leading { LifecycleAction::Stop } else { LifecycleAction::Nothing }
}

/// The action owed when the metrics report `is_leader`, the services running iff `leading`.
pub fn leader_action(leading: bool, is_leader: bool) -> (r: LifecycleAction)
    ensures
        r == metrics_action(leading, is_leader),
{
    if is_leader && !leading {
        LifecycleAction::Start
    } else if !is_leader && leading {
        LifecycleAction::Stop
    } else {
        LifecycleAction::Nothing
    }
}

/// Whether the leader-lifetime services are running.
pub struct LeaderLifecycle {
    leading: bool,
}

impl View for LeaderLifecycle {
    type V = bool;

    closed spec fn view(&self) -> bool {
        self.leading
    }
}

impl LeaderLifecycle {
    /// No service runs before the first metrics arrive.
    pub fn new() -> (r: Self)
        ensures
            !r@,
    {
        LeaderLifecycle { leading: false }
    }

    /// Whether the services are running.
    pub fn is_leading(&self) -> (r: bool)
        ensures
            r == self@,
    {
        self.leading
    }

    /// The metrics changed and report whether this node is the leader: start the
    /// services on becoming the leader, stop them on losing the leadership.
    pub fn on_metrics(&mut self, is_leader: bool) -> (r: LifecycleAction)
        ensures
            r == metrics_action(old(self)@, is_leader),
            final(self)@ == is_leader,
    {
        let r = leader_action(self.leading, is_leader);
        self.leading = is_leader;
        r
    }

    /// The service shuts down: stop the services if they run.
    pub fn on_shutdown(&mut self) -> (r: LifecycleAction)
        ensures
            r == shutdown_action(old(self)@),
            !final(self)@,
    {
        let r = if self.leading { LifecycleAction::Stop } else { LifecycleAction::Nothing };
        self.leading = false;
        r
    }
}

/// The start and stop actions taken, in order, when the metrics report `events` one
/// after the other and the service then shuts down, the services running iff `leading`
/// at first.
pub open spec fn lifecycle_trace(leading: bool, events: Seq<bool>) -> Seq<LifecycleAction>
    decreases events.len(),
{
    if events.len() == 0 {
        if leading { seq![LifecycleAction::Stop] } else { Seq::empty() }
    } else {
        let a = metrics_action(leading, events[0]);
        let rest = lifecycle_trace(events[0], events.drop_first());
        if a == LifecycleAction::Nothing { rest } else { seq![a] + rest }
    }
}

/// The actions alternate, starting with a stop when `first_stop` and with a start
/// otherwise, and their number is odd when they start with a stop and even otherwise.
pub open spec fn alternating(s: Seq<LifecycleAction>, first_stop: bool) -> bool {
    &&& forall|i: int| 0 <= i < s.len() ==> #[trigger] s[i] == if (i % 2 == 0) == first_stop {
        LifecycleAction::Stop
    } else {
        LifecycleAction::Start
    }
    &&& (s.len() % 2 == 1) == first_stop
}

/// Over any run, starting with no service running, the services are started and stopped
/// alternately, beginning with a start, and every start is matched by a stop: no service
/// is left running after shutdown, none is started twice, none is stopped when not running.
pub proof fn law_lifecycle_alternates(events: Seq<bool>)
    ensures
        alternating(lifecycle_trace(false, events), false),
{
    lemma_trace_alternates(false, events);
}

proof fn lemma_trace_alternates(leading: bool, events: Seq<bool>)
    ensures
        alternating(lifecycle_trace(leading, events), leading),
    decreases events.len(),
{
    if events.len() > 0 {
        let e = events[0];
        let rest = lifecycle_trace(e, events.drop_first());
        lemma_trace_alternates(e, events.drop_first());
        let a = metrics_action(leading, e);
        if a != LifecycleAction::Nothing {
            let s = seq![a] + rest;
            assert forall|i: int| 0 <= i < s.len() implies #[trigger] s[i] == if (i % 2 == 0) == leading {
                LifecycleAction::Stop
            } else {
                LifecycleAction::Start
            } by {
                if i > 0 {
                    assert(s[i] == rest[i - 1]);
                }
            }
        }
    }
}

/// Runs the services that a builder makes while this node is the leader.
pub struct LeaderLifetimeDriver<B: LeaderLifetimeServiceBuilder> {
    builder: B,
    running: Option<B::Service>,
}

impl<B: LeaderLifetimeServiceBuilder> LeaderLifetimeDriver<B> {
    /// Whether a service is running.
    pub open spec fn is_running(&self) -> bool {
        self.service() is Some
    }

    /// The running service, if any.
    pub closed spec fn service(&self) -> Option<B::Service> {
        self.running
    }

    /// The builder the services come from.
    pub closed spec fn builder(&self) -> B {
        self.builder
    }

    /// A driver with no service running.
    pub fn new(builder: B) -> (r: Self)
        ensures
            !r.is_running(),
            r.service() is None,
            r.builder() == builder,
    {
        LeaderLifetimeDriver { builder, running: None }
    }

    /// Whether a service is running.
    pub fn running(&self) -> (r: bool)
        ensures
            r == self.is_running(),
    {
        self.running.is_some()
    }

    /// The metrics changed: on becoming the leader, build a service and start it; on
    /// losing the leadership, stop the running one and drop it. When building, starting
    /// or stopping fails, that error is returned and no service is left running.
    pub fn on_metrics(&mut self, is_leader: bool) -> (r: Result<LifecycleAction, String>)
        ensures
            final(self).builder() == old(self).builder(),
            match r {
                Ok(a) => {
                    &&& a == metrics_action(old(self).is_running(), is_leader)
                    &&& final(self).is_running() == is_leader
                    &&& a == LifecycleAction::Start ==> {
                        &&& old(self).builder().build_ensures(Ok(final(self).service().unwrap()))
                        &&& final(self).service().unwrap().start_ensures(Ok(()))
                    }
                    &&& a == LifecycleAction::Stop ==> old(self).service().unwrap().stop_ensures(Ok(()))
                    &&& a == LifecycleAction::Nothing ==> final(self).service() == old(self).service()
                },
                Err(e) => {
                    &&& !final(self).is_running()
                    &&& metrics_action(old(self).is_running(), is_leader) == LifecycleAction::Start ==> {
                        ||| old(self).builder().build_ensures(Err(e@))
                        ||| exists|s: B::Service|
                            old(self).builder().build_ensures(Ok(s)) && #[trigger] s.start_ensures(Err(e@))
                    }
                    &&& metrics_action(old(self).is_running(), is_leader) == LifecycleAction::Stop
                        ==> old(self).service().unwrap().stop_ensures(Err(e@))
                    &&& metrics_action(old(self).is_running(), is_leader) != LifecycleAction::Nothing
                },
            },
    {
        let action = leader_action(self.running.is_some(), is_leader);
        match action {
            LifecycleAction::Start => {
                let service = match self.builder.build() {
                    Ok(service) => service,
                    Err(e) => {
                        return Err(e);
                    },
                };
                match service.start() {
                    Ok(()) => {},
                    Err(e) => {
                        return Err(e);
                    },
                }
                self.running = Some(service);
            },
            LifecycleAction::Stop => {
                let service = self.running.take();
                if let Some(service) = service {
                    match service.stop() {
                        Ok(()) => {},
                        Err(e) => {
                            return Err(e);
                        },
                    }
                }
            },
            LifecycleAction::Nothing => {},
        }
        Ok(action)
    }

    /// The service shuts down: stop the running service, if any.
    pub fn shutdown(&mut self) -> (r: Result<LifecycleAction, String>)
        ensures
            final(self).builder() == old(self).builder(),
            !final(self).is_running(),
            match r {
                Ok(a) => {
                    &&& a == shutdown_action(old(self).is_running())
                    &&& old(self).is_running() ==> old(self).service().unwrap().stop_ensures(Ok(()))
                },
                Err(e) => {
                    &&& old(self).is_running()
                    &&& old(self).service().unwrap().stop_ensures(Err(e@))
                },
            },
    {
        let service = self.running.take();
        match service {
            Some(service) => {
                match service.stop() {
                    Ok(()) => Ok(LifecycleAction::Stop),
                    Err(e) => Err(e),
                }
            },
            None => Ok(LifecycleAction::Nothing),
        }
    }
}

} // verus!
