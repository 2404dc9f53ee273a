//! What an application plugs into the service: the replicated state machine that the
//! committed requests are applied to, and the services that run while this node leads.
use vstd::prelude::*;

verus! {

/// The application's replicated state. Requests and snapshots reach it in their
/// serialized form, as they are stored in the log and in snapshots.
///
/// Each method promises what its `_ensures` spec function says of its result: an
/// implementation verified with this library states there what the method returns (for
/// instance that importing an exported state gives the state back); the default says
/// nothing, and promises nothing, of an implementation that is not verified.
pub trait ApplicationStateMachine: Sized {
    /// What applying a request answers to the client that wrote it.
    type Response;

    /// `export` on this state may return `r` (the serialized snapshot, or the reason
    /// it failed).
    open spec fn export_ensures(&self, r: Result<Seq<u8>, Seq<char>>) -> bool {
        true
    }

    /// `import` of the serialized snapshot `snapshot` may return `r`.
    open spec fn import_ensures(snapshot: Seq<u8>, r: Result<Self, Seq<char>>) -> bool {
        true
    }

    /// `apply` of the serialized request `request` on the state `old` may leave the
    /// state `new` and return `r`.
    open spec fn apply_ensures(old: Self, request: Seq<u8>, new: Self, r: Result<Self::Response, Seq<char>>) -> bool {
        true
    }

    /// The serialized snapshot of the current state.
    fn export(&self) -> (r: Result<Vec<u8>, String>)
        ensures
            self.export_ensures(export_result(&r)),
    ;

    /// The state that a serialized snapshot holds.
    fn import(snapshot: &[u8]) -> (r: Result<Self, String>)
        ensures
            Self::import_ensures(snapshot@, outcome(&r)),
    ;

    /// Applies one serialized request to the state.
    fn apply(&mut self, request: &[u8]) -> (r: Result<Self::Response, String>)
        ensures
            Self::apply_ensures(*old(self), request@, *final(self), outcome(&r)),
    ;
}

/// The abstract value of what `export` returned.
pub open spec fn export_result(r: &Result<Vec<u8>, String>) -> Result<Seq<u8>, Seq<char>> {
    match r {
        Ok(d) => Ok(d@),
        Err(e) => Err(e@),
    }
}

/// The abstract value of what a method returned: its value, or the reason it failed.
pub open spec fn outcome<T>(r: &Result<T, String>) -> Result<T, Seq<char>> {
    match r {
        Ok(v) => Ok(*v),
        Err(e) => Err(e@),
    }
}

/// A service that runs on this node for as long as it is the leader.
/// As for the state machine, each method promises what its `_ensures` spec function
/// says of its result, and the default says nothing.
pub trait LeaderLifetimeService {
    /// `start` on this service may return `r`.
    open spec fn start_ensures(&self, r: Result<(), Seq<char>>) -> bool {
        true
    }

    /// `stop` on this service may return `r`.
    open spec fn stop_ensures(&self, r: Result<(), Seq<char>>) -> bool {
        true
    }

    /// Starts the service: this node has become the leader.
    fn start(&self) -> (r: Result<(), String>)
        ensures
            self.start_ensures(outcome(&r)),
    ;

    /// Stops the service: this node is no longer the leader.
    fn stop(&self) -> (r: Result<(), String>)
        ensures
            self.stop_ensures(outcome(&r)),
    ;
}

/// Builds a fresh leader-lifetime service each time this node becomes the leader.
pub trait LeaderLifetimeServiceBuilder {
    /// The service it builds.
    type Service: LeaderLifetimeService;

    /// `build` on this builder may return `r`.
    open spec fn build_ensures(&self, r: Result<Self::Service, Seq<char>>) -> bool {
        true
    }

    /// Builds a service for a new term of leadership.
    fn build(&self) -> (r: Result<Self::Service, String>)
        ensures
            self.build_ensures(outcome(&r)),
    ;
}

} // verus!
