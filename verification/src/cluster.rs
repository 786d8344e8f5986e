use vstd::prelude::*;

use crate::error::ErrorType;
use crate::handle::{after, outcome, request, Call, HandleState, HandleType};

verus! {

/// The time allowed for a purge, in milliseconds: one minute.
pub const PURGE_TIMEOUT_MS: i32 = 60000;

/// The time allowed for a trim, in milliseconds: one hour.
pub const TRIM_TIMEOUT_MS: i32 = 3600000;

/// The operations that concern a cluster as a whole, on the handle that is
/// connected to it. The cluster owns the handle while it lasts.
#[derive(Debug)]
pub struct Cluster {
    handle: HandleType,
}

impl Cluster {
    /// Where the handle of the cluster stands.
    pub closed spec fn state(&self) -> HandleState {
        self.handle.state()
    }

    /// The operations of the cluster that `handle` is connected to.
    pub fn new(handle: HandleType) -> (r: Cluster)
        ensures
            r.state() == handle.state(),
    {
        Cluster { handle }
    }

    /// Gives the handle back.
    pub fn into_handle(self) -> (r: HandleType)
        ensures
            r.state() == self.state(),
    {
        self.handle
    }

    /// Reads the status with which `call` came back, as the handle does.
    pub fn settle(&mut self, call: &Call, status: i32) -> (r: Option<ErrorType>)
        ensures
            r == outcome(old(self).state(), call.kind(), status),
            final(self).state() == after(old(self).state(), call.kind(), status),
    {
        self.handle.settle(call, status)
    }

    /// Removes all data from all the nodes of the cluster, for good. The call
    /// is not atomic: it reports success when it reached the nodes that can
    /// be reached. A cluster does not allow it unless it is configured to.
    pub fn PurgeAll(&self, timeout_ms: i32) -> (r: Result<Call, ErrorType>)
        ensures
            r == request(self.state(), Call::PurgeAll { timeout_ms }),
    {
        self.handle.issue(Call::PurgeAll { timeout_ms })
    }

    /// Removes all cached data from all the nodes of the cluster. Not atomic,
    /// as `PurgeAll`.
    pub fn PurgeCache(&self, timeout_ms: i32) -> (r: Result<Call, ErrorType>)
        ensures
            r == request(self.state(), Call::PurgeCache { timeout_ms }),
    {
        self.handle.issue(Call::PurgeCache { timeout_ms })
    }

    /// Asks every node to trim all entries, release unused memory and compact
    /// its files. Heavy on disk and processor. Not atomic, as `PurgeAll`.
    pub fn TrimAll(&self, timeout_ms: i32) -> (r: Result<Call, ErrorType>)
        ensures
            r == request(self.state(), Call::TrimAll { timeout_ms }),
    {
        self.handle.issue(Call::TrimAll { timeout_ms })
    }

    /// Waits until all nodes of the cluster are stable, `timeout_ms`
    /// milliseconds at most.
    pub fn WaitForStabilization(&self, timeout_ms: i32) -> (r: Result<Call, ErrorType>)
        ensures
            r == request(self.state(), Call::WaitForStabilization { timeout_ms }),
    {
        self.handle.issue(Call::WaitForStabilization { timeout_ms })
    }

    /// Asks for all the endpoints that the handle can reach. What comes back
    /// is an array of the client library: it goes through `adapt_endpoints`.
    pub fn Endpoints(&self) -> (r: Result<Call, ErrorType>)
        ensures
            r == request(self.state(), Call::ClusterEndpoints),
    {
        self.handle.issue(Call::ClusterEndpoints)
    }
}

} // verus!
