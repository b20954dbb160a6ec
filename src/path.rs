use vstd::pervasive::strictly_cloned;
use vstd::prelude::*;

use crate::addr::RemoteAddr;
use crate::mtud::{fresh_model, MtuDiscovery};
use crate::rtt::{initial_model, RttEstimator};

verus! {

/// The state of one network path: the remote address, its round-trip-time
/// estimate, whether ECN is sent, its congestion controller and its MTU
/// discovery. The controller is duplicated through `Clone` when state is
/// carried over to a new address, so that two paths never share one.
#[derive(Debug)]
pub struct PathData<C> {
    pub remote: RemoteAddr,
    pub rtt: RttEstimator,
    /// Whether outgoing packets are marked for ECN.
    pub sending_ecn: bool,
    /// Congestion controller state.
    pub congestion: C,
    /// MTU discovery.
    pub mtud: MtuDiscovery,
}

impl<C: Clone> PathData<C> {
    /// The sub-states hold their invariants.
    pub open spec fn wf(&self) -> bool {
        self.rtt.wf() && self.mtud.wf()
    }

    /// Fresh state for a path to `remote`, adopting `congestion` as it is.
    pub fn new(remote: RemoteAddr, congestion: C) -> (r: Self)
        ensures
            r.wf(),
            r.remote == remote,
            r.rtt@ == initial_model(),
            r.sending_ecn,
            r.congestion == congestion,
            r.mtud@ == fresh_model(remote),
    {
        PathData {
            remote,
            rtt: RttEstimator::new(),
            sending_ecn: true,
            congestion,
            mtud: MtuDiscovery::new(&remote),
        }
    }

    /// State for a path to the new address `remote`, carried over from
    /// `prev`: the round-trip-time estimator is copied, the congestion
    /// controller is cloned, ECN is enabled again and MTU discovery starts
    /// afresh.
    pub fn from_previous(remote: RemoteAddr, prev: &PathData<C>) -> (r: Self)
        requires
            prev.wf(),
        ensures
            r.wf(),
            r.remote == remote,
            r.rtt == prev.rtt,
            r.rtt@ == prev.rtt@,
            r.sending_ecn,
            strictly_cloned(prev.congestion, r.congestion),
            r.mtud@ == fresh_model(remote),
    {
        PathData {
            remote,
            rtt: prev.rtt,
            congestion: prev.congestion.clone(),
            sending_ecn: true,
            mtud: MtuDiscovery::new(&remote),
        }
    }
}

} // verus!
