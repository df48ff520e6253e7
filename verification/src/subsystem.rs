//! The network bridge as a subsystem: the handles it is started with.

use vstd::prelude::*;

verus! {

/// The network bridge subsystem, before it is started: the network service
/// it will speak through and the authority discovery service it will ask.
///
/// Each handle has one owner at a time. The bridge owns both until it is
/// taken apart, and whoever takes it apart owns them then.
pub struct NetworkBridge<N, AD> {
    network_service: N,
    authority_discovery_service: AD,
}

impl<N, AD> NetworkBridge<N, AD> {
    /// The network service the bridge holds.
    pub closed spec fn network_service(&self) -> N {
        self.network_service
    }

    /// The authority discovery service the bridge holds.
    pub closed spec fn authority_discovery_service(&self) -> AD {
        self.authority_discovery_service
    }

    /// Creates a network bridge subsystem with the underlying network
    /// service and authority discovery service.
    pub fn new(network_service: N, authority_discovery_service: AD) -> (bridge: Self)
        ensures
            bridge.network_service() == network_service,
            bridge.authority_discovery_service() == authority_discovery_service,
    {
        NetworkBridge { network_service, authority_discovery_service }
    }

    /// Takes the bridge apart into its network service and its authority
    /// discovery service.
    pub fn into_parts(self) -> (parts: (N, AD))
        ensures
            parts == (self.network_service(), self.authority_discovery_service()),
    {
        (self.network_service, self.authority_discovery_service)
    }
}

} // verus!
