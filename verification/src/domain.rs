//! The values that the Supervisor's own components make and read.

use vstd::prelude::*;

verus! {

/// Names the types of the values that this library only carries from one component of the
/// Supervisor to another: it never looks inside one.
pub trait Domain {
    /// What a failed call reports.
    type Error;
    /// An address for the gossip system to listen on.
    type GossipAddr;
    /// An address for the HTTP gateway to listen on.
    type HttpAddr;
    /// A resolved network address.
    type SocketAddr;
    /// A service group.
    type ServiceGroup;
    /// A package identifier.
    type Ident;
    /// An application together with its environment.
    type AppEnv;
    /// A binding of a service to a service group.
    type Bind;
    /// A service topology.
    type Topology;
    /// An update strategy.
    type Strategy;
}

/// The systems that the program runs on, as far as its options differ.
#[derive(Clone, Copy, Debug, PartialEq, Eq, Structural)]
pub enum Platform {
    Unix,
    Windows,
}

} // verus!
