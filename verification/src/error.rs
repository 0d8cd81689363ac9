use vstd::prelude::*;

verus! {

/// Why a configuration was refused, or could not be delivered.
#[derive(Debug, PartialEq, Eq)]
pub enum ZTError {
    /// The prefix length is larger than the address family has bits.
    InvalidPrefixLength,
    /// The route at `route_index` names a gateway that no declared network
    /// contains.
    NoCarryingNetworkForGateway { route_index: usize },
    /// The controller could not be reached, or its answer could not be read.
    /// The library never produces this itself; it only carries the message.
    TransportFailure { message: String },
}

} // verus!
