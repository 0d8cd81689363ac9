use vstd::prelude::*;
use crate::address::IpAddress;
use crate::prefix::{network_of, NetworkPrefix};

verus! {

/// Address of the network that `Default` routes to: 169.254.0.0.
pub const DEFAULT_TARGET_ADDR: u32 = 0xA9FE_0000;

/// Prefix length of the network that `Default` routes to.
pub const DEFAULT_TARGET_LEN: u8 = 16;

/// A route: the network it leads to and, for a route that is not directly
/// connected, the gateway that traffic is handed to.
#[derive(Clone, Copy, Debug, PartialEq, Eq)]
pub struct Routes {
    pub target: NetworkPrefix,
    pub via: Option<IpAddress>,
    pub flags: u16,
    pub metric: u16,
}

impl Routes {
    /// A directly connected route to the network that `start` lies in under
    /// a prefix of `len` bits, with no flag and metric 0.
    pub open spec fn is_direct_to(&self, start: IpAddress, len: u8) -> bool {
        &&& self.target.spec_addr() == network_of(start, len)
        &&& self.target.spec_prefix_len() == len
        &&& self.target.spec_contains(start)
        &&& self.via is None
        &&& self.flags == 0
        &&& self.metric == 0
    }

    /// The route that `Default` gives: the IPv4 link-local block,
    /// 169.254.0.0/16, directly connected.
    pub open spec fn is_default(&self) -> bool {
        &&& self.target.spec_addr() == IpAddress::V4(DEFAULT_TARGET_ADDR)
        &&& self.target.spec_prefix_len() == DEFAULT_TARGET_LEN
        &&& self.via is None
        &&& self.flags == 0
        &&& self.metric == 0
    }

    /// A directly connected route to `target`, with no flag and metric 0.
    pub fn direct(target: NetworkPrefix) -> (r: Routes)
        ensures
            r.target == target,
            r.via is None,
            r.flags == 0,
            r.metric == 0,
    {
        Routes { target, via: None, flags: 0, metric: 0 }
    }

    /// Points the route at another network and gateway; flags and metric
    /// stay.
    pub fn with(&mut self, target: NetworkPrefix, gw: Option<IpAddress>)
        ensures
            final(self).target == target,
            final(self).via == gw,
            final(self).flags == old(self).flags,
            final(self).metric == old(self).metric,
    {
        self.target = target;
        self.via = gw;
    }

    /// Replaces the flags.
    pub fn set_flag(&mut self, f: u16)
        ensures
            final(self).flags == f,
            final(self).target == old(self).target,
            final(self).via == old(self).via,
            final(self).metric == old(self).metric,
    {
        self.flags = f;
    }

    /// Replaces the metric.
    pub fn set_metric(&mut self, m: u16)
        ensures
            final(self).metric == m,
            final(self).target == old(self).target,
            final(self).via == old(self).via,
            final(self).flags == old(self).flags,
    {
        self.metric = m;
    }
}

impl Default for Routes {
    fn default() -> (r: Routes)
        ensures
            r.is_default(),
    {
        let target = NetworkPrefix::new(IpAddress::V4(DEFAULT_TARGET_ADDR), DEFAULT_TARGET_LEN);
        assert(crate::prefix::network_v4(0xA9FE_0000u32, 16u8) == 0xA9FE_0000u32) by (bit_vector);
        Routes::direct(target.unwrap())
    }
}

} // verus!
