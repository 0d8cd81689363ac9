use vstd::prelude::*;
use crate::address::IpAddress;

verus! {

/// First address of the pool that `Default` gives: 169.254.0.10.
pub const DEFAULT_RANGE_START: u32 = 0xA9FE_000A;

/// Last address of the pool that `Default` gives: 169.254.0.100.
pub const DEFAULT_RANGE_END: u32 = 0xA9FE_0064;

/// A span of addresses that the controller may hand out, from
/// `ip_range_start` to `ip_range_end`. Nothing here asks that the two ends
/// are of one family, nor that the start is not above the end.
#[derive(Clone, Copy, Debug, PartialEq, Eq)]
pub struct IpAssignmentPools {
    pub ip_range_start: IpAddress,
    pub ip_range_end: IpAddress,
}

impl IpAssignmentPools {
    /// The pool that `Default` gives, inside the IPv4 link-local block.
    pub open spec fn spec_default() -> IpAssignmentPools {
        IpAssignmentPools {
            ip_range_start: IpAddress::V4(DEFAULT_RANGE_START),
            ip_range_end: IpAddress::V4(DEFAULT_RANGE_END),
        }
    }

    /// Both ends are IPv4, or both are IPv6.
    pub open spec fn spec_same_family(&self) -> bool {
        self.ip_range_start.spec_same_family(self.ip_range_end)
    }

    /// Whether both ends are of one family. A range is meant to be, but
    /// neither `set_range` nor a configuration asks for it.
    #[verifier::when_used_as_spec(spec_same_family)]
    pub fn same_family(&self) -> (r: bool)
        ensures
            r == self.spec_same_family(),
    {
        self.ip_range_start.same_family(self.ip_range_end)
    }

    /// Replaces both ends of the range.
    pub fn set_range(&mut self, s: IpAddress, e: IpAddress)
        ensures
            final(self).ip_range_start == s,
            final(self).ip_range_end == e,
    {
        self.ip_range_start = s;
        self.ip_range_end = e;
    }
}

impl Default for IpAssignmentPools {
    fn default() -> (r: IpAssignmentPools)
        ensures
            r == IpAssignmentPools::spec_default(),
    {
        IpAssignmentPools {
            ip_range_start: IpAddress::V4(DEFAULT_RANGE_START),
            ip_range_end: IpAddress::V4(DEFAULT_RANGE_END),
        }
    }
}

} // verus!
