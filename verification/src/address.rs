use vstd::prelude::*;

verus! {

/// An IP address of either family, held as the integer that its bytes spell
/// in network order: `10.0.0.1` is `0x0A00_0001`.
#[derive(Clone, Copy, Debug, PartialEq, Eq, Structural)]
pub enum IpAddress {
    V4(u32),
    V6(u128),
}

/// The integer that four bytes spell, first byte most significant.
pub open spec fn quad(a: u8, b: u8, c: u8, d: u8) -> int {
    a * 0x100_0000 + b * 0x1_0000 + c * 0x100 + d
}

impl IpAddress {
    /// Number of bits in an address of this family.
    pub open spec fn spec_bit_width(&self) -> u8 {
        match *self {
            IpAddress::V4(_) => 32,
            IpAddress::V6(_) => 128,
        }
    }

    /// Both addresses are IPv4, or both are IPv6.
    pub open spec fn spec_same_family(&self, other: IpAddress) -> bool {
        (*self is V4) == (other is V4)
    }

    /// The IPv4 address `a.b.c.d`.
    pub fn v4(a: u8, b: u8, c: u8, d: u8) -> (r: IpAddress)
        ensures
            r == IpAddress::V4(quad(a, b, c, d) as u32),
            quad(a, b, c, d) <= u32::MAX,
    {
        let hi: u32 = (a as u32) * 0x100_0000 + (b as u32) * 0x1_0000;
        let lo: u32 = (c as u32) * 0x100 + (d as u32);
        IpAddress::V4(hi + lo)
    }

    /// Both addresses are IPv4, or both are IPv6.
    #[verifier::when_used_as_spec(spec_same_family)]
    pub fn same_family(&self, other: IpAddress) -> (r: bool)
        ensures
            r == self.spec_same_family(other),
    {
        match (*self, other) {
            (IpAddress::V4(_), IpAddress::V4(_)) => true,
            (IpAddress::V6(_), IpAddress::V6(_)) => true,
            _ => false,
        }
    }

    /// Number of bits in an address of this family: 32 or 128.
    #[verifier::when_used_as_spec(spec_bit_width)]
    pub fn bit_width(&self) -> (w: u8)
        ensures
            w == self.spec_bit_width(),
    {
        match self {
            IpAddress::V4(_) => 32,
            IpAddress::V6(_) => 128,
        }
    }
}

} // verus!
