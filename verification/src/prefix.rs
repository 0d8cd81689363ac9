use vstd::prelude::*;
use crate::address::IpAddress;
use crate::error::ZTError;

verus! {

/// Network mask of an IPv4 prefix of `len` bits: the top `len` bits set.
pub open spec fn netmask_v4(len: u8) -> u32 {
    if len == 0 {
        0u32
    } else {
        u32::MAX << ((32 - len) as u32)
    }
}

/// Host mask of an IPv4 prefix of `len` bits: the low `32 - len` bits set.
pub open spec fn hostmask_v4(len: u8) -> u32 {
    if len >= 32 {
        0u32
    } else {
        u32::MAX >> (len as u32)
    }
}

/// First address of the IPv4 network `addr/len`.
pub open spec fn network_v4(addr: u32, len: u8) -> u32 {
    addr & netmask_v4(len)
}

/// Last address of the IPv4 network `addr/len`.
pub open spec fn broadcast_v4(addr: u32, len: u8) -> u32 {
    addr | hostmask_v4(len)
}

/// Whether `host` lies between the first and the last address of `addr/len`.
pub open spec fn contains_v4(addr: u32, len: u8, host: u32) -> bool {
    network_v4(addr, len) <= host <= broadcast_v4(addr, len)
}

/// Network mask of an IPv6 prefix of `len` bits: the top `len` bits set.
pub open spec fn netmask_v6(len: u8) -> u128 {
    if len == 0 {
        0u128
    } else {
        u128::MAX << ((128 - len) as u32)
    }
}

/// Host mask of an IPv6 prefix of `len` bits: the low `128 - len` bits set.
pub open spec fn hostmask_v6(len: u8) -> u128 {
    if len >= 128 {
        0u128
    } else {
        u128::MAX >> (len as u32)
    }
}

/// First address of the IPv6 network `addr/len`.
pub open spec fn network_v6(addr: u128, len: u8) -> u128 {
    addr & netmask_v6(len)
}

/// Last address of the IPv6 network `addr/len`.
pub open spec fn broadcast_v6(addr: u128, len: u8) -> u128 {
    addr | hostmask_v6(len)
}

/// Whether `host` lies between the first and the last address of `addr/len`.
pub open spec fn contains_v6(addr: u128, len: u8, host: u128) -> bool {
    network_v6(addr, len) <= host <= broadcast_v6(addr, len)
}

/// The first address of the network that `addr` lies in under a prefix of
/// `len` bits.
pub open spec fn network_of(addr: IpAddress, len: u8) -> IpAddress {
    match addr {
        IpAddress::V4(a) => IpAddress::V4(network_v4(a, len)),
        IpAddress::V6(a) => IpAddress::V6(network_v6(a, len)),
    }
}

/// Whether the network `addr/len` holds `host`. Addresses of different
/// families never contain one another.
pub open spec fn network_contains(addr: IpAddress, len: u8, host: IpAddress) -> bool {
    match (addr, host) {
        (IpAddress::V4(a), IpAddress::V4(h)) => contains_v4(a, len, h),
        (IpAddress::V6(a), IpAddress::V6(h)) => contains_v6(a, len, h),
        _ => false,
    }
}

/// `ipnet::PrefixLenError`, the error of `ipnet`'s constructors. It holds
/// nothing to read.
#[verifier::external_type_specification]
#[verifier::external_body]
pub struct ExPrefixLenError(ipnet::PrefixLenError);

/// `ipnet::Ipv4Net::new`: refuses a length above 32, and otherwise keeps the
/// address and the length exactly as given.
#[verifier::external_body]
fn ipv4_net_new(addr: u32, len: u8) -> (r: Result<(u32, u8), ipnet::PrefixLenError>)
    ensures
        r is Ok <==> len <= 32,
        r is Ok ==> r->Ok_0 == (addr, len),
{
    match ipnet::Ipv4Net::new(addr.into(), len) {
        Ok(net) => Ok((net.addr().into(), net.prefix_len())),
        Err(e) => Err(e),
    }
}

/// `ipnet::Ipv6Net::new`: refuses a length above 128, and otherwise keeps
/// the address and the length exactly as given.
#[verifier::external_body]
fn ipv6_net_new(addr: u128, len: u8) -> (r: Result<(u128, u8), ipnet::PrefixLenError>)
    ensures
        r is Ok <==> len <= 128,
        r is Ok ==> r->Ok_0 == (addr, len),
{
    match ipnet::Ipv6Net::new(addr.into(), len) {
        Ok(net) => Ok((net.addr().into(), net.prefix_len())),
        Err(e) => Err(e),
    }
}

/// `ipnet::Ipv4Net::network`: the address with every bit below the prefix
/// cleared.
#[verifier::external_body]
fn ipv4_net_network(addr: u32, len: u8) -> (r: u32)
    requires
        len <= 32,
    ensures
        r == network_v4(addr, len),
{
    ipnet::Ipv4Net::new_assert(addr.into(), len).network().into()
}

/// `ipnet::Ipv6Net::network`: the address with every bit below the prefix
/// cleared.
#[verifier::external_body]
fn ipv6_net_network(addr: u128, len: u8) -> (r: u128)
    requires
        len <= 128,
    ensures
        r == network_v6(addr, len),
{
    ipnet::Ipv6Net::new_assert(addr.into(), len).network().into()
}

/// `ipnet::Ipv4Net::contains`, asked of an address: true when the address is
/// neither below the network's first address nor above its last.
#[verifier::external_body]
fn ipv4_net_contains(addr: u32, len: u8, host: u32) -> (r: bool)
    requires
        len <= 32,
    ensures
        r == contains_v4(addr, len, host),
{
    let host = ipnet::Ipv4Net::new_assert(host.into(), 32).addr();
    ipnet::Ipv4Net::new_assert(addr.into(), len).contains(&host)
}

/// `ipnet::Ipv6Net::contains`, asked of an address: true when the address is
/// neither below the network's first address nor above its last.
#[verifier::external_body]
fn ipv6_net_contains(addr: u128, len: u8, host: u128) -> (r: bool)
    requires
        len <= 128,
    ensures
        r == contains_v6(addr, len, host),
{
    let host = ipnet::Ipv6Net::new_assert(host.into(), 128).addr();
    ipnet::Ipv6Net::new_assert(addr.into(), len).contains(&host)
}

/// `ipnet::AddrParseError`, the error of `ipnet`'s parser. It holds nothing
/// to read.
#[verifier::external_type_specification]
#[verifier::external_body]
pub struct ExAddrParseError(ipnet::AddrParseError);

/// The text that `ipnet` writes for the network `addr/len`: the address in
/// the usual notation of its family, a slash, and the length in decimal.
pub uninterp spec fn prefix_text(addr: IpAddress, len: u8) -> Seq<char>;

/// What `ipnet` reads from a text in CIDR notation: the address and the
/// length as written, or nothing where the text is not in that notation.
pub uninterp spec fn parsed_prefix(text: Seq<char>) -> Option<(IpAddress, u8)>;

/// `Display` of `ipnet::IpNet`, through `to_string`. The text depends on the
/// address and the length alone; the contract gives it a name and says no
/// more of it.
#[verifier::external_body]
fn ip_net_to_string(addr: IpAddress, len: u8) -> (r: String)
    requires
        len <= addr.spec_bit_width(),
    ensures
        r@ == prefix_text(addr, len),
{
    match addr {
        IpAddress::V4(a) => ipnet::IpNet::from(ipnet::Ipv4Net::new_assert(a.into(), len)).to_string(),
        IpAddress::V6(a) => ipnet::IpNet::from(ipnet::Ipv6Net::new_assert(a.into(), len)).to_string(),
    }
}

/// `FromStr` of `ipnet::IpNet`. What is read depends on the text alone; the
/// contract gives it a name and says no more of it.
#[verifier::external_body]
fn ip_net_from_str(text: &str) -> (r: Result<(IpAddress, u8), ipnet::AddrParseError>)
    ensures
        r is Ok <==> parsed_prefix(text@) is Some,
        r is Ok ==> parsed_prefix(text@) == Some(r->Ok_0),
{
    match text.parse::<ipnet::IpNet>() {
        Ok(ipnet::IpNet::V4(net)) => Ok((IpAddress::V4(net.addr().into()), net.prefix_len())),
        Ok(ipnet::IpNet::V6(net)) => Ok((IpAddress::V6(net.addr().into()), net.prefix_len())),
        Err(e) => Err(e),
    }
}

/// An IPv4 network holds exactly the addresses that agree with its own
/// address on the bits under the network mask.
pub proof fn lemma_contains_v4_is_mask_match(addr: u32, len: u8, host: u32)
    by (bit_vector)
    requires
        len <= 32,
    ensures
        contains_v4(addr, len, host) <==> (host & netmask_v4(len)) == (addr & netmask_v4(len)),
{
}

/// An IPv6 network holds exactly the addresses that agree with its own
/// address on the bits under the network mask.
pub proof fn lemma_contains_v6_is_mask_match(addr: u128, len: u8, host: u128)
    by (bit_vector)
    requires
        len <= 128,
    ensures
        contains_v6(addr, len, host) <==> (host & netmask_v6(len)) == (addr & netmask_v6(len)),
{
}

/// Clearing the host bits of an IPv4 address a second time changes nothing,
/// and the network so named holds the address it was made from.
pub proof fn lemma_network_v4_holds_address(addr: u32, len: u8)
    by (bit_vector)
    requires
        len <= 32,
    ensures
        network_v4(network_v4(addr, len), len) == network_v4(addr, len),
        contains_v4(network_v4(addr, len), len, addr),
{
}

/// Clearing the host bits of an IPv6 address a second time changes nothing,
/// and the network so named holds the address it was made from.
pub proof fn lemma_network_v6_holds_address(addr: u128, len: u8)
    by (bit_vector)
    requires
        len <= 128,
    ensures
        network_v6(network_v6(addr, len), len) == network_v6(addr, len),
        contains_v6(network_v6(addr, len), len, addr),
{
}

/// For either family: the network that an address lies in has no host bit
/// set, and holds that address.
pub proof fn lemma_network_holds_address(addr: IpAddress, len: u8)
    requires
        len <= addr.spec_bit_width(),
    ensures
        network_of(network_of(addr, len), len) == network_of(addr, len),
        network_contains(network_of(addr, len), len, addr),
{
    match addr {
        IpAddress::V4(a) => lemma_network_v4_holds_address(a, len),
        IpAddress::V6(a) => lemma_network_v6_holds_address(a, len),
    }
}

/// Whether a network holds an address does not depend on the host bits of
/// the address that the network is written with.
pub proof fn lemma_contains_ignores_host_bits(addr: IpAddress, len: u8, host: IpAddress)
    requires
        len <= addr.spec_bit_width(),
    ensures
        network_contains(network_of(addr, len), len, host) == network_contains(addr, len, host),
{
    match (addr, host) {
        (IpAddress::V4(a), IpAddress::V4(h)) => {
            lemma_network_v4_holds_address(a, len);
            lemma_contains_v4_is_mask_match(a, len, h);
            lemma_contains_v4_is_mask_match(network_v4(a, len), len, h);
        },
        (IpAddress::V6(a), IpAddress::V6(h)) => {
            lemma_network_v6_holds_address(a, len);
            lemma_contains_v6_is_mask_match(a, len, h);
            lemma_contains_v6_is_mask_match(network_v6(a, len), len, h);
        },
        _ => {},
    }
}

/// A network in CIDR form: its first address and the number of leading bits
/// that every address in it shares. The length never exceeds the width of
/// the address family, and no bit of the address below the prefix is set.
#[derive(Clone, Copy, Debug, PartialEq, Eq, Structural)]
pub struct NetworkPrefix {
    addr: IpAddress,
    len: u8,
}

impl NetworkPrefix {
    /// The first address of the network.
    pub closed spec fn spec_addr(&self) -> IpAddress {
        self.addr
    }

    /// The number of leading bits that the network fixes.
    pub closed spec fn spec_prefix_len(&self) -> u8 {
        self.len
    }

    /// The length fits the address family, and the address has no bit set
    /// below the prefix. Every value that executable code holds is such.
    pub open spec fn wf(&self) -> bool {
        &&& self.spec_prefix_len() <= self.spec_addr().spec_bit_width()
        &&& self.spec_addr() == network_of(self.spec_addr(), self.spec_prefix_len())
    }

    #[verifier::type_invariant]
    spec fn inv(self) -> bool {
        self.wf()
    }

    /// Whether `host` is an address of this network.
    pub open spec fn spec_contains(&self, host: IpAddress) -> bool {
        network_contains(self.spec_addr(), self.spec_prefix_len(), host)
    }

    /// The network in CIDR notation, as `to_text` writes it.
    pub open spec fn spec_text(&self) -> Seq<char> {
        prefix_text(self.spec_addr(), self.spec_prefix_len())
    }

    /// Builds the network that `a` lies in under a prefix of `m` bits. The
    /// bits of `a` below the prefix are dropped, so that the result names the
    /// network and not one host in it. Fails when `m` is more than the
    /// family's width: 32 for IPv4, 128 for IPv6.
    pub fn new(a: IpAddress, m: u8) -> (r: Result<NetworkPrefix, ZTError>)
        ensures
            r is Ok <==> m <= a.spec_bit_width(),
            r is Err ==> r->Err_0 == ZTError::InvalidPrefixLength,
            r is Ok ==> {
                &&& r->Ok_0.spec_addr() == network_of(a, m)
                &&& r->Ok_0.spec_prefix_len() == m
                &&& r->Ok_0.wf()
                &&& r->Ok_0.spec_contains(a)
            },
    {
        proof {
            if m <= a.spec_bit_width() {
                lemma_network_holds_address(a, m);
            }
        }
        match a {
            IpAddress::V4(bits) => match ipv4_net_new(bits, m) {
                Ok((addr, len)) => Ok(
                    NetworkPrefix { addr: IpAddress::V4(ipv4_net_network(addr, len)), len },
                ),
                Err(_) => Err(ZTError::InvalidPrefixLength),
            },
            IpAddress::V6(bits) => match ipv6_net_new(bits, m) {
                Ok((addr, len)) => Ok(
                    NetworkPrefix { addr: IpAddress::V6(ipv6_net_network(addr, len)), len },
                ),
                Err(_) => Err(ZTError::InvalidPrefixLength),
            },
        }
    }

    /// Reads a network from CIDR notation, such as `10.1.0.0/16`. Host bits
    /// that the text has set are dropped, as `new` drops them. Gives nothing
    /// where the text is not in that notation.
    pub fn parse(text: &str) -> (r: Option<NetworkPrefix>)
        ensures
            r is Some <==> (parsed_prefix(text@) matches Some((addr, len)) && len
                <= addr.spec_bit_width()),
            r matches Some(net) ==> parsed_prefix(text@) matches Some((addr, len)) && {
                &&& net.spec_addr() == network_of(addr, len)
                &&& net.spec_prefix_len() == len
                &&& net.wf()
            },
    {
        match ip_net_from_str(text) {
            Ok((addr, len)) => match NetworkPrefix::new(addr, len) {
                Ok(net) => Some(net),
                Err(_) => None,
            },
            Err(_) => None,
        }
    }

    /// The network in CIDR notation: its first address, a slash, and the
    /// prefix length.
    pub fn to_text(&self) -> (text: String)
        ensures
            text@ == self.spec_text(),
    {
        proof {
            use_type_invariant(self);
        }
        ip_net_to_string(self.addr, self.len)
    }

    /// The first address of the network.
    #[verifier::when_used_as_spec(spec_addr)]
    pub fn addr(&self) -> (a: IpAddress)
        ensures
            a == self.spec_addr(),
            self.wf(),
    {
        proof {
            use_type_invariant(self);
        }
        self.addr
    }

    /// The prefix length, at most the width of the address family.
    #[verifier::when_used_as_spec(spec_prefix_len)]
    pub fn prefix_len(&self) -> (m: u8)
        ensures
            m == self.spec_prefix_len(),
            self.wf(),
    {
        proof {
            use_type_invariant(self);
        }
        self.len
    }

    /// Whether `host` is an address of this network.
    #[verifier::when_used_as_spec(spec_contains)]
    pub fn contains(&self, host: IpAddress) -> (r: bool)
        ensures
            r == self.spec_contains(host),
    {
        proof {
            use_type_invariant(self);
        }
        match (self.addr, host) {
            (IpAddress::V4(a), IpAddress::V4(h)) => ipv4_net_contains(a, self.len, h),
            (IpAddress::V6(a), IpAddress::V6(h)) => ipv6_net_contains(a, self.len, h),
            _ => false,
        }
    }
}

/// A network is known by its first address and its length: two that agree
/// on both are the same.
pub proof fn lemma_prefix_determined(p: NetworkPrefix, q: NetworkPrefix)
    requires
        p.spec_addr() == q.spec_addr(),
        p.spec_prefix_len() == q.spec_prefix_len(),
    ensures
        p == q,
{
}

/// Two networks of one length that each hold the other's first address are
/// the same network.
pub proof fn lemma_same_network(p: NetworkPrefix, q: NetworkPrefix)
    requires
        p.wf(),
        q.wf(),
        p.spec_prefix_len() == q.spec_prefix_len(),
        p.spec_contains(q.spec_addr()),
    ensures
        p == q,
{
    let len = p.spec_prefix_len();
    match (p.spec_addr(), q.spec_addr()) {
        (IpAddress::V4(a), IpAddress::V4(b)) => {
            lemma_contains_v4_is_mask_match(a, len, b);
        },
        (IpAddress::V6(a), IpAddress::V6(b)) => {
            lemma_contains_v6_is_mask_match(a, len, b);
        },
        _ => {},
    }
}

} // verus!
