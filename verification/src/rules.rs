use vstd::prelude::*;

verus! {

/// Ether type of IPv4 frames.
pub const ZT_ETHERTYPE_IPV4: u16 = 0x0800;

/// Ether type of ARP frames.
pub const ZT_ETHERTYPE_ARP: u16 = 0x0806;

/// Ether type of IPv6 frames.
pub const ZT_ETHERTYPE_IPV6: u16 = 0x86dd;

/// What kind of frame an ether type names.
#[derive(Clone, Copy, Debug, PartialEq, Eq, Structural)]
pub enum EtherType {
    Ipv4,
    Arp,
    Ipv6,
    /// A code that has no name here, kept as it is.
    Other(u16),
}

impl EtherType {
    /// The code that stands for this kind in a frame.
    pub open spec fn spec_code(&self) -> u16 {
        match *self {
            EtherType::Ipv4 => ZT_ETHERTYPE_IPV4,
            EtherType::Arp => ZT_ETHERTYPE_ARP,
            EtherType::Ipv6 => ZT_ETHERTYPE_IPV6,
            EtherType::Other(code) => code,
        }
    }

    /// The kind that a code stands for.
    pub open spec fn of_code(code: u16) -> EtherType {
        if code == ZT_ETHERTYPE_IPV4 {
            EtherType::Ipv4
        } else if code == ZT_ETHERTYPE_ARP {
            EtherType::Arp
        } else if code == ZT_ETHERTYPE_IPV6 {
            EtherType::Ipv6
        } else {
            EtherType::Other(code)
        }
    }

    /// `Other` holds no code that has a name.
    pub open spec fn is_canonical(&self) -> bool {
        *self matches EtherType::Other(code) ==> {
            &&& code != ZT_ETHERTYPE_IPV4
            &&& code != ZT_ETHERTYPE_ARP
            &&& code != ZT_ETHERTYPE_IPV6
        }
    }

    /// The code that stands for this kind in a frame.
    #[verifier::when_used_as_spec(spec_code)]
    pub fn code(&self) -> (code: u16)
        ensures
            code == self.spec_code(),
    {
        match self {
            EtherType::Ipv4 => ZT_ETHERTYPE_IPV4,
            EtherType::Arp => ZT_ETHERTYPE_ARP,
            EtherType::Ipv6 => ZT_ETHERTYPE_IPV6,
            EtherType::Other(code) => *code,
        }
    }

    /// The kind that a code stands for; a code without a name comes back as
    /// `Other`.
    pub fn from_code(code: u16) -> (kind: EtherType)
        ensures
            kind == EtherType::of_code(code),
            kind.spec_code() == code,
            kind.is_canonical(),
    {
        if code == ZT_ETHERTYPE_IPV4 {
            EtherType::Ipv4
        } else if code == ZT_ETHERTYPE_ARP {
            EtherType::Arp
        } else if code == ZT_ETHERTYPE_IPV6 {
            EtherType::Ipv6
        } else {
            EtherType::Other(code)
        }
    }
}

/// Reading a kind back from its own code gives the same kind, unless it is
/// an `Other` that holds a code with a name.
pub proof fn lemma_ether_type_round_trip(kind: EtherType)
    requires
        kind.is_canonical(),
    ensures
        EtherType::of_code(kind.spec_code()) == kind,
{
}

/// One packet-filter predicate. The controller reads a network's rules in
/// order, top to bottom; what they mean is the controller's business.
#[derive(Debug, PartialEq, Eq)]
pub struct Rules {
    /// Ether type that the rule matches.
    pub ethtype: u16,
    /// The match is inverted.
    pub rnot: bool,
    /// The rule is joined to the next one by "or".
    pub ror: bool,
    /// The tag of the rule's kind or action.
    pub rtype: String,
}

impl Rules {
    /// The rule that `Default` gives: ether type 0, no flag, an empty tag.
    pub open spec fn is_default(&self) -> bool {
        &&& self.ethtype == 0
        &&& !self.rnot
        &&& !self.ror
        &&& self.rtype@ == Seq::<char>::empty()
    }

    /// The kind of frame that the rule matches.
    pub fn ether_type(&self) -> (kind: EtherType)
        ensures
            kind == EtherType::of_code(self.ethtype),
    {
        EtherType::from_code(self.ethtype)
    }

    /// Create a rule.
    pub fn with(e: u16, n: bool, o: bool, t: String) -> (r: Rules)
        ensures
            r.ethtype == e,
            r.rnot == n,
            r.ror == o,
            r.rtype == t,
    {
        Rules { ethtype: e, rnot: n, ror: o, rtype: t }
    }
}

impl Default for Rules {
    fn default() -> (r: Rules)
        ensures
            r.is_default(),
    {
        Rules { ethtype: 0, rnot: false, ror: false, rtype: String::new() }
    }
}

} // verus!
