use vstd::prelude::*;
use crate::address::IpAddress;
use crate::error::ZTError;
use crate::mode::AssignMode;
use crate::pools::IpAssignmentPools;
use crate::prefix::NetworkPrefix;
use crate::routes::Routes;
use crate::rules::Rules;

verus! {

/// A network as the controller's management interface describes it.
#[derive(Debug, PartialEq, Eq)]
pub struct RootInterface {
    pub auth: Option<String>,
    pub name: Option<String>,
    pub private: bool,
    /// Assigned by the controller; absent until the network exists there.
    pub id: Option<String>,
    /// The identifier of an existing network that this configuration adds to.
    pub nwid: Option<String>,
    pub allow_passive_bridging: bool,
    pub v4_assign_mode: AssignMode,
    pub v6_assign_mode: AssignMode,
    pub routes: Vec<Routes>,
    pub ip_assignment_pools: Vec<IpAssignmentPools>,
    pub rules: Vec<Rules>,
    pub capabilities: Option<Vec<Rules>>,
    pub tags: Option<Vec<Rules>>,
}

/// Some route of `routes` leads to a network that holds `gw`.
pub open spec fn has_carrier(routes: Seq<Routes>, gw: IpAddress) -> bool {
    exists|j: int| 0 <= j < routes.len() && #[trigger] routes[j].target.spec_contains(gw)
}

/// Route `i` is directly connected, or its gateway lies in a network that
/// some route of `routes` leads to. Route `i` itself may be that route.
pub open spec fn route_reachable(routes: Seq<Routes>, i: int) -> bool {
    routes[i].via matches Some(gw) ==> has_carrier(routes, gw)
}

/// Every route of `routes` is reachable.
pub open spec fn routes_valid(routes: Seq<Routes>) -> bool {
    forall|i: int| 0 <= i < routes.len() ==> #[trigger] route_reachable(routes, i)
}

/// Route `i` is the first of `routes` that is not reachable.
pub open spec fn first_unreachable(routes: Seq<Routes>, i: int) -> bool {
    &&& 0 <= i < routes.len()
    &&& !route_reachable(routes, i)
    &&& forall|k: int| 0 <= k < i ==> #[trigger] route_reachable(routes, k)
}

impl RootInterface {
    /// Everything that `default` and `with` set alike: no credentials, no
    /// identifier given by the controller, no bridging, IPv4 addresses
    /// assigned and IPv6 not, one rule that is `Rules::default()`, no
    /// capabilities and no tags.
    pub open spec fn has_default_settings(&self) -> bool {
        &&& self.auth is None
        &&& self.id is None
        &&& !self.allow_passive_bridging
        &&& self.v4_assign_mode == AssignMode::Zt
        &&& self.v6_assign_mode == AssignMode::Disabled
        &&& self.rules@.len() == 1
        &&& self.rules@[0].is_default()
        &&& self.capabilities is None
        &&& self.tags is None
    }

    /// Index of the first route whose network holds `gw`, if there is one.
    pub fn carrier_of(&self, gw: IpAddress) -> (r: Option<usize>)
        ensures
            r is Some <==> has_carrier(self.routes@, gw),
            r matches Some(j) ==> {
                &&& j < self.routes@.len()
                &&& self.routes@[j as int].target.spec_contains(gw)
                &&& forall|k: int| 0 <= k < j ==> !#[trigger] self.routes@[k].target.spec_contains(gw)
            },
    {
        let mut j: usize = 0;
        while j < self.routes.len()
            invariant
                j <= self.routes@.len(),
                forall|k: int| 0 <= k < j ==> !#[trigger] self.routes@[k].target.spec_contains(gw),
            decreases self.routes@.len() - j,
        {
            if self.routes[j].target.contains(gw) {
                return Some(j);
            }
            j += 1;
        }
        None
    }

    /// Checks that every route with a gateway can reach it: the gateway must
    /// be an address of the target network of some route of this
    /// configuration. A route without a gateway needs nothing, so a
    /// configuration without routes passes. On failure the error names the
    /// first route whose gateway no network holds.
    pub fn verify_routes(&self) -> (r: Result<(), ZTError>)
        ensures
            r is Ok <==> routes_valid(self.routes@),
            r matches Err(e) ==> {
                &&& e matches ZTError::NoCarryingNetworkForGateway { route_index }
                &&& first_unreachable(self.routes@, route_index as int)
            },
    {
        let mut i: usize = 0;
        while i < self.routes.len()
            invariant
                i <= self.routes@.len(),
                forall|k: int| 0 <= k < i ==> #[trigger] route_reachable(self.routes@, k),
            decreases self.routes@.len() - i,
        {
            match self.routes[i].via {
                Some(gw) => {
                    if self.carrier_of(gw).is_none() {
                        assert(!route_reachable(self.routes@, i as int));
                        return Err(ZTError::NoCarryingNetworkForGateway { route_index: i });
                    }
                },
                None => {},
            }
            i += 1;
        }
        Ok(())
    }

    /// Builds the network that `a` lies in under a prefix of `m` bits; see
    /// `NetworkPrefix::new`.
    pub fn new_ipnet(a: IpAddress, m: u8) -> (r: Result<NetworkPrefix, ZTError>)
        ensures
            r is Ok <==> m <= a.spec_bit_width(),
            r is Err ==> r->Err_0 == ZTError::InvalidPrefixLength,
            r is Ok ==> {
                &&& r->Ok_0.spec_addr() == crate::prefix::network_of(a, m)
                &&& r->Ok_0.spec_prefix_len() == m
                &&& r->Ok_0.wf()
                &&& r->Ok_0.spec_contains(a)
            },
    {
        NetworkPrefix::new(a, m)
    }

    /// A network named `n` (or unnamed), private if `p` says so, whose
    /// addresses are handed out from `s` to `e`, with one directly connected
    /// route to the network that `s` lies in under a prefix of `m` bits.
    /// Everything else is as in `default`. `nwid` names an existing network
    /// to add to; the identifier that the controller assigns stays unset.
    /// The configuration that comes out has no gateway, so it is valid.
    pub fn with(
        n: Option<String>,
        p: bool,
        s: IpAddress,
        e: IpAddress,
        m: u8,
        nwid: Option<String>,
    ) -> (r: RootInterface)
        requires
            m <= s.spec_bit_width(),
        ensures
            r.name == n,
            r.private == p,
            r.nwid == nwid,
            r.routes@.len() == 1,
            r.routes@[0].is_direct_to(s, m),
            r.ip_assignment_pools@ == seq![
                (IpAssignmentPools { ip_range_start: s, ip_range_end: e }),
            ],
            r.has_default_settings(),
            routes_valid(r.routes@),
    {
        let subnet = RootInterface::new_ipnet(s, m);
        let route = Routes::direct(subnet.unwrap());

        let mut pool = IpAssignmentPools::default();
        pool.set_range(s, e);

        let mut r = RootInterface::default();
        r.nwid = nwid;
        r.name = n;
        r.private = p;
        r.ip_assignment_pools = vec![pool];
        r.routes = vec![route];
        proof {
            lemma_no_gateway_is_valid(r.routes@);
        }
        r
    }
}

impl Default for RootInterface {
    /// A private network named `tfnet` on the IPv4 link-local block.
    fn default() -> (r: RootInterface)
        ensures
            r.name matches Some(name) && name@ == "tfnet"@,
            r.private,
            r.nwid is None,
            r.routes@.len() == 1,
            r.routes@[0].is_default(),
            r.ip_assignment_pools@ == seq![IpAssignmentPools::spec_default()],
            r.has_default_settings(),
            routes_valid(r.routes@),
    {
        let r = RootInterface {
            auth: None,
            name: Some("tfnet".to_owned()),
            private: true,
            id: None,
            nwid: None,
            allow_passive_bridging: false,
            v4_assign_mode: AssignMode::Zt,
            v6_assign_mode: AssignMode::Disabled,
            routes: vec![Routes::default()],
            ip_assignment_pools: vec![IpAssignmentPools::default()],
            rules: vec![Rules::default()],
            capabilities: None,
            tags: None,
        };
        proof {
            lemma_no_gateway_is_valid(r.routes@);
        }
        r
    }
}

/// Where no route has a gateway there is nothing to reach: the routes are
/// valid, and so is a configuration without any route.
pub proof fn lemma_no_gateway_is_valid(routes: Seq<Routes>)
    requires
        forall|i: int| 0 <= i < routes.len() ==> (#[trigger] routes[i]).via is None,
    ensures
        routes_valid(routes),
{
    assert forall|i: int| 0 <= i < routes.len() implies #[trigger] route_reachable(routes, i) by {
        assert(routes[i].via is None);
    }
}

/// A gateway that lies in the target of any route of the same list is
/// reachable, whichever route that is.
pub proof fn lemma_gateway_in_target_is_reachable(routes: Seq<Routes>, i: int, j: int)
    requires
        0 <= i < routes.len(),
        0 <= j < routes.len(),
        routes[i].via matches Some(gw) && routes[j].target.spec_contains(gw),
    ensures
        route_reachable(routes, i),
{
}

/// Routes that are valid stay valid when a route is added whose gateway, if
/// it has one, lies in the target of a route already there or in its own.
pub proof fn lemma_push_keeps_valid(routes: Seq<Routes>, added: Routes)
    requires
        routes_valid(routes),
        added.via matches Some(gw) ==> has_carrier(routes, gw) || added.target.spec_contains(gw),
    ensures
        routes_valid(routes.push(added)),
{
    let all = routes.push(added);
    assert forall|i: int| 0 <= i < all.len() implies #[trigger] route_reachable(all, i) by {
        if let Some(gw) = all[i].via {
            if i < routes.len() {
                assert(route_reachable(routes, i));
            }
            if has_carrier(routes, gw) {
                let j = choose|j: int| 0 <= j < routes.len() && #[trigger] routes[j].target.spec_contains(gw);
                assert(all[j].target.spec_contains(gw));
            } else {
                assert(all[routes.len() as int].target.spec_contains(gw));
            }
        }
    }
}

} // verus!
