use ztproxy::rules::{ZT_ETHERTYPE_ARP, ZT_ETHERTYPE_IPV4, ZT_ETHERTYPE_IPV6};
use ztproxy::{
    AssignMode, EtherType, IpAddress, IpAssignmentPools, NetworkPrefix, RootInterface, Routes,
    Rules,
};

fn v4(a: u8, b: u8, c: u8, d: u8) -> IpAddress {
    IpAddress::v4(a, b, c, d)
}

#[test]
fn default_pool_is_link_local() {
    let p = IpAssignmentPools::default();
    assert_eq!(p.ip_range_start, v4(169, 254, 0, 10));
    assert_eq!(p.ip_range_end, v4(169, 254, 0, 100));
}

#[test]
fn set_range_replaces_both_ends() {
    let mut p = IpAssignmentPools::default();
    p.set_range(v4(10, 10, 10, 10), v4(10, 10, 10, 100));
    assert_eq!(
        p,
        IpAssignmentPools { ip_range_start: v4(10, 10, 10, 10), ip_range_end: v4(10, 10, 10, 100) }
    );
}

#[test]
fn set_range_does_not_ask_for_one_family() {
    let mut p = IpAssignmentPools::default();
    p.set_range(v4(10, 10, 10, 10), IpAddress::V6(1));
    assert_eq!(p.ip_range_start, v4(10, 10, 10, 10));
    assert_eq!(p.ip_range_end, IpAddress::V6(1));
}

#[test]
fn default_route_is_link_local_and_direct() {
    let r = Routes::default();
    assert_eq!(r.target, NetworkPrefix::parse("169.254.0.0/16").unwrap());
    assert_eq!(r.target.addr(), v4(169, 254, 0, 0));
    assert_eq!(r.target.prefix_len(), 16);
    assert_eq!(r.via, None);
    assert_eq!(r.flags, 0);
    assert_eq!(r.metric, 0);
}

#[test]
fn route_with_replaces_target_and_gateway() {
    let mut r = Routes::default();
    r.set_flag(20);
    r.set_metric(7);
    let target = NetworkPrefix::parse("172.16.1.0/24").unwrap();
    r.with(target, Some(v4(10, 10, 10, 254)));
    assert_eq!(r, Routes { target, via: Some(v4(10, 10, 10, 254)), flags: 20, metric: 7 });
}

#[test]
fn set_flag_and_set_metric_touch_one_field() {
    let mut r = Routes::default();
    r.set_flag(20);
    assert_eq!(r, Routes { flags: 20, ..Routes::default() });
    r.set_metric(3);
    assert_eq!(r, Routes { flags: 20, metric: 3, ..Routes::default() });
}

#[test]
fn direct_route_has_no_gateway() {
    let target = NetworkPrefix::parse("10.0.0.0/8").unwrap();
    assert_eq!(Routes::direct(target), Routes { target, via: None, flags: 0, metric: 0 });
}

#[test]
fn rules_with_keeps_its_arguments() {
    let r = Rules::with(ZT_ETHERTYPE_ARP, true, false, "ACTION_DROP".to_string());
    assert_eq!(r.ethtype, 0x0806);
    assert!(r.rnot);
    assert!(!r.ror);
    assert_eq!(r.rtype, "ACTION_DROP");
}

#[test]
fn default_rule_is_empty() {
    assert_eq!(Rules::default(), Rules::with(0, false, false, String::new()));
}

#[test]
fn ether_type_constants() {
    assert_eq!(ZT_ETHERTYPE_IPV4, 0x0800);
    assert_eq!(ZT_ETHERTYPE_ARP, 0x0806);
    assert_eq!(ZT_ETHERTYPE_IPV6, 0x86dd);
}

#[test]
fn default_configuration() {
    let c = RootInterface::default();
    assert_eq!(c.auth, None);
    assert_eq!(c.name, Some("tfnet".to_string()));
    assert!(c.private);
    assert_eq!(c.id, None);
    assert_eq!(c.nwid, None);
    assert!(!c.allow_passive_bridging);
    assert_eq!(c.v4_assign_mode, AssignMode::Zt);
    assert_eq!(c.v6_assign_mode, AssignMode::Disabled);
    assert_eq!(c.routes, vec![Routes::default()]);
    assert_eq!(c.ip_assignment_pools, vec![IpAssignmentPools::default()]);
    assert_eq!(c.rules, vec![Rules::default()]);
    assert_eq!(c.capabilities, None);
    assert_eq!(c.tags, None);
}

#[test]
fn with_builds_the_named_network() {
    let c = RootInterface::with(
        Some("testnet".to_string()),
        true,
        v4(10, 10, 10, 10),
        v4(10, 10, 10, 100),
        24,
        None,
    );
    assert_eq!(c.name, Some("testnet".to_string()));
    assert!(c.private);
    assert_eq!(c.id, None);
    assert_eq!(c.nwid, None);
    assert_eq!(c.routes.len(), 1);
    assert_eq!(c.routes[0].target, NetworkPrefix::parse("10.10.10.0/24").unwrap());
    assert_eq!(c.routes[0].target.to_text(), "10.10.10.0/24");
    assert_eq!(c.routes[0].via, None);
    assert_eq!(c.routes[0].flags, 0);
    assert_eq!(c.routes[0].metric, 0);
    assert_eq!(
        c.ip_assignment_pools,
        vec![IpAssignmentPools {
            ip_range_start: v4(10, 10, 10, 10),
            ip_range_end: v4(10, 10, 10, 100),
        }]
    );
    assert_eq!(c.rules, vec![Rules::default()]);
    assert_eq!(c.v4_assign_mode, AssignMode::Zt);
    assert_eq!(c.v6_assign_mode, AssignMode::Disabled);
    assert_eq!(c.capabilities, None);
    assert_eq!(c.tags, None);
    assert_eq!(c.verify_routes(), Ok(()));
}

#[test]
fn with_attaches_an_existing_network_id() {
    let c = RootInterface::with(
        None,
        false,
        IpAddress::V6((0xfdab_1234 << 96) | 0x0001_0001),
        IpAddress::V6((0xfdab_1234 << 96) | 0x000f_ff00),
        64,
        Some("65a8d1a59587fee4".to_string()),
    );
    assert_eq!(c.name, None);
    assert!(!c.private);
    assert_eq!(c.nwid, Some("65a8d1a59587fee4".to_string()));
    assert_eq!(c.id, None);
    assert_eq!(c.routes[0].target.to_text(), "fdab:1234::/64");
    assert_eq!(c.routes[0].target.addr(), IpAddress::V6(0xfdab_1234 << 96));
}

#[test]
fn assign_mode_wire_names() {
    assert_eq!(AssignMode::Zt.wire_name(), "zt");
    assert_eq!(AssignMode::Disabled.wire_name(), "none");
    assert_eq!(AssignMode::Other("dhcp".to_string()).wire_name(), "dhcp");
}

#[test]
fn assign_mode_from_wire_name() {
    assert_eq!(AssignMode::from_wire_name("zt".to_string()), AssignMode::Zt);
    assert_eq!(AssignMode::from_wire_name("none".to_string()), AssignMode::Disabled);
    assert_eq!(
        AssignMode::from_wire_name("dhcp".to_string()),
        AssignMode::Other("dhcp".to_string())
    );
    assert_eq!(AssignMode::from_wire_name(String::new()), AssignMode::Other(String::new()));
}

#[test]
fn assign_mode_word_survives_a_round_trip() {
    for word in ["zt", "none", "dhcp", "", "ZT"] {
        assert_eq!(AssignMode::from_wire_name(word.to_string()).wire_name(), word);
    }
}

#[test]
fn same_family_tells_mixed_ranges_apart() {
    assert!(IpAssignmentPools::default().same_family());
    let mixed = IpAssignmentPools { ip_range_start: v4(10, 0, 0, 1), ip_range_end: IpAddress::V6(1) };
    assert!(!mixed.same_family());
    let six = IpAssignmentPools { ip_range_start: IpAddress::V6(1), ip_range_end: IpAddress::V6(9) };
    assert!(six.same_family());
    assert!(v4(10, 0, 0, 1).same_family(v4(192, 168, 0, 1)));
    assert!(!IpAddress::V6(1).same_family(v4(192, 168, 0, 1)));
}

#[test]
fn ether_type_names_known_codes() {
    assert_eq!(EtherType::from_code(0x0800), EtherType::Ipv4);
    assert_eq!(EtherType::from_code(0x0806), EtherType::Arp);
    assert_eq!(EtherType::from_code(0x86dd), EtherType::Ipv6);
    assert_eq!(EtherType::from_code(0), EtherType::Other(0));
    assert_eq!(EtherType::from_code(0x8100), EtherType::Other(0x8100));
}

#[test]
fn ether_type_code_round_trip() {
    for code in [0u16, 0x0800, 0x0806, 0x86dd, 0x8100, u16::MAX] {
        assert_eq!(EtherType::from_code(code).code(), code);
    }
    for kind in [EtherType::Ipv4, EtherType::Arp, EtherType::Ipv6, EtherType::Other(7)] {
        assert_eq!(EtherType::from_code(kind.code()), kind);
    }
}

#[test]
fn rule_tells_its_ether_type() {
    assert_eq!(Rules::default().ether_type(), EtherType::Other(0));
    let r = Rules::with(ZT_ETHERTYPE_IPV6, false, true, "MATCH_ETHERTYPE".to_string());
    assert_eq!(r.ether_type(), EtherType::Ipv6);
}
