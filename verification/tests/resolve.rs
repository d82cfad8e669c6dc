use nftablesbuilder::model::{
    ChainData, ConfigurationItems, Family, HostData, HostGroupData, InterfaceData, NetworkData,
    ServiceData, Transport,
};
use nftablesbuilder::resolve::{
    addresses_from_definition, chain_on_loopback, control_services, control_types_of, get_chain,
    get_interface,
    icmpv4_types_from_services, interface_is_loopback, icmpv6_types_from_services, ipv4addresses_from_def,
    ipv6addresses_from_def, ports_of, resolve_addresses, tcp_ports_from_services,
    udp_ports_from_services, CompileError,
};
use nftablesbuilder::rule::resolve_rule;

fn s(text: &str) -> String {
    String::from(text)
}

fn strings(items: &[&str]) -> Vec<String> {
    items.iter().map(|s| String::from(*s)).collect()
}

fn host(name: &str, ipv4: &[&str], ipv6: &[&str]) -> HostData {
    HostData { name: s(name), ipv4: strings(ipv4), ipv6: strings(ipv6) }
}

fn service(name: &str, protocol: &str, port: u16) -> ServiceData {
    ServiceData { name: s(name), port, protocol: s(protocol) }
}

fn chain(name: &str, iface_in: &str, iface_out: &str) -> ChainData {
    ChainData {
        name: s(name),
        filter: true,
        snat: false,
        dnat: false,
        iface_in: s(iface_in),
        iface_out: s(iface_out),
        direction: s("forward"),
        policy: s("drop"),
    }
}

fn policy() -> ConfigurationItems {
    ConfigurationItems {
        interfaces: vec![
            InterfaceData { name: s("lo"), systemname: s("lo0"), loopback: true },
            InterfaceData { name: s("lan"), systemname: s("eth0"), loopback: false },
        ],
        hosts: vec![
            host("web", &["10.0.0.1", "10.0.0.2"], &["fd00::1"]),
            host("db", &["10.0.0.2", "10.0.0.3"], &[]),
            host("both", &["10.9.9.9"], &["fd00::9"]),
            host("web", &["192.168.0.1"], &[]),
        ],
        hostgroups: vec![
            HostGroupData { name: s("servers"), hosts: strings(&["web", "ghost", "db", "web"]) },
            HostGroupData { name: s("both"), hosts: strings(&["db", "both"]) },
        ],
        ipv4networks: vec![
            NetworkData { name: s("office"), address: s("10.1.0.0/16") },
            NetworkData { name: s("both"), address: s("10.9.9.9") },
        ],
        ipv6networks: vec![NetworkData { name: s("office"), address: s("fd01::/64") }],
        services: vec![
            service("ssh", "TCP", 22),
            service("dns", "UDP", 53),
            service("dns-any", "TCP/UDP", 53),
            service("ping", "ICMP", 8),
            service("ICMPv4 Type 8", "ICMPv4", 8),
        ],
        chains: vec![chain("C", "lan", "-")],
        inactive_defaults: vec![],
        filters: vec![],
        pre: s(""),
        post: s(""),
        snat: vec![],
        dnat: vec![],
        logging: s("off"),
    }
}

#[test]
fn a_host_resolves_to_its_addresses() {
    let p = policy();
    assert_eq!(ipv4addresses_from_def(&p, &s("web")), strings(&["10.0.0.1", "10.0.0.2"]));
    assert_eq!(ipv6addresses_from_def(&p, &s("web")), strings(&["fd00::1"]));
    assert_eq!(ipv6addresses_from_def(&p, &s("db")), Vec::<String>::new());
}

#[test]
fn a_group_resolves_to_its_members_each_address_once() {
    let p = policy();
    assert_eq!(
        ipv4addresses_from_def(&p, &s("servers")),
        strings(&["10.0.0.1", "10.0.0.2", "10.0.0.3"])
    );
    assert_eq!(ipv6addresses_from_def(&p, &s("servers")), strings(&["fd00::1"]));
}

#[test]
fn a_network_resolves_to_its_range_in_its_family() {
    let p = policy();
    assert_eq!(ipv4addresses_from_def(&p, &s("office")), strings(&["10.1.0.0/16"]));
    assert_eq!(ipv6addresses_from_def(&p, &s("office")), strings(&["fd01::/64"]));
}

#[test]
fn a_name_of_several_kinds_resolves_host_then_group_then_network() {
    let p = policy();
    assert_eq!(
        ipv4addresses_from_def(&p, &s("both")),
        strings(&["10.9.9.9", "10.0.0.2", "10.0.0.3"])
    );
    assert_eq!(ipv6addresses_from_def(&p, &s("both")), strings(&["fd00::9"]));
}

#[test]
fn an_unknown_name_resolves_to_nothing() {
    let p = policy();
    assert_eq!(ipv4addresses_from_def(&p, &s("nobody")), Vec::<String>::new());
    assert_eq!(addresses_from_definition(&p, "", Family::V6), Vec::<String>::new());
}

#[test]
fn a_list_of_names_resolves_in_first_seen_order() {
    let p = policy();
    assert_eq!(
        resolve_addresses(&p, &strings(&["db", "office", "web", "db"]), Family::V4),
        strings(&["10.0.0.2", "10.0.0.3", "10.1.0.0/16", "10.0.0.1"])
    );
    assert_eq!(resolve_addresses(&p, &strings(&[]), Family::V4), Vec::<String>::new());
}

#[test]
fn services_give_ports_by_protocol() {
    let p = policy();
    let names = strings(&["ssh", "dns", "dns-any", "ping", "unknown", "ssh"]);
    assert_eq!(tcp_ports_from_services(&p, &names), strings(&["22", "22"]));
    assert_eq!(udp_ports_from_services(&p, &names), strings(&["53"]));
    assert_eq!(ports_of(&p, &strings(&["ping"]), Transport::Tcp), Vec::<String>::new());
}

#[test]
fn a_service_of_no_known_protocol_gives_no_port() {
    let mut p = policy();
    p.services = vec![
        service("x", "TCP/UDP", 9),
        service("y", "SCTP", 7),
        service("z", "tcp", 5),
        service("w", " UDP", 3),
        service("v", "", 1),
    ];
    let names = strings(&["x", "y", "z", "w", "v"]);
    assert_eq!(tcp_ports_from_services(&p, &names), Vec::<String>::new());
    assert_eq!(udp_ports_from_services(&p, &names), Vec::<String>::new());
}

#[test]
fn service_names_give_control_message_types() {
    let names = strings(&[
        "ICMPv4 Type 8",
        "ssh",
        "ICMPv4 Type ",
        "ICMPv6 Type 128",
        "ICMPv4 Type 3 4",
        "ICMPv4 Type",
        "xICMPv4 Type 1",
        "ICMPv4 Type 8",
    ]);
    assert_eq!(icmpv4_types_from_services(&names), strings(&["8", "", "3 4", "8"]));
    assert_eq!(icmpv6_types_from_services(&names), strings(&["128"]));
    assert_eq!(icmpv4_types_from_services(&strings(&[])), Vec::<String>::new());
}

#[test]
fn a_rule_resolves_all_its_names() {
    let p = policy();
    let r = resolve_rule(
        &p,
        &strings(&["web", "office"]),
        &strings(&["ssh", "ICMPv4 Type 8", "ICMPv6 Type 1"]),
        &strings(&["db"]),
        &strings(&["dns", "ICMPv4 Type 8", "ICMPv4 Type 0"]),
    );
    assert_eq!(r.src4, strings(&["10.0.0.1", "10.0.0.2", "10.1.0.0/16"]));
    assert_eq!(r.src6, strings(&["fd00::1", "fd01::/64"]));
    assert_eq!(r.dst4, strings(&["10.0.0.2", "10.0.0.3"]));
    assert_eq!(r.dst6, Vec::<String>::new());
    assert_eq!(r.src_tcp, strings(&["22"]));
    assert_eq!(r.src_udp, Vec::<String>::new());
    assert_eq!(r.dst_tcp, Vec::<String>::new());
    assert_eq!(r.dst_udp, strings(&["53"]));
    assert_eq!(r.types4, strings(&["8", "0"]));
    assert_eq!(r.types6, strings(&["1"]));
    assert!(r.has_port());
    assert!(r.has_service());
}

#[test]
fn interfaces_and_chains_are_looked_up_by_name() {
    let p = policy();
    assert_eq!(get_interface(&p, &s("lan")), Ok(s("eth0")));
    assert_eq!(get_interface(&p, &s("wan")), Err(CompileError::InterfaceNotFound(s("wan"))));
    assert_eq!(get_interface(&p, &s("wan")).unwrap_err().message(), "Interface wan not found");
    assert_eq!(get_chain(&p, &s("C")).unwrap().iface_in, "lan");
    assert_eq!(get_chain(&p, &s("D")), Err(CompileError::ChainNotFound(s("D"))));
    assert_eq!(get_chain(&p, &s("D")).unwrap_err().message(), "Chain D not found");
    assert_eq!(get_chain(&p, &s("D")).unwrap_err().name(), "D");
}

#[test]
fn the_first_definition_of_a_name_counts() {
    let p = policy();
    assert_eq!(p.host("web").unwrap().ipv4, strings(&["10.0.0.1", "10.0.0.2"]));
    assert!(p.host("none").is_none());
    assert!(p.network(Family::V6, "both").is_none());
    assert_eq!(p.network(Family::V4, "both").unwrap().address, "10.9.9.9");
    assert_eq!(p.service("dns").unwrap().port, 53);
    assert_eq!(p.hostgroup("both").unwrap().hosts, strings(&["db", "both"]));
    assert_eq!(p.interface("lo").unwrap().systemname, "lo0");
    assert!(p.chain("C").is_some());
}

#[test]
fn a_chain_is_on_loopback_by_either_side() {
    let p = policy();
    assert!(chain_on_loopback(&p, &chain("a", "lo", "-")));
    assert!(chain_on_loopback(&p, &chain("a", "-", "lo")));
    assert!(chain_on_loopback(&p, &chain("a", "lan", "lo")));
    assert!(chain_on_loopback(&p, &chain("a", "lo", "lan")));
    assert!(chain_on_loopback(&p, &chain("a", "lo", "lo")));
    assert!(chain_on_loopback(&p, &chain("a", "missing", "lo")));
    assert!(chain_on_loopback(&p, &chain("a", "lo", "missing")));
    assert!(!chain_on_loopback(&p, &chain("a", "-", "-")));
    assert!(!chain_on_loopback(&p, &chain("a", "missing", "gone")));
    assert!(!chain_on_loopback(&p, &chain("a", "lan", "-")));
    assert!(!chain_on_loopback(&p, &chain("a", "lan", "lan")));
    assert!(interface_is_loopback(&p, "lo"));
    assert!(!interface_is_loopback(&p, "lan"));
    assert!(!interface_is_loopback(&p, "-"));
    assert!(!interface_is_loopback(&p, "missing"));
}

#[test]
fn a_document_that_was_keyed_by_name_holds_no_name_twice() {
    let mut p = policy();
    assert!(!p.has_distinct_names());
    p.hosts.pop();
    assert!(p.has_distinct_names());
    p.chains.push(chain("C", "-", "-"));
    assert!(!p.has_distinct_names());
    p.chains.pop();
    p.ipv6networks.push(NetworkData { name: s("office"), address: s("fd02::/64") });
    assert!(!p.has_distinct_names());
    p.ipv6networks.pop();
    p.ipv4networks.push(NetworkData { name: s("servers"), address: s("10.2.0.0/16") });
    assert!(p.has_distinct_names());
    p.interfaces.push(InterfaceData { name: s("lo"), systemname: s("lo1"), loopback: false });
    assert!(!p.has_distinct_names());
    p.interfaces.pop();
    p.services.push(service("ssh", "UDP", 22));
    assert!(!p.has_distinct_names());
    p.services.pop();
    p.hostgroups.push(HostGroupData { name: s("both"), hosts: vec![] });
    assert!(!p.has_distinct_names());
}

#[test]
fn a_service_is_of_one_kind() {
    let mut p = policy();
    p.services.push(service("ICMPv4 Type 3", "TCP", 3));
    p.services.push(service("ICMPv6 Type 1", "UDP", 1));
    p.services.push(service("ICMPv6 Type 2", "ICMPv6", 2));
    let names = strings(&[
        "ICMPv4 Type 3", "ICMPv4 Type 8", "ICMPv6 Type 1", "ICMPv6 Type 2", "ssh", "ICMPv4 Type 9",
    ]);
    assert_eq!(
        control_services(&p, &names),
        strings(&["ICMPv4 Type 8", "ICMPv6 Type 2", "ICMPv4 Type 9"])
    );
    assert_eq!(control_types_of(&p, &names, Family::V4), strings(&["8", "9"]));
    assert_eq!(control_types_of(&p, &names, Family::V6), strings(&["2"]));
    let r = resolve_rule(&p, &vec![], &names, &vec![], &vec![]);
    assert_eq!(r.src_tcp, strings(&["3", "22"]));
    assert_eq!(r.src_udp, strings(&["1"]));
    assert_eq!(r.types4, strings(&["8", "9"]));
    assert_eq!(r.types6, strings(&["2"]));
}
