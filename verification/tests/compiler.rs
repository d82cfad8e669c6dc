use nftablesbuilder::compile::generate_script;
use nftablesbuilder::model::{
    ChainData, ConfigurationItems, FilterRuleData, FilterTableData, HostData, InterfaceData,
    NatRuleData, NatTableData, ServiceData,
};
use nftablesbuilder::resolve::CompileError;

fn s(text: &str) -> String {
    String::from(text)
}

fn empty_policy() -> ConfigurationItems {
    ConfigurationItems {
        interfaces: vec![],
        hosts: vec![],
        hostgroups: vec![],
        ipv4networks: vec![],
        ipv6networks: vec![],
        services: vec![],
        chains: vec![],
        inactive_defaults: vec![],
        filters: vec![],
        pre: s(""),
        post: s(""),
        snat: vec![],
        dnat: vec![],
        logging: s("off"),
    }
}

fn interface(name: &str, systemname: &str, loopback: bool) -> InterfaceData {
    InterfaceData { name: s(name), systemname: s(systemname), loopback }
}

fn chain(name: &str, direction: &str, iface_in: &str, iface_out: &str) -> ChainData {
    ChainData {
        name: s(name),
        filter: true,
        snat: false,
        dnat: false,
        iface_in: s(iface_in),
        iface_out: s(iface_out),
        direction: s(direction),
        policy: s("accept"),
    }
}

fn compile(policy: &ConfigurationItems) -> Vec<String> {
    match generate_script(policy, "/usr/sbin/nft") {
        Ok(lines) => lines,
        Err(e) => panic!("{}", e.message()),
    }
}

const SYN4: &str = "ct state new update @syn_rate_limit_ipv4 { ip saddr limit rate 1/second } ";

#[test]
fn empty_policy_with_one_interface() {
    let mut policy = empty_policy();
    policy.interfaces.push(interface("lan", "eth0", false));
    let expected: Vec<&str> = vec![
        "#!/usr/sbin/nft -f",
        "",
        "#",
        "# Script generated by Nftables Builder",
        "#",
        "",
        "# clear existing ruleset",
        "flush ruleset",
        "",
        "# Filtering rules",
        "table inet filter_inet {",
        "  set syn_rate_limit_ipv4 { type ipv4_addr",
        "    timeout 1s",
        "    flags dynamic",
        "  }",
        "  set syn_rate_limit_ipv6 { type ipv6_addr",
        "    timeout 1s",
        "    flags dynamic",
        "  }",
        "  set icmp_rate_limit_ipv4 { type ipv4_addr",
        "    timeout 1s",
        "    flags dynamic",
        "  }",
        "  set icmp_rate_limit_ipv6 { type ipv6_addr",
        "    timeout 1s",
        "    flags dynamic",
        "  }",
        "  chain all_input {",
        "    type filter hook input priority filter;",
        "  }",
        "  chain all_forward {",
        "    type filter hook forward priority filter;",
        "  }",
        "  chain all_output {",
        "    type filter hook output priority filter;",
        "  }",
        "}",
        "",
        "# SNat rules",
        "table inet snat_inet {",
        "}",
        "",
        "# DNat rules",
        "table inet dnat_inet {",
        "}",
        "",
        "# Netdev rules",
        "table netdev filter_netdev {",
        "  chain ingress {",
        "    type filter hook ingress device eth0 priority -500;",
        "    # Invalid TCP flags",
        "    tcp flags & (fin|psh|urg) == fin|psh|urg drop",
        "    tcp flags & (syn|urg|ack|fin|rst) == 0 drop",
        "    tcp flags & (fin|rst) == fin|rst drop",
        "    tcp flags & (syn|rst) == syn|rst drop",
        "    tcp flags & (syn|fin) == syn|fin drop",
        "    tcp flags & (rst|urg) == rst|urg drop",
        "    tcp flags & (syn|urg|ack|fin|rst) == fin drop",
        "    tcp flags & (syn|urg|ack|fin|rst) == urg drop",
        "    tcp flags & (syn|urg|ack|fin|rst) == fin|urg drop",
        "    tcp flags & (syn|urg|ack|fin|rst) == syn|urg|ack drop",
        "    # Invalid mss",
        "    tcp flags syn tcp option maxseg size 1-525 drop",
        "  }",
        "}",
    ];
    assert_eq!(compile(&policy), expected);
}

#[test]
fn one_filter_rule_with_host_and_tcp_service() {
    let mut policy = empty_policy();
    policy.interfaces.push(interface("lan", "eth0", false));
    policy.hosts.push(HostData { name: s("H"), ipv4: vec![s("1.2.3.4")], ipv6: vec![] });
    policy.services.push(ServiceData { name: s("ssh"), port: 22, protocol: s("TCP") });
    policy.chains.push(chain("C", "input", "lan", "-"));
    policy.filters.push(FilterTableData {
        chain: s("C"),
        policy: s("accept"),
        rules: vec![FilterRuleData {
            source: vec![s("H")],
            sourceservice: vec![s("ssh")],
            destination: vec![],
            destinationservice: vec![],
            action: s("accept"),
            comment: s(""),
            active: true,
        }],
        deleted: false,
    });
    let script = compile(&policy);
    let open = script.iter().position(|l| l == "  chain C {").unwrap();
    let close = open + script[open..].iter().position(|l| l == "  }").unwrap();
    let body: Vec<&String> = script[open + 1..close].iter().collect();
    let rule = format!(
        "    meta nfproto ipv4 ip saddr {{ 1.2.3.4 }} tcp sport {{ 22 }} {} accept ",
        SYN4
    );
    let expected: Vec<String> = vec![
        s("    meta nfproto ipv4 update @C_dest_ipv4 { ip daddr }"),
        s("    meta nfproto ipv4 ip saddr @C_dest_ipv4 drop"),
        s("    meta nfproto ipv4 delete @C_dest_ipv4 { ip daddr }"),
        s("    meta nfproto ipv6 update @C_dest_ipv6 { ip6 daddr }"),
        s("    meta nfproto ipv6 ip6 saddr @C_dest_ipv6 drop"),
        s("    meta nfproto ipv6 delete @C_dest_ipv6 { ip6 daddr }"),
        s("    ct state established accept"),
        s("    ct state related accept"),
        s("    ct state invalid drop"),
        s("    meta l4proto icmp update @icmp_rate_limit_ipv4 { ip saddr limit rate 10/second }"),
        s("    meta l4proto ipv6-icmp update @icmp_rate_limit_ipv6 { ip6 saddr limit rate 10/second }"),
        rule.clone(),
        s("    accept"),
    ];
    assert_eq!(body, expected.iter().collect::<Vec<&String>>());
    assert_eq!(script.iter().filter(|l| l.contains("1.2.3.4")).count(), 1);
    assert!(script.contains(&s("    iifname eth0 jump C")));
}

#[test]
fn missing_chain_is_an_error() {
    let mut policy = empty_policy();
    policy.filters.push(FilterTableData {
        chain: s("nowhere"),
        policy: s("drop"),
        rules: vec![],
        deleted: false,
    });
    match generate_script(&policy, "/usr/sbin/nft") {
        Err(CompileError::ChainNotFound(name)) => assert_eq!(name, "nowhere"),
        _ => panic!("expected a missing chain"),
    }
}
