use nftablesbuilder::compile::generate_script;
use nftablesbuilder::model::{
    ChainData, ConfigurationItems, FilterRuleData, FilterTableData, HostData, InterfaceData,
    ServiceData,
};

fn s(text: &str) -> String {
    String::from(text)
}

fn strings(items: &[&str]) -> Vec<String> {
    items.iter().map(|s| String::from(*s)).collect()
}

fn chain(name: &str, iface_in: &str) -> ChainData {
    ChainData {
        name: s(name),
        filter: true,
        snat: false,
        dnat: false,
        iface_in: s(iface_in),
        iface_out: s("-"),
        direction: s("input"),
        policy: s("drop"),
    }
}

fn drop_rule(source: &str, service: &str) -> FilterRuleData {
    FilterRuleData {
        source: strings(&[source]),
        sourceservice: strings(&[service]),
        destination: vec![],
        destinationservice: vec![],
        action: s("drop"),
        comment: s(""),
        active: true,
    }
}

fn policy(logging: &str) -> ConfigurationItems {
    ConfigurationItems {
        interfaces: vec![
            InterfaceData { name: s("lan"), systemname: s("eth0"), loopback: false },
            InterfaceData { name: s("loop"), systemname: s("lo"), loopback: true },
        ],
        hosts: vec![HostData { name: s("H"), ipv4: strings(&["1.2.3.4"]), ipv6: vec![] }],
        hostgroups: vec![],
        ipv4networks: vec![],
        ipv6networks: vec![],
        services: vec![
            ServiceData { name: s("ssh"), port: 22, protocol: s("TCP") },
            ServiceData { name: s("dns"), port: 53, protocol: s("UDP") },
        ],
        chains: vec![chain("C", "lan"), chain("L", "loop")],
        inactive_defaults: vec![],
        filters: vec![
            FilterTableData {
                chain: s("C"),
                policy: s("drop"),
                rules: vec![drop_rule("H", "ssh"), drop_rule("H", "ssh"), drop_rule("H", "dns")],
                deleted: false,
            },
            FilterTableData { chain: s("L"), policy: s("accept"), rules: vec![], deleted: false },
        ],
        pre: s(""),
        post: s(""),
        snat: vec![],
        dnat: vec![],
        logging: s(logging),
    }
}

fn compile(policy: &ConfigurationItems) -> Vec<String> {
    generate_script(policy, "/usr/sbin/nft").expect("the policy compiles")
}

/// The counters that the lines refer to, in order, repetitions included.
fn references(script: &[String]) -> Vec<String> {
    let mut names = vec![];
    for line in script {
        let mut rest = line.as_str();
        while let Some(at) = rest.find("counter name ") {
            rest = &rest[at + "counter name ".len()..];
            let end = rest.find(' ').unwrap_or(rest.len());
            names.push(String::from(&rest[..end]));
        }
    }
    names
}

/// The counters that the lines declare, in order.
fn declarations(script: &[String]) -> Vec<String> {
    script
        .iter()
        .filter(|l| l.starts_with("  counter ") && l.ends_with(" {"))
        .map(|l| String::from(&l["  counter ".len()..l.len() - 2]))
        .collect()
}

#[test]
fn counter_mode_declares_each_counter_once() {
    let script = compile(&policy("counter"));
    let declared = declarations(&script);
    let referred = references(&script);
    assert_eq!(
        declared,
        strings(&[
            "counter_C_src_eq_dst_ipv4",
            "counter_C_src_eq_dst_ipv6",
            "counter_C_ct_invalid",
            "counter_C_tcp_ipv4",
            "counter_C_udp_ipv4",
            "counter_C_default",
            "counter_L_ct_invalid",
            "counter_netdev_invalid_tcp",
        ])
    );
    for name in &referred {
        assert_eq!(declared.iter().filter(|d| *d == name).count(), 1, "{}", name);
    }
    for name in &declared {
        assert!(referred.contains(name), "{}", name);
    }
    assert_eq!(referred.iter().filter(|r| *r == "counter_C_tcp_ipv4").count(), 2);
}

#[test]
fn counter_mode_declares_behind_the_placeholder() {
    let script = compile(&policy("counter"));
    let start = script.iter().position(|l| l == "table inet filter_inet {").unwrap();
    assert_eq!(
        script[start..start + 17].to_vec(),
        strings(&[
            "table inet filter_inet {",
            "  # Counters",
            "  counter counter_C_src_eq_dst_ipv4 {",
            "  }",
            "  counter counter_C_src_eq_dst_ipv6 {",
            "  }",
            "  counter counter_C_ct_invalid {",
            "  }",
            "  counter counter_C_tcp_ipv4 {",
            "  }",
            "  counter counter_C_udp_ipv4 {",
            "  }",
            "  counter counter_C_default {",
            "  }",
            "  counter counter_L_ct_invalid {",
            "  }",
            "  set syn_rate_limit_ipv4 { type ipv4_addr",
        ])
    );
    assert_eq!(script.iter().filter(|l| *l == "  # Counters").count(), 1);
    let netdev = script.iter().position(|l| l == "table netdev filter_netdev {").unwrap();
    assert_eq!(
        script[netdev + 1..netdev + 4].to_vec(),
        strings(&["  # Counter", "  counter counter_netdev_invalid_tcp {", "  }"])
    );
}

#[test]
fn counter_mode_tags_the_drops() {
    let script = compile(&policy("counter"));
    for line in [
        "    meta nfproto ipv4 ip saddr @C_dest_ipv4 counter name counter_C_src_eq_dst_ipv4 drop",
        "    meta nfproto ipv6 ip6 saddr @C_dest_ipv6 counter name counter_C_src_eq_dst_ipv6 drop",
        "    ct state invalid counter name counter_C_ct_invalid drop",
        "    meta nfproto ipv4 ip saddr { 1.2.3.4 } tcp sport { 22 }  counter name counter_C_tcp_ipv4 drop ",
        "    meta nfproto ipv4 ip saddr { 1.2.3.4 } udp sport { 53 }  counter name counter_C_udp_ipv4 drop ",
        "    counter name counter_C_default drop ",
        "    ct state invalid counter name counter_L_ct_invalid drop",
        "    accept",
        "    tcp flags & (fin|psh|urg) == fin|psh|urg counter name counter_netdev_invalid_tcp drop",
        "    tcp flags syn tcp option maxseg size 1-525 counter name counter_netdev_invalid_tcp drop",
    ] {
        assert!(script.contains(&s(line)), "{}", line);
    }
}

#[test]
fn log_mode_tags_the_drops_and_declares_nothing() {
    let script = compile(&policy("log"));
    assert!(declarations(&script).is_empty());
    assert!(references(&script).is_empty());
    assert!(script.iter().all(|l| !l.contains("# Counter")));
    for line in [
        "    meta nfproto ipv4 ip saddr @C_dest_ipv4 log prefix log_C_src_eq_dst_ipv4 drop",
        "    ct state invalid log prefix log_C_ct_invalid drop",
        "    meta nfproto ipv4 ip saddr { 1.2.3.4 } tcp sport { 22 }  log prefix log_C_tcp_ipv4 drop ",
        "    log prefix log_C_default drop ",
        "    tcp flags & (syn|urg|ack|fin|rst) == syn|urg|ack log prefix log_netdev_invalid_tcp drop",
        "    tcp flags syn tcp option maxseg size 1-525 log prefix log_netdev_invalid_tcp drop",
    ] {
        assert!(script.contains(&s(line)), "{}", line);
    }
}

#[test]
fn without_logging_drops_are_bare() {
    let script = compile(&policy("off"));
    assert!(script.iter().all(|l| !l.contains("counter") && !l.contains("log prefix")));
    assert!(script.contains(&s("    drop ")));
    assert!(script.contains(&s("    ct state invalid drop")));
}

#[test]
fn a_marker_in_the_preamble_is_left_alone() {
    let mut p = policy("counter");
    p.pre = s("# Counters\nflush");
    p.post = s("  # Counters");
    p.filters[1].policy = s("# Counters");
    let script = compile(&p);
    assert_eq!(script[9], "# Counters");
    assert_eq!(script[10], "flush");
    assert_eq!(script.last().unwrap(), "  # Counters");
    assert_eq!(script.iter().filter(|l| l.trim() == "# Counters").count(), 4);
    let declared = declarations(&script);
    for name in references(&script) {
        assert_eq!(declared.iter().filter(|d| **d == name).count(), 1, "{}", name);
    }
    assert_eq!(script[12], "table inet filter_inet {");
    assert_eq!(script[13], "  # Counters");
    assert_eq!(script[14], "  counter counter_C_src_eq_dst_ipv4 {");
}

#[test]
fn the_ingress_counter_is_declared_where_a_line_counts() {
    let mut p = policy("counter");
    p.inactive_defaults = strings(&["InvalidTCPFlags"]);
    let script = compile(&p);
    assert!(script.contains(&s("  counter counter_netdev_invalid_tcp {")));
    assert_eq!(references(&script).iter().filter(|r| *r == "counter_netdev_invalid_tcp").count(), 2);
    p.inactive_defaults = strings(&["InvalidTCPFlags", "TCPMSS"]);
    let script = compile(&p);
    assert!(script.iter().all(|l| !l.contains("counter_netdev_invalid_tcp")));
    assert!(script.iter().all(|l| l != "  # Counter"));
    let declared = declarations(&script);
    for name in &declared {
        assert!(references(&script).contains(name), "{}", name);
    }
    p.inactive_defaults = vec![];
    p.interfaces.clear();
    p.chains.clear();
    p.filters.clear();
    let script = compile(&p);
    assert!(declarations(&script).is_empty());
    assert!(references(&script).is_empty());
}

#[test]
fn every_interface_gets_an_ingress_chain() {
    let script = compile(&policy("off"));
    let devices: Vec<&String> =
        script.iter().filter(|l| l.starts_with("    type filter hook ingress device ")).collect();
    assert_eq!(
        devices,
        vec![
            "    type filter hook ingress device eth0 priority -500;",
            "    type filter hook ingress device lo priority -500;",
        ]
    );
    assert_eq!(script.iter().filter(|l| *l == "  chain ingress {").count(), 2);
    assert_eq!(script.iter().filter(|l| l.starts_with("    tcp flags & ")).count(), 20);
}
