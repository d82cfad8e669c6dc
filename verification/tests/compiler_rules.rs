use nftablesbuilder::compile::generate_script;
use nftablesbuilder::model::{
    ChainData, ConfigurationItems, FilterRuleData, FilterTableData, HostData, InterfaceData,
    NatRuleData, NatTableData, NetworkData, ServiceData,
};
use nftablesbuilder::resolve::CompileError;

const SYN4: &str = "ct state new update @syn_rate_limit_ipv4 { ip saddr limit rate 1/second } ";
const SYN6: &str = "ct state new update @syn_rate_limit_ipv6 { ip6 saddr limit rate 1/second } ";

fn s(text: &str) -> String {
    String::from(text)
}

fn strings(items: &[&str]) -> Vec<String> {
    items.iter().map(|s| String::from(*s)).collect()
}

fn chain(name: &str, direction: &str, iface_in: &str, iface_out: &str) -> ChainData {
    ChainData {
        name: s(name),
        filter: true,
        snat: true,
        dnat: true,
        iface_in: s(iface_in),
        iface_out: s(iface_out),
        direction: s(direction),
        policy: s("accept"),
    }
}

fn base() -> ConfigurationItems {
    ConfigurationItems {
        interfaces: vec![
            InterfaceData { name: s("lan"), systemname: s("eth0"), loopback: false },
            InterfaceData { name: s("wan"), systemname: s("eth1"), loopback: false },
            InterfaceData { name: s("loop"), systemname: s("lo"), loopback: true },
        ],
        hosts: vec![
            HostData { name: s("H"), ipv4: strings(&["1.2.3.4"]), ipv6: vec![] },
            HostData { name: s("H6"), ipv4: vec![], ipv6: strings(&["2001:db8::1"]) },
            HostData { name: s("T"), ipv4: strings(&["9.9.9.9"]), ipv6: vec![] },
            HostData { name: s("T2"), ipv4: strings(&["9.9.9.9", "8.8.8.8"]), ipv6: vec![] },
            HostData { name: s("T6"), ipv4: vec![], ipv6: strings(&["2001:db8::9"]) },
        ],
        hostgroups: vec![],
        ipv4networks: vec![NetworkData { name: s("N"), address: s("10.0.0.0/8") }],
        ipv6networks: vec![],
        services: vec![
            ServiceData { name: s("ssh"), port: 22, protocol: s("TCP") },
            ServiceData { name: s("dns"), port: 53, protocol: s("UDP") },
            ServiceData { name: s("web"), port: 80, protocol: s("TCP") },
            ServiceData { name: s("alt"), port: 8080, protocol: s("TCP") },
            ServiceData { name: s("dns-tcp"), port: 53, protocol: s("TCP") },
            ServiceData { name: s("any53"), port: 53, protocol: s("TCP/UDP") },
        ],
        chains: vec![],
        inactive_defaults: vec![],
        filters: vec![],
        pre: s(""),
        post: s(""),
        snat: vec![],
        dnat: vec![],
        logging: s("off"),
    }
}

fn rule(source: &[&str], sourceservice: &[&str], destination: &[&str], destinationservice: &[&str], action: &str) -> FilterRuleData {
    FilterRuleData {
        source: strings(source),
        sourceservice: strings(sourceservice),
        destination: strings(destination),
        destinationservice: strings(destinationservice),
        action: s(action),
        comment: s(""),
        active: true,
    }
}

fn table(chain: &str, policy: &str, rules: Vec<FilterRuleData>) -> FilterTableData {
    FilterTableData { chain: s(chain), policy: s(policy), rules, deleted: false }
}

fn nat_rule(source: &[&str], sourceservice: &[&str], destination: &[&str], destinationservice: &[&str], translated: &str, translatedservice: &str) -> NatRuleData {
    NatRuleData {
        source: strings(source),
        sourceservice: strings(sourceservice),
        destination: strings(destination),
        destinationservice: strings(destinationservice),
        translated: s(translated),
        translatedservice: s(translatedservice),
        comment: s(""),
        active: true,
    }
}

fn compile(policy: &ConfigurationItems) -> Vec<String> {
    match generate_script(policy, "/usr/sbin/nft") {
        Ok(lines) => lines,
        Err(e) => panic!("{}", e.message()),
    }
}

/// The lines between `open` and the next line that closes a chain.
fn body(script: &[String], open: &str) -> Vec<String> {
    let start = script.iter().position(|l| l == open).expect("the chain is there");
    let len = script[start..].iter().position(|l| l == "  }").expect("the chain is closed");
    script[start + 1..start + len].to_vec()
}

/// The lines of the rules of a filter chain, with all protections off.
fn rule_lines(mut policy: ConfigurationItems, rules: Vec<FilterRuleData>) -> Vec<String> {
    policy.inactive_defaults = strings(&[
        "SYNFlood", "SRCEQDST", "CT-Established", "CT-Related", "CT-Invalid",
    ]);
    policy.chains.push(chain("C", "input", "lan", "-"));
    policy.filters.push(table("C", "accept", rules));
    let mut lines = body(&compile(&policy), "  chain C {");
    assert_eq!(lines.pop(), Some(s("    accept")));
    assert_eq!(
        lines.remove(0),
        "    meta l4proto icmp update @icmp_rate_limit_ipv4 { ip saddr limit rate 10/second }"
    );
    assert_eq!(
        lines.remove(0),
        "    meta l4proto ipv6-icmp update @icmp_rate_limit_ipv6 { ip6 saddr limit rate 10/second }"
    );
    lines
}

#[test]
fn snat_to_a_single_address() {
    let mut policy = base();
    policy.chains.push(chain("Csnat", "forward", "-", "-"));
    policy.snat.push(NatTableData {
        chain: s("Csnat"),
        rules: vec![nat_rule(&["H"], &["ssh"], &[], &[], "T", "")],
        deleted: false,
    });
    let script = compile(&policy);
    let start = script.iter().position(|l| l == "table inet snat_inet {").unwrap();
    assert_eq!(
        script[start..start + 6].to_vec(),
        strings(&[
            "table inet snat_inet {",
            "  chain Csnat_snat {",
            "    type nat hook postrouting priority srcnat",
            "    meta nfproto ipv4 ip saddr { 1.2.3.4 } tcp sport { 22 }  snat to 9.9.9.9 ",
            "  }",
            "}",
        ])
    );
    assert!(script[start + 3].ends_with("snat to 9.9.9.9 "));
}

#[test]
fn snat_to_two_addresses_is_skipped() {
    let mut policy = base();
    policy.chains.push(chain("Csnat", "forward", "-", "-"));
    policy.snat.push(NatTableData {
        chain: s("Csnat"),
        rules: vec![
            nat_rule(&["H"], &["ssh"], &[], &[], "T2", ""),
            nat_rule(&[], &["ssh"], &["H"], &[], "T2", ""),
            nat_rule(&[], &["ssh"], &[], &[], "T2", ""),
        ],
        deleted: false,
    });
    let script = compile(&policy);
    assert_eq!(
        body(&script, "  chain Csnat_snat {"),
        strings(&["    type nat hook postrouting priority srcnat"])
    );
    assert!(script.iter().all(|l| !l.contains("snat to")));
    assert!(script.iter().all(|l| !l.contains("allow nat rule")));
}

#[test]
fn snat_without_a_translated_address_is_skipped() {
    let mut policy = base();
    policy.chains.push(chain("Csnat", "forward", "-", "-"));
    policy.snat.push(NatTableData {
        chain: s("Csnat"),
        rules: vec![nat_rule(&[], &["ssh"], &["H"], &[], "nobody", "")],
        deleted: false,
    });
    assert!(compile(&policy).iter().all(|l| !l.contains("snat to")));
}

#[test]
fn snat_is_mirrored_into_the_filter_chain() {
    let mut policy = base();
    policy.chains.push(chain("Csnat", "forward", "lan", "wan"));
    policy.filters.push(table("Csnat", "accept", vec![]));
    policy.snat.push(NatTableData {
        chain: s("Csnat"),
        rules: vec![nat_rule(&["H"], &["ssh", "dns"], &[], &[], "T", "")],
        deleted: false,
    });
    policy.inactive_defaults = strings(&["SRCEQDST"]);
    let script = compile(&policy);
    let chain_body = body(&script, "  chain Csnat {");
    assert_eq!(
        chain_body[0],
        "    meta nfproto ipv4 ip saddr { 1.2.3.4 } udp sport { 53 }  accept # allow nat rule"
    );
    assert_eq!(
        chain_body[1],
        format!(
            "    meta nfproto ipv4 ip saddr {{ 1.2.3.4 }} tcp sport {{ 22 }} {} accept # allow nat rule",
            SYN4
        )
    );
    assert_eq!(chain_body[2], "    ct state established accept");
    assert_eq!(
        body(&script, "  chain Csnat_snat {"),
        strings(&[
            "    type nat hook postrouting priority srcnat",
            "    meta nfproto ipv4 ip saddr { 1.2.3.4 } tcp sport { 22 } iifname lan  oifname wan  snat to 9.9.9.9 ",
            "    meta nfproto ipv4 ip saddr { 1.2.3.4 } udp sport { 53 } iifname lan  oifname wan  snat to 9.9.9.9 ",
        ])
    );
}

#[test]
fn only_filter_chains_accept_translated_traffic() {
    let mut policy = base();
    policy.pre = s("chain C {\n}\n  chain C_snat {");
    policy.post = s("  chain C {");
    policy.chains.push(chain("C", "forward", "lan", "wan"));
    policy.chains.push(chain("C_snat", "forward", "lan", "wan"));
    policy.filters.push(table("C", "accept", vec![]));
    policy.snat.push(NatTableData {
        chain: s("C"),
        rules: vec![nat_rule(&["H"], &["ssh"], &[], &[], "T", "")],
        deleted: false,
    });
    policy.snat.push(NatTableData {
        chain: s("C_snat"),
        rules: vec![nat_rule(&["H"], &["ssh"], &[], &[], "T", "")],
        deleted: false,
    });
    let script = compile(&policy);
    assert_eq!(script[9..12].to_vec(), strings(&["chain C {", "}", "  chain C_snat {"]));
    assert_eq!(script.last().unwrap(), "  chain C {");
    assert_eq!(script.iter().filter(|l| l.contains("allow nat rule")).count(), 1);
    assert!(body(&script[12..], "  chain C {")[0].ends_with(" accept # allow nat rule"));
    assert_eq!(
        body(&script[12..], "  chain C_snat {"),
        strings(&[
            "    type nat hook postrouting priority srcnat",
            "    meta nfproto ipv4 ip saddr { 1.2.3.4 } tcp sport { 22 } iifname lan  oifname wan  snat to 9.9.9.9 ",
        ])
    );
}

#[test]
fn nat_is_not_mirrored_when_opted_out() {
    let mut policy = base();
    policy.chains.push(chain("Csnat", "forward", "lan", "wan"));
    policy.filters.push(table("Csnat", "accept", vec![]));
    policy.snat.push(NatTableData {
        chain: s("Csnat"),
        rules: vec![nat_rule(&["H"], &["ssh"], &[], &[], "T", "")],
        deleted: false,
    });
    policy.inactive_defaults = strings(&["AllowNAT"]);
    let script = compile(&policy);
    assert!(script.iter().all(|l| !l.contains("allow nat rule")));
    assert_eq!(script.iter().filter(|l| l.contains("snat to 9.9.9.9")).count(), 1);
}

#[test]
fn dnat_translates_address_and_port() {
    let mut policy = base();
    policy.chains.push(chain("Cd", "input", "wan", "-"));
    policy.filters.push(table("Cd", "accept", vec![]));
    let mut r = nat_rule(&[], &[], &["H"], &["web"], "T", "alt");
    r.comment = s("web in");
    policy.dnat.push(NatTableData { chain: s("Cd"), rules: vec![r], deleted: false });
    policy.inactive_defaults = strings(&["SRCEQDST"]);
    let script = compile(&policy);
    assert_eq!(
        body(&script, "  chain Cd_dnat {"),
        strings(&[
            "    type nat hook prerouting priority dstnat",
            "    meta nfproto ipv4 ip daddr { 1.2.3.4 } tcp dport { 80 } iifname wan  dnat to 9.9.9.9:8080 # web in",
        ])
    );
    assert_eq!(
        body(&script, "  chain Cd {")[0],
        format!(
            "    meta nfproto ipv4 ip daddr 9.9.9.9 tcp dport 8080 {} accept # allow nat rule",
            SYN4
        )
    );
    assert!(script.iter().all(|l| l != "  chain Cd_snat {"));
}

#[test]
fn dnat_without_a_translated_port_keeps_the_port() {
    let mut policy = base();
    policy.chains.push(chain("Cd", "input", "wan", "-"));
    policy.filters.push(table("Cd", "accept", vec![]));
    policy.dnat.push(NatTableData {
        chain: s("Cd"),
        rules: vec![nat_rule(&["H6"], &[], &[], &["dns"], "T6", "")],
        deleted: false,
    });
    let script = compile(&policy);
    assert_eq!(
        body(&script, "  chain Cd_dnat {")[1],
        "    meta nfproto ipv6 ip6 saddr { 2001:db8::1 } udp dport { 53 } iifname wan  dnat to 2001:db8::9 "
    );
    assert_eq!(
        body(&script, "  chain Cd {")[0],
        "    meta nfproto ipv6 ip6 saddr { 2001:db8::1 } ip6 daddr 2001:db8::9 udp dport { 53 }  accept # allow nat rule"
    );
}

#[test]
fn a_translated_service_of_the_other_transport_gives_no_line() {
    let mut policy = base();
    policy.chains.push(chain("Cd", "input", "wan", "-"));
    policy.dnat.push(NatTableData {
        chain: s("Cd"),
        rules: vec![nat_rule(&[], &[], &["H"], &["dns"], "T", "alt")],
        deleted: false,
    });
    assert!(compile(&policy).iter().all(|l| !l.contains("dnat to")));
}

#[test]
fn nat_tables_that_are_not_due_are_left_out() {
    let mut policy = base();
    let mut off = chain("Off", "input", "wan", "-");
    off.snat = false;
    policy.chains.push(off);
    policy.chains.push(chain("On", "input", "wan", "-"));
    policy.snat.push(NatTableData {
        chain: s("Off"),
        rules: vec![nat_rule(&["H"], &["ssh"], &[], &[], "T", "")],
        deleted: false,
    });
    policy.snat.push(NatTableData { chain: s("On"), rules: vec![], deleted: false });
    policy.snat.push(NatTableData {
        chain: s("On"),
        rules: vec![nat_rule(&["H"], &["ssh"], &[], &[], "T", "")],
        deleted: true,
    });
    let mut idle = nat_rule(&["H"], &["ssh"], &[], &[], "T", "");
    idle.active = false;
    policy.snat.push(NatTableData { chain: s("On"), rules: vec![idle], deleted: false });
    let script = compile(&policy);
    assert!(script.iter().all(|l| !l.contains("snat to")));
    assert!(script.iter().all(|l| l != "  chain Off_snat {"));
    assert_eq!(script.iter().filter(|l| *l == "  chain On_snat {").count(), 1);
}

#[test]
fn a_rule_without_addresses_applies_to_both_families() {
    let lines = rule_lines(base(), vec![rule(&[], &["ssh"], &[], &[], "accept")]);
    assert_eq!(
        lines,
        strings(&[
            "    meta nfproto ipv4 tcp sport { 22 }  accept ",
            "    meta nfproto ipv6 tcp sport { 22 }  accept ",
        ])
    );
}

#[test]
fn the_limiter_goes_with_tcp_lines_that_do_not_drop() {
    let mut policy = base();
    policy.chains.push(chain("C", "input", "lan", "-"));
    policy.filters.push(table(
        "C",
        "accept",
        vec![
            rule(&[], &["dns-tcp", "dns"], &[], &[], "accept"),
            rule(&[], &["dns-tcp", "dns"], &[], &[], "drop"),
            rule(&[], &["any53"], &[], &[], "accept"),
        ],
    ));
    let lines = body(&compile(&policy), "  chain C {");
    let n = lines.len();
    assert_eq!(
        lines[n - 9..n - 1].to_vec(),
        vec![
            format!("    meta nfproto ipv4 tcp sport {{ 53 }} {} accept ", SYN4),
            s("    meta nfproto ipv4 udp sport { 53 }  accept "),
            format!("    meta nfproto ipv6 tcp sport {{ 53 }} {} accept ", SYN6),
            s("    meta nfproto ipv6 udp sport { 53 }  accept "),
            s("    meta nfproto ipv4 tcp sport { 53 }  drop "),
            s("    meta nfproto ipv4 udp sport { 53 }  drop "),
            s("    meta nfproto ipv6 tcp sport { 53 }  drop "),
            s("    meta nfproto ipv6 udp sport { 53 }  drop "),
        ]
    );
}

#[test]
fn addresses_and_ports_of_both_ends_are_matched() {
    let mut r = rule(&["H", "N"], &["ssh"], &["T2"], &["web", "alt"], "accept");
    r.comment = s("in");
    let lines = rule_lines(base(), vec![r]);
    assert_eq!(
        lines,
        strings(&[
            "    meta nfproto ipv4 ip saddr { 1.2.3.4, 10.0.0.0/8 } ip daddr { 9.9.9.9, 8.8.8.8 } tcp sport { 22 } tcp dport { 80, 8080 }  accept # in",
        ])
    );
}

#[test]
fn ipv6_rules_use_the_ipv6_words() {
    let lines = rule_lines(base(), vec![rule(&["H6"], &[], &["T6"], &["dns"], "drop")]);
    assert_eq!(
        lines,
        strings(&[
            "    meta nfproto ipv6 ip6 saddr { 2001:db8::1 } ip6 daddr { 2001:db8::9 } udp dport { 53 }  drop ",
        ])
    );
}

#[test]
fn ends_of_different_families_give_no_line() {
    let lines = rule_lines(base(), vec![rule(&["H"], &["ssh"], &["H6"], &[], "accept")]);
    assert_eq!(lines, Vec::<String>::new());
}

#[test]
fn ports_of_different_transports_give_no_line() {
    let lines = rule_lines(base(), vec![rule(&["H"], &["ssh"], &[], &["dns"], "accept")]);
    assert_eq!(lines, Vec::<String>::new());
}

#[test]
fn a_rule_without_service_gives_no_line() {
    let lines = rule_lines(base(), vec![rule(&["H"], &[], &["T"], &[], "accept")]);
    assert_eq!(lines, Vec::<String>::new());
    let none = rule_lines(base(), vec![rule(&[], &[], &[], &[], "accept")]);
    assert_eq!(none, Vec::<String>::new());
}

#[test]
fn rules_that_are_not_active_give_no_line() {
    let mut r = rule(&["H"], &["ssh"], &[], &[], "accept");
    r.active = false;
    assert_eq!(rule_lines(base(), vec![r]), Vec::<String>::new());
}

#[test]
fn a_chain_that_does_not_filter_has_no_rules() {
    let mut policy = base();
    let mut c = chain("C", "input", "lan", "-");
    c.filter = false;
    policy.chains.push(c);
    policy.filters.push(table("C", "accept", vec![rule(&["H"], &["ssh"], &[], &[], "accept")]));
    assert!(compile(&policy).iter().all(|l| !l.contains("1.2.3.4")));
}

#[test]
fn control_message_rules_are_written_when_protected() {
    let lines = rule_lines(
        base(),
        vec![rule(&["H"], &["ICMPv4 Type 8", "ICMPv6 Type 128"], &[], &["ICMPv4 Type 0", "ICMPv4 Type 8"], "accept")],
    );
    assert_eq!(
        lines,
        strings(&["    meta nfproto ipv4 ip saddr { 1.2.3.4 } icmp code { 8, 0 }  accept "])
    );
    let both = rule_lines(base(), vec![rule(&[], &["ICMPv6 Type 128"], &[], &[], "drop")]);
    assert_eq!(both, strings(&["    meta nfproto ipv6 icmpv6 code { 128 }  drop "]));
}

#[test]
fn control_message_rules_are_suppressed_when_opted_out() {
    let mut policy = base();
    policy.inactive_defaults = strings(&["ICMP"]);
    policy.chains.push(chain("C", "input", "lan", "-"));
    policy.filters.push(table(
        "C",
        "accept",
        vec![rule(&["H"], &["ICMPv4 Type 8"], &[], &[], "accept")],
    ));
    let script = compile(&policy);
    assert!(script.iter().all(|l| !l.contains("1.2.3.4")));
    assert!(script.iter().all(|l| !l.contains("icmp")));
    let lines = body(&script, "  chain C {");
    assert_eq!(lines.last().unwrap(), "    accept");
    assert_eq!(lines[lines.len() - 2], "    ct state invalid drop");
}

#[test]
fn missing_references_are_errors() {
    let mut policy = base();
    policy.chains.push(chain("C", "input", "nolan", "-"));
    policy.filters.push(table("C", "accept", vec![]));
    assert_eq!(
        generate_script(&policy, "nft"),
        Err(CompileError::InterfaceNotFound(s("nolan")))
    );
    policy.chains[0] = chain("C", "output", "-", "gone");
    assert_eq!(generate_script(&policy, "nft"), Err(CompileError::InterfaceNotFound(s("gone"))));
    policy.chains[0] = chain("C", "forward", "lan", "gone");
    assert_eq!(generate_script(&policy, "nft"), Err(CompileError::InterfaceNotFound(s("gone"))));
    policy.chains[0] = chain("C", "forward", "nolan", "gone");
    assert_eq!(generate_script(&policy, "nft"), Err(CompileError::InterfaceNotFound(s("nolan"))));
    policy.chains[0] = chain("C", "sideways", "lan", "wan");
    assert!(generate_script(&policy, "nft").is_ok());
    policy.snat.push(NatTableData { chain: s("S"), rules: vec![], deleted: false });
    assert_eq!(generate_script(&policy, "nft"), Err(CompileError::ChainNotFound(s("S"))));
    policy.snat[0].deleted = true;
    policy.dnat.push(NatTableData { chain: s("D"), rules: vec![], deleted: false });
    assert_eq!(generate_script(&policy, "nft"), Err(CompileError::ChainNotFound(s("D"))));
    policy.dnat[0].deleted = true;
    assert!(generate_script(&policy, "nft").is_ok());
}

#[test]
fn an_interface_that_no_jump_uses_is_followed_too() {
    let mut policy = base();
    policy.chains.push(chain("C", "input", "lan", "gone"));
    policy.filters.push(table("C", "accept", vec![]));
    assert_eq!(generate_script(&policy, "nft"), Err(CompileError::InterfaceNotFound(s("gone"))));
    policy.chains[0] = chain("C", "output", "gone", "wan");
    assert_eq!(generate_script(&policy, "nft"), Err(CompileError::InterfaceNotFound(s("gone"))));
    policy.chains[0] = chain("C", "sideways", "nolan", "gone");
    assert_eq!(generate_script(&policy, "nft"), Err(CompileError::InterfaceNotFound(s("nolan"))));
    policy.chains[0] = chain("C", "sideways", "-", "gone");
    assert_eq!(generate_script(&policy, "nft"), Err(CompileError::InterfaceNotFound(s("gone"))));
    policy.filters[0].deleted = true;
    assert!(generate_script(&policy, "nft").is_ok());
}

#[test]
fn the_interfaces_of_translation_chains_are_followed() {
    let mut policy = base();
    policy.chains.push(chain("S", "forward", "lan", "nowhere"));
    policy.chains.push(chain("D", "forward", "nothing", "-"));
    policy.snat.push(NatTableData { chain: s("S"), rules: vec![], deleted: false });
    policy.dnat.push(NatTableData { chain: s("D"), rules: vec![], deleted: false });
    assert_eq!(
        generate_script(&policy, "nft"),
        Err(CompileError::InterfaceNotFound(s("nowhere")))
    );
    assert_eq!(
        generate_script(&policy, "nft").unwrap_err().message(),
        "Interface nowhere not found"
    );
    policy.snat[0].deleted = true;
    assert_eq!(
        generate_script(&policy, "nft"),
        Err(CompileError::InterfaceNotFound(s("nothing")))
    );
    policy.dnat[0].deleted = true;
    assert!(generate_script(&policy, "nft").is_ok());
}

#[test]
fn a_jump_needs_its_interface() {
    let mut policy = base();
    policy.chains.push(chain("C", "input", "-", "lan"));
    policy.filters.push(table("C", "accept", vec![]));
    assert_eq!(generate_script(&policy, "nft"), Err(CompileError::InterfaceNotFound(s("-"))));
    policy.chains[0] = chain("C", "forward", "lan", "-");
    assert_eq!(generate_script(&policy, "nft"), Err(CompileError::InterfaceNotFound(s("-"))));
    policy.snat.push(NatTableData { chain: s("S"), rules: vec![], deleted: false });
    assert_eq!(generate_script(&policy, "nft"), Err(CompileError::ChainNotFound(s("S"))));
}

#[test]
fn the_first_missing_reference_is_named() {
    let mut policy = base();
    policy.chains.push(chain("Out", "output", "-", "gone-out"));
    policy.chains.push(chain("In", "input", "gone-in", "-"));
    policy.chains.push(chain("Fwd", "forward", "lan", "gone-fwd"));
    policy.filters.push(table("Out", "accept", vec![]));
    policy.filters.push(table("Fwd", "accept", vec![]));
    policy.filters.push(table("In", "accept", vec![]));
    policy.filters.push(table("Nowhere", "accept", vec![]));
    let mut deleted = table("Deleted", "accept", vec![]);
    deleted.deleted = true;
    policy.filters.insert(0, deleted);
    policy.snat.push(NatTableData { chain: s("S"), rules: vec![], deleted: false });
    assert_eq!(
        generate_script(&policy, "nft"),
        Err(CompileError::InterfaceNotFound(s("gone-out")))
    );
    policy.chains[0] = chain("Out", "output", "-", "wan");
    assert_eq!(
        generate_script(&policy, "nft"),
        Err(CompileError::InterfaceNotFound(s("gone-fwd")))
    );
    policy.chains[2] = chain("Fwd", "forward", "lan", "wan");
    assert_eq!(
        generate_script(&policy, "nft"),
        Err(CompileError::InterfaceNotFound(s("gone-in")))
    );
    policy.chains[1] = chain("In", "input", "lan", "-");
    assert_eq!(generate_script(&policy, "nft"), Err(CompileError::ChainNotFound(s("Nowhere"))));
    policy.filters.pop();
    assert_eq!(generate_script(&policy, "nft"), Err(CompileError::ChainNotFound(s("S"))));
    policy.snat[0].deleted = true;
    assert!(generate_script(&policy, "nft").is_ok());
}

#[test]
fn jumps_go_through_the_devices() {
    let mut policy = base();
    policy.chains.push(chain("Out", "output", "-", "wan"));
    policy.chains.push(chain("In", "input", "lan", "-"));
    policy.chains.push(chain("Fwd", "forward", "lan", "wan"));
    policy.filters.push(table("Out", "accept", vec![]));
    policy.filters.push(table("Fwd", "accept", vec![]));
    policy.filters.push(table("In", "accept", vec![]));
    let mut gone = table("In", "accept", vec![]);
    gone.deleted = true;
    policy.filters.push(gone);
    let script = compile(&policy);
    let start = script.iter().position(|l| l == "  chain all_input {").unwrap();
    assert_eq!(
        script[start..start + 13].to_vec(),
        strings(&[
            "  chain all_input {",
            "    type filter hook input priority filter;",
            "    iifname eth0 jump In",
            "  }",
            "  chain all_forward {",
            "    type filter hook forward priority filter;",
            "    iifname eth0 oifname eth1 jump Fwd",
            "  }",
            "  chain all_output {",
            "    type filter hook output priority filter;",
            "    oifname eth1 jump Out",
            "  }",
            "}",
        ])
    );
}

#[test]
fn loopback_chains_get_no_statements_against_spoofing() {
    let mut policy = base();
    policy.chains.push(chain("L", "input", "loop", "-"));
    policy.chains.push(chain("C", "input", "lan", "-"));
    policy.filters.push(table("L", "accept", vec![]));
    policy.filters.push(table("C", "accept", vec![]));
    let script = compile(&policy);
    assert!(script.iter().all(|l| !l.contains("L_dest_ipv")));
    assert_eq!(script.iter().filter(|l| l.contains("C_dest_ipv4")).count(), 4);
    assert_eq!(script.iter().filter(|l| l.contains("C_dest_ipv6")).count(), 4);
    assert!(script.contains(&s("  set C_dest_ipv4 { type ipv4_addr; }")));
    assert!(script.contains(&s("  set C_dest_ipv6 { type ipv6_addr; }")));
    assert_eq!(
        body(&script, "  chain L {"),
        strings(&[
            "    ct state established accept",
            "    ct state related accept",
            "    ct state invalid drop",
            "    meta l4proto icmp update @icmp_rate_limit_ipv4 { ip saddr limit rate 10/second }",
            "    meta l4proto ipv6-icmp update @icmp_rate_limit_ipv6 { ip6 saddr limit rate 10/second }",
            "    accept",
        ])
    );
    policy.inactive_defaults = strings(&["SRCEQDST"]);
    let without = compile(&policy);
    assert!(without.iter().all(|l| !l.contains("_dest_ipv")));
    assert_eq!(body(&without, "  chain L {"), body(&script, "  chain L {"));
}

#[test]
fn a_loopback_on_the_outbound_side_exempts_too() {
    let mut policy = base();
    policy.chains.push(chain("L", "forward", "lan", "loop"));
    policy.chains.push(chain("C", "forward", "lan", "wan"));
    policy.filters.push(table("L", "accept", vec![]));
    policy.filters.push(table("C", "accept", vec![]));
    let script = compile(&policy);
    assert!(script.iter().all(|l| !l.contains("L_dest_ipv")));
    assert_eq!(script.iter().filter(|l| l.contains("C_dest_ipv")).count(), 8);
    assert_eq!(body(&script, "  chain L {")[0], "    ct state established accept");
}

#[test]
fn all_protections_can_be_switched_off() {
    let mut policy = base();
    policy.interfaces.truncate(1);
    policy.inactive_defaults = strings(&[
        "SYNFlood", "ICMP", "SRCEQDST", "CT-Established", "CT-Related", "CT-Invalid", "AllowNAT",
        "InvalidTCPFlags", "TCPMSS",
    ]);
    policy.chains.push(chain("C", "input", "lan", "-"));
    policy.filters.push(table("C", "drop", vec![rule(&["H"], &["ssh"], &[], &[], "accept")]));
    policy.pre = s("# before\ndefine x = 1\n");
    policy.post = s("# after");
    let script = compile(&policy);
    assert_eq!(
        script,
        strings(&[
            "#!/usr/sbin/nft -f",
            "",
            "#",
            "# Script generated by Nftables Builder",
            "#",
            "",
            "# clear existing ruleset",
            "flush ruleset",
            "",
            "# before",
            "define x = 1",
            "# Filtering rules",
            "table inet filter_inet {",
            "  chain C {",
            "    meta nfproto ipv4 ip saddr { 1.2.3.4 } tcp sport { 22 }  accept ",
            "    drop ",
            "  }",
            "  chain all_input {",
            "    type filter hook input priority filter;",
            "    iifname eth0 jump C",
            "  }",
            "  chain all_forward {",
            "    type filter hook forward priority filter;",
            "  }",
            "  chain all_output {",
            "    type filter hook output priority filter;",
            "  }",
            "}",
            "",
            "# SNat rules",
            "table inet snat_inet {",
            "}",
            "",
            "# DNat rules",
            "table inet dnat_inet {",
            "}",
            "",
            "# Netdev rules",
            "table netdev filter_netdev {",
            "  chain ingress {",
            "    type filter hook ingress device eth0 priority -500;",
            "  }",
            "}",
            "# after",
        ])
    );
}

#[test]
fn compiling_twice_gives_the_same_script() {
    let mut policy = base();
    policy.logging = s("counter");
    policy.chains.push(chain("C", "forward", "lan", "wan"));
    policy.filters.push(table("C", "drop", vec![rule(&["H", "N"], &["ssh", "dns"], &["T"], &[], "drop")]));
    policy.snat.push(NatTableData {
        chain: s("C"),
        rules: vec![nat_rule(&["H"], &["ssh"], &[], &[], "T", "")],
        deleted: false,
    });
    let copy = policy.clone();
    assert_eq!(generate_script(&policy, "nft"), generate_script(&policy, "nft"));
    assert_eq!(generate_script(&policy, "nft"), generate_script(&copy, "nft"));
}
