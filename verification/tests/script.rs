use nftablesbuilder::model::ConfigurationItems;
use nftablesbuilder::script::{
    active_defaults, add_natrule_to_filter, addcounters, insert_after_marker, logcommand,
    netdev_logcommand,
};

fn s(text: &str) -> String {
    String::from(text)
}

fn strings(items: &[&str]) -> Vec<String> {
    items.iter().map(|s| String::from(*s)).collect()
}

#[test]
fn the_accept_line_goes_behind_every_opening_of_the_chain() {
    let script = strings(&["  chain C {", "x", "chain C {  ", "  chain D {", "  chain C_snat {"]);
    let out = add_natrule_to_filter(script, &s("C"), &s("L "), &s("lim "));
    assert_eq!(
        out,
        strings(&[
            "  chain C {",
            "L lim  accept # allow nat rule",
            "x",
            "chain C {  ",
            "L lim  accept # allow nat rule",
            "  chain D {",
            "  chain C_snat {",
        ])
    );
}

#[test]
fn without_the_chain_the_script_stays() {
    let script = strings(&["a", "  chain D {", "  }"]);
    assert_eq!(add_natrule_to_filter(script.clone(), &s("C"), &s("L"), &s("")), script);
    assert_eq!(add_natrule_to_filter(vec![], &s("C"), &s("L"), &s("")), Vec::<String>::new());
}

#[test]
fn counters_are_declared_behind_the_marker() {
    let script = strings(&["a", "  # Counters", "b"]);
    assert_eq!(
        addcounters(script, strings(&["c1", "c2"])),
        strings(&["a", "  # Counters", "  counter c1 {", "  }", "  counter c2 {", "  }", "b"])
    );
}

#[test]
fn counters_need_the_marker() {
    let script = strings(&["a", "  # Counter", "b"]);
    assert_eq!(addcounters(script.clone(), strings(&["c1"])), script);
    let marked = strings(&["# Counters"]);
    assert_eq!(addcounters(marked.clone(), vec![]), marked);
}

#[test]
fn a_block_goes_behind_each_marker() {
    let out = insert_after_marker(strings(&["m", " m ", "n"]), "m", &strings(&["1", "2"]));
    assert_eq!(out, strings(&["m", "1", "2", " m ", "1", "2", "n"]));
}

#[test]
fn counter_mode_names_a_counter_and_notes_it_once() {
    let mut counters: Vec<String> = vec![];
    let clause = logcommand(&mut counters, &s("counter"), &s("C"), "ct_invalid");
    assert_eq!(clause, "counter name counter_C_ct_invalid ");
    assert_eq!(counters, strings(&["counter_C_ct_invalid"]));
    let again = logcommand(&mut counters, &s("counter"), &s("C"), "ct_invalid");
    assert_eq!(again, "counter name counter_C_ct_invalid ");
    assert_eq!(counters, strings(&["counter_C_ct_invalid"]));
    logcommand(&mut counters, &s("counter"), &s("D"), "default");
    assert_eq!(counters, strings(&["counter_C_ct_invalid", "counter_D_default"]));
}

#[test]
fn log_mode_writes_a_prefix_and_notes_nothing() {
    let mut counters: Vec<String> = vec![];
    assert_eq!(logcommand(&mut counters, &s("log"), &s("C"), "tcp_ipv4"), "log prefix log_C_tcp_ipv4 ");
    assert!(counters.is_empty());
}

#[test]
fn other_modes_log_nothing() {
    let mut counters: Vec<String> = strings(&["x"]);
    assert_eq!(logcommand(&mut counters, &s("off"), &s("C"), "tcp_ipv4"), "");
    assert_eq!(logcommand(&mut counters, &s(""), &s("C"), "tcp_ipv4"), "");
    assert_eq!(counters, strings(&["x"]));
}

#[test]
fn ingress_drops_are_logged_under_one_name() {
    assert_eq!(netdev_logcommand(&s("counter")), "counter name counter_netdev_invalid_tcp ");
    assert_eq!(netdev_logcommand(&s("log")), "log prefix log_netdev_invalid_tcp ");
    assert_eq!(netdev_logcommand(&s("off")), "");
    assert_eq!(netdev_logcommand(&s("Counter")), "");
}

#[test]
fn protections_are_in_force_unless_named() {
    let mut policy = ConfigurationItems {
        interfaces: vec![],
        hosts: vec![],
        hostgroups: vec![],
        ipv4networks: vec![],
        ipv6networks: vec![],
        services: vec![],
        chains: vec![],
        inactive_defaults: vec![],
        filters: vec![],
        pre: s(""),
        post: s(""),
        snat: vec![],
        dnat: vec![],
        logging: s("off"),
    };
    let all = active_defaults(&policy);
    assert!(all.syn_flood && all.message_limit && all.src_eq_dst && all.ct_established);
    assert!(all.ct_related && all.ct_invalid && all.allow_nat && all.invalid_tcp_flags && all.tcp_mss);
    policy.inactive_defaults = strings(&["ICMP", "TCPMSS", "synflood"]);
    let some = active_defaults(&policy);
    assert!(!some.message_limit && !some.tcp_mss);
    assert!(some.syn_flood && some.src_eq_dst && some.allow_nat);
    policy.inactive_defaults = strings(&[
        "SYNFlood", "ICMP", "SRCEQDST", "CT-Established", "CT-Related", "CT-Invalid", "AllowNAT",
        "InvalidTCPFlags", "TCPMSS",
    ]);
    let none = active_defaults(&policy);
    assert!(!none.syn_flood && !none.message_limit && !none.src_eq_dst && !none.ct_established);
    assert!(!none.ct_related && !none.ct_invalid && !none.allow_nat && !none.invalid_tcp_flags);
    assert!(!none.tcp_mss);
}
