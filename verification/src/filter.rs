//! The filter table: the sets of the built-in protections and one block of
//! lines per filter chain.

use vstd::prelude::*;
use vstd::string::*;
use crate::model::{
    find_chain, ChainData, ChainView, ConfigurationItems, ConfigurationView, Family,
    FilterRuleData, FilterRuleView, FilterTableData, FilterTableView, Transport,
};
use crate::resolve::{chain_on_loopback, chain_on_loopback_spec};
use crate::rule::{
    comment_of, comment_text, daddr_text, destination_clause, dport_clause, dport_text,
    drop_labels, drop_word, family_valid, message_types, nfproto, nfproto_text, optional,
    resolve_rule, resolve_spec, saddr_text, service_set, set_clause, set_clause_text,
    source_clause, sport_clause, sport_text, transport_label, transport_label_text,
    transport_limit, transport_limit_text, transport_valid, type_label, type_label_text,
    type_text, type_word, verdict, verdict_spec, Resolved, ResolvedView,
};
use crate::script::{
    lemma_note_all_concat, lemma_note_all_one, log_clause, logcommand, note_all, Defaults,
};
use crate::text::{push_line, push_lines, str_eq, views};

verus! {

/// The three texts one after the other.
pub fn concat3(a: &str, b: &str, c: &str) -> (out: String)
    ensures
        out@ == a@ + b@ + c@,
{
    let mut out = String::from_str(a);
    out.append(b);
    out.append(c);
    out
}

/// The line of a rule for one family and one transport.
pub open spec fn transport_line(
    logging: Seq<char>,
    chain: Seq<char>,
    d: Defaults,
    r: ResolvedView,
    action: Seq<char>,
    comment: Seq<char>,
    family: Family,
    transport: Transport,
) -> Seq<char> {
    nfproto(family) + source_clause(r, family) + destination_clause(r, family) + sport_clause(
        r,
        transport,
    ) + dport_clause(r, transport) + verdict_spec(
        logging,
        chain,
        action,
        transport_limit(d, family, transport),
        transport_label(family, transport),
    ) + comment_text(comment)
}

/// The line of a rule for the control messages of one family.
pub open spec fn type_line(
    logging: Seq<char>,
    chain: Seq<char>,
    r: ResolvedView,
    action: Seq<char>,
    comment: Seq<char>,
    family: Family,
) -> Seq<char> {
    nfproto(family) + source_clause(r, family) + destination_clause(r, family) + set_clause(
        type_word(family),
        message_types(r, family),
    ) + verdict_spec(logging, chain, action, Seq::empty(), type_label(family)) + comment_text(
        comment,
    )
}

/// Whether a rule gets a control message line in one family: the protection
/// of control messages is in force and the rule names a type of that family.
pub open spec fn type_line_due(d: Defaults, r: ResolvedView, family: Family) -> bool {
    d.message_limit && message_types(r, family).len() > 0
}

/// The lines of a rule for one family: nothing unless the rule applies to
/// the family; else a line for TCP and one for UDP, each where the rule
/// applies to that transport, and one for control messages where due.
pub open spec fn filter_family_lines(
    logging: Seq<char>,
    chain: Seq<char>,
    d: Defaults,
    r: ResolvedView,
    action: Seq<char>,
    comment: Seq<char>,
    family: Family,
) -> Seq<Seq<char>> {
    if family_valid(r, family, service_set(r)) {
        optional(
            transport_valid(r, Transport::Tcp),
            transport_line(logging, chain, d, r, action, comment, family, Transport::Tcp),
        ) + optional(
            transport_valid(r, Transport::Udp),
            transport_line(logging, chain, d, r, action, comment, family, Transport::Udp),
        ) + optional(
            type_line_due(d, r, family),
            type_line(logging, chain, r, action, comment, family),
        )
    } else {
        Seq::empty()
    }
}

/// The kinds of drop that the lines of a rule for one family stand for.
pub open spec fn filter_family_labels(
    d: Defaults,
    r: ResolvedView,
    action: Seq<char>,
    family: Family,
) -> Seq<Seq<char>> {
    if family_valid(r, family, service_set(r)) {
        (if transport_valid(r, Transport::Tcp) {
            drop_labels(action, transport_label(family, Transport::Tcp))
        } else {
            Seq::empty()
        }) + (if transport_valid(r, Transport::Udp) {
            drop_labels(action, transport_label(family, Transport::Udp))
        } else {
            Seq::empty()
        }) + (if type_line_due(d, r, family) {
            drop_labels(action, type_label(family))
        } else {
            Seq::empty()
        })
    } else {
        Seq::empty()
    }
}

/// What the names of a filter rule resolve to.
pub open spec fn resolve_filter_rule(c: ConfigurationView, rule: FilterRuleView) -> ResolvedView {
    resolve_spec(c, rule.source, rule.sourceservice, rule.destination, rule.destinationservice)
}

/// The lines of one filter rule in `chain`: none for a rule that is not
/// active, else those for IPv4 and then those for IPv6.
pub open spec fn filter_rule_lines(
    c: ConfigurationView,
    d: Defaults,
    chain: Seq<char>,
    rule: FilterRuleView,
) -> Seq<Seq<char>> {
    if rule.active {
        let r = resolve_filter_rule(c, rule);
        filter_family_lines(c.logging, chain, d, r, rule.action, rule.comment, Family::V4)
            + filter_family_lines(c.logging, chain, d, r, rule.action, rule.comment, Family::V6)
    } else {
        Seq::empty()
    }
}

/// The kinds of drop that the lines of one filter rule stand for.
pub open spec fn filter_rule_labels(c: ConfigurationView, d: Defaults, rule: FilterRuleView) -> Seq<
    Seq<char>,
> {
    if rule.active {
        let r = resolve_filter_rule(c, rule);
        filter_family_labels(d, r, rule.action, Family::V4) + filter_family_labels(
            d,
            r,
            rule.action,
            Family::V6,
        )
    } else {
        Seq::empty()
    }
}

/// The lines of a list of filter rules in `chain`, in order.
pub open spec fn filter_rules_lines(
    c: ConfigurationView,
    d: Defaults,
    chain: Seq<char>,
    rules: Seq<FilterRuleView>,
) -> Seq<Seq<char>>
    decreases rules.len(),
{
    if rules.len() == 0 {
        Seq::empty()
    } else {
        filter_rules_lines(c, d, chain, rules.drop_last()) + filter_rule_lines(
            c,
            d,
            chain,
            rules.last(),
        )
    }
}

/// The kinds of drop that the lines of a list of filter rules stand for.
pub open spec fn filter_rules_labels(
    c: ConfigurationView,
    d: Defaults,
    rules: Seq<FilterRuleView>,
) -> Seq<Seq<char>>
    decreases rules.len(),
{
    if rules.len() == 0 {
        Seq::empty()
    } else {
        filter_rules_labels(c, d, rules.drop_last()) + filter_rule_labels(c, d, rules.last())
    }
}

/// Whether a chain gets the statements that drop a packet whose source is
/// its own destination: that protection is in force and the chain is not
/// attached to a loopback interface.
pub open spec fn antispoof_due(c: ConfigurationView, d: Defaults, chain: ChainView) -> bool {
    d.src_eq_dst && !chain_on_loopback_spec(c, chain)
}

/// The statements that drop a packet whose source is its own destination.
pub open spec fn antispoof_lines(logging: Seq<char>, chain: Seq<char>) -> Seq<Seq<char>> {
    seq![
        "    meta nfproto ipv4 update @"@ + chain + "_dest_ipv4 { ip daddr }"@,
        "    meta nfproto ipv4 ip saddr @"@ + chain + "_dest_ipv4 "@ + log_clause(
            logging,
            chain,
            "src_eq_dst_ipv4"@,
        ) + "drop"@,
        "    meta nfproto ipv4 delete @"@ + chain + "_dest_ipv4 { ip daddr }"@,
        "    meta nfproto ipv6 update @"@ + chain + "_dest_ipv6 { ip6 daddr }"@,
        "    meta nfproto ipv6 ip6 saddr @"@ + chain + "_dest_ipv6 "@ + log_clause(
            logging,
            chain,
            "src_eq_dst_ipv6"@,
        ) + "drop"@,
        "    meta nfproto ipv6 delete @"@ + chain + "_dest_ipv6 { ip6 daddr }"@,
    ]
}

/// The kinds of drop that those statements stand for.
pub open spec fn antispoof_labels() -> Seq<Seq<char>> {
    seq!["src_eq_dst_ipv4"@, "src_eq_dst_ipv6"@]
}

/// The statements on connection state: established and related connections
/// are accepted and invalid ones dropped, each where that protection is in
/// force.
pub open spec fn conntrack_lines(logging: Seq<char>, chain: Seq<char>, d: Defaults) -> Seq<
    Seq<char>,
> {
    optional(d.ct_established, "    ct state established accept"@) + optional(
        d.ct_related,
        "    ct state related accept"@,
    ) + optional(
        d.ct_invalid,
        "    ct state invalid "@ + log_clause(logging, chain, "ct_invalid"@) + "drop"@,
    )
}

/// The kinds of drop that the statements on connection state stand for.
pub open spec fn conntrack_labels(d: Defaults) -> Seq<Seq<char>> {
    optional(d.ct_invalid, "ct_invalid"@)
}

/// The statements that limit the rate of control messages.
pub open spec fn message_limit_lines(d: Defaults) -> Seq<Seq<char>> {
    if d.message_limit {
        seq![
            "    meta l4proto icmp update @icmp_rate_limit_ipv4 { ip saddr limit rate 10/second }"@,
            "    meta l4proto ipv6-icmp update @icmp_rate_limit_ipv6 { ip6 saddr limit rate 10/second }"@,
        ]
    } else {
        Seq::empty()
    }
}

/// The last statement of a chain: a drop, logged or counted, or the policy
/// of the table as it is written.
pub open spec fn policy_line(logging: Seq<char>, chain: Seq<char>, policy: Seq<char>) -> Seq<char> {
    if policy == drop_word() {
        "    "@ + log_clause(logging, chain, "default"@) + "drop "@
    } else {
        "    "@ + policy
    }
}

/// The kind of drop that the last statement of a chain stands for.
pub open spec fn policy_labels(policy: Seq<char>) -> Seq<Seq<char>> {
    drop_labels(policy, "default"@)
}

/// The line that opens the body of a chain.
pub open spec fn chain_open_line(chain: Seq<char>) -> Seq<char> {
    "  chain "@ + chain + " {"@
}

/// The line that closes the body of a chain.
pub open spec fn chain_close_line() -> Seq<char> {
    "  }"@
}

/// The head of the block of a filter table: the opening line, the statements
/// on packets whose source is their own destination where due, those on
/// connection state and those that limit control messages.
pub open spec fn chain_head_lines(
    c: ConfigurationView,
    d: Defaults,
    table: FilterTableView,
    chain: ChainView,
) -> Seq<Seq<char>> {
    seq![chain_open_line(table.chain)] + (if antispoof_due(c, d, chain) {
        antispoof_lines(c.logging, table.chain)
    } else {
        Seq::empty()
    }) + conntrack_lines(c.logging, table.chain, d) + message_limit_lines(d)
}

/// The kinds of drop that the head of a block stands for.
pub open spec fn chain_head_labels(c: ConfigurationView, d: Defaults, chain: ChainView) -> Seq<
    Seq<char>,
> {
    (if antispoof_due(c, d, chain) {
        antispoof_labels()
    } else {
        Seq::empty()
    }) + conntrack_labels(d)
}

/// The lines of the rules of a filter table: none unless its chain filters.
pub open spec fn chain_rules_lines(
    c: ConfigurationView,
    d: Defaults,
    table: FilterTableView,
    chain: ChainView,
) -> Seq<Seq<char>> {
    if chain.filter {
        filter_rules_lines(c, d, table.chain, table.rules)
    } else {
        Seq::empty()
    }
}

/// The kinds of drop that the rules of a filter table stand for.
pub open spec fn chain_rules_labels(
    c: ConfigurationView,
    d: Defaults,
    table: FilterTableView,
    chain: ChainView,
) -> Seq<Seq<char>> {
    if chain.filter {
        filter_rules_labels(c, d, table.rules)
    } else {
        Seq::empty()
    }
}

/// The end of the block of a filter table: its policy and the closing line.
pub open spec fn chain_tail_lines(c: ConfigurationView, table: FilterTableView) -> Seq<Seq<char>> {
    seq![policy_line(c.logging, table.chain, table.policy), chain_close_line()]
}

/// The block of lines of one filter table whose chain is `chain`.
pub open spec fn chain_block_lines(
    c: ConfigurationView,
    d: Defaults,
    table: FilterTableView,
    chain: ChainView,
) -> Seq<Seq<char>> {
    chain_head_lines(c, d, table, chain) + chain_rules_lines(c, d, table, chain)
        + chain_tail_lines(c, table)
}

/// The kinds of drop that the block of one filter table stands for.
pub open spec fn chain_block_labels(
    c: ConfigurationView,
    d: Defaults,
    table: FilterTableView,
    chain: ChainView,
) -> Seq<Seq<char>> {
    chain_head_labels(c, d, chain) + chain_rules_labels(c, d, table, chain) + policy_labels(
        table.policy,
    )
}

/// The lines of one filter table: none for a deleted table or one whose chain
/// is not defined, else the block of its chain.
pub open spec fn filter_table_lines(c: ConfigurationView, d: Defaults, table: FilterTableView) -> Seq<
    Seq<char>,
> {
    if table.deleted {
        Seq::empty()
    } else {
        match find_chain(c.chains, table.chain) {
            Some(chain) => chain_block_lines(c, d, table, chain),
            None => Seq::empty(),
        }
    }
}

/// The kinds of drop that the lines of one filter table stand for.
pub open spec fn filter_table_labels(c: ConfigurationView, d: Defaults, table: FilterTableView) -> Seq<
    Seq<char>,
> {
    if table.deleted {
        Seq::empty()
    } else {
        match find_chain(c.chains, table.chain) {
            Some(chain) => chain_block_labels(c, d, table, chain),
            None => Seq::empty(),
        }
    }
}

/// The lines of a list of filter tables, in order.
pub open spec fn filter_tables_lines(
    c: ConfigurationView,
    d: Defaults,
    tables: Seq<FilterTableView>,
) -> Seq<Seq<char>>
    decreases tables.len(),
{
    if tables.len() == 0 {
        Seq::empty()
    } else {
        filter_tables_lines(c, d, tables.drop_last()) + filter_table_lines(c, d, tables.last())
    }
}

/// The counters once the lines of a list of filter tables are written.
pub open spec fn filter_tables_counters(
    counters: Seq<Seq<char>>,
    c: ConfigurationView,
    d: Defaults,
    tables: Seq<FilterTableView>,
) -> Seq<Seq<char>>
    decreases tables.len(),
{
    if tables.len() == 0 {
        counters
    } else {
        note_all(
            filter_tables_counters(counters, c, d, tables.drop_last()),
            c.logging,
            tables.last().chain,
            filter_table_labels(c, d, tables.last()),
        )
    }
}

/// The declaration of a set of addresses that forget what they hold after a
/// second.
pub open spec fn rate_limit_set(name: Seq<char>, kind: Seq<char>) -> Seq<Seq<char>> {
    seq![
        "  set "@ + name + " { type "@ + kind,
        "    timeout 1s"@,
        "    flags dynamic"@,
        "  }"@,
    ]
}

/// The sets that limit the rate of new connections.
pub open spec fn syn_sets(d: Defaults) -> Seq<Seq<char>> {
    if d.syn_flood {
        rate_limit_set("syn_rate_limit_ipv4"@, "ipv4_addr"@) + rate_limit_set(
            "syn_rate_limit_ipv6"@,
            "ipv6_addr"@,
        )
    } else {
        Seq::empty()
    }
}

/// The sets that limit the rate of control messages.
pub open spec fn message_sets(d: Defaults) -> Seq<Seq<char>> {
    if d.message_limit {
        rate_limit_set("icmp_rate_limit_ipv4"@, "ipv4_addr"@) + rate_limit_set(
            "icmp_rate_limit_ipv6"@,
            "ipv6_addr"@,
        )
    } else {
        Seq::empty()
    }
}

/// The two sets in which a chain keeps the destination of the packet at hand.
pub open spec fn antispoof_set_lines(chain: Seq<char>) -> Seq<Seq<char>> {
    seq![
        "  set "@ + chain + "_dest_ipv4 { type ipv4_addr; }"@,
        "  set "@ + chain + "_dest_ipv6 { type ipv6_addr; }"@,
    ]
}

/// The sets of one filter table: none for a deleted table, for one whose
/// chain is not defined, or for one whose chain gets no such statements.
pub open spec fn antispoof_table_sets(c: ConfigurationView, d: Defaults, table: FilterTableView) -> Seq<
    Seq<char>,
> {
    if table.deleted {
        Seq::empty()
    } else {
        match find_chain(c.chains, table.chain) {
            Some(chain) => if antispoof_due(c, d, chain) {
                antispoof_set_lines(table.chain)
            } else {
                Seq::empty()
            },
            None => Seq::empty(),
        }
    }
}

/// The sets of a list of filter tables, in order.
pub open spec fn antispoof_sets(c: ConfigurationView, d: Defaults, tables: Seq<FilterTableView>) -> Seq<
    Seq<char>,
>
    decreases tables.len(),
{
    if tables.len() == 0 {
        Seq::empty()
    } else {
        antispoof_sets(c, d, tables.drop_last()) + antispoof_table_sets(c, d, tables.last())
    }
}

/// All the sets that the filter table declares.
pub open spec fn set_declarations(c: ConfigurationView, d: Defaults) -> Seq<Seq<char>> {
    syn_sets(d) + message_sets(d) + antispoof_sets(c, d, c.filters)
}

/// The line of a rule for one family and one transport; a drop is noted in
/// `counters`.
pub fn transport_line_text(
    counters: &mut Vec<String>,
    logging: &String,
    chain: &String,
    d: Defaults,
    r: &Resolved,
    action: &String,
    comment: &String,
    family: Family,
    transport: Transport,
) -> (line: String)
    ensures
        line@ == transport_line(
            logging@,
            chain@,
            d,
            r@,
            action@,
            comment@,
            family,
            transport,
        ),
        views(final(counters)@) == note_all(
            views(old(counters)@),
            logging@,
            chain@,
            drop_labels(action@, transport_label(family, transport)),
        ),
{
    let mut line = String::from_str(nfproto_text(family));
    line.append(set_clause_text(saddr_text(family), r.sources(family)).as_str());
    line.append(set_clause_text(daddr_text(family), r.destinations(family)).as_str());
    line.append(set_clause_text(sport_text(transport), r.source_ports(transport)).as_str());
    line.append(set_clause_text(dport_text(transport), r.destination_ports(transport)).as_str());
    line.append(
        verdict(
            counters,
            logging,
            chain,
            action,
            transport_limit_text(d, family, transport),
            transport_label_text(family, transport),
        ).as_str(),
    );
    line.append(comment_of(comment).as_str());
    line
}

/// The line of a rule for the control messages of one family; a drop is
/// noted in `counters`.
pub fn type_line_text(
    counters: &mut Vec<String>,
    logging: &String,
    chain: &String,
    r: &Resolved,
    action: &String,
    comment: &String,
    family: Family,
) -> (line: String)
    ensures
        line@ == type_line(logging@, chain@, r@, action@, comment@, family),
        views(final(counters)@) == note_all(
            views(old(counters)@),
            logging@,
            chain@,
            drop_labels(action@, type_label(family)),
        ),
{
    let none = String::new();
    let mut line = String::from_str(nfproto_text(family));
    line.append(set_clause_text(saddr_text(family), r.sources(family)).as_str());
    line.append(set_clause_text(daddr_text(family), r.destinations(family)).as_str());
    line.append(set_clause_text(type_text(family), r.types(family)).as_str());
    line.append(
        verdict(counters, logging, chain, action, none.as_str(), type_label_text(family)).as_str(),
    );
    line.append(comment_of(comment).as_str());
    line
}

/// The lines of a rule for one family; drops are noted in `counters`.
pub fn filter_family(
    counters: &mut Vec<String>,
    logging: &String,
    chain: &String,
    d: Defaults,
    r: &Resolved,
    action: &String,
    comment: &String,
    family: Family,
) -> (lines: Vec<String>)
    ensures
        views(lines@) == filter_family_lines(logging@, chain@, d, r@, action@, comment@, family),
        views(final(counters)@) == note_all(
            views(old(counters)@),
            logging@,
            chain@,
            filter_family_labels(d, r@, action@, family),
        ),
{
    let ghost none = Seq::<Seq<char>>::empty();
    let ghost c0 = views(counters@);
    let mut lines: Vec<String> = Vec::new();
    assert(views(lines@) =~= none);
    if !r.applies_to_family(family, r.has_service()) {
        return lines;
    }
    let ghost tcp_labels = if transport_valid(r@, Transport::Tcp) {
        drop_labels(action@, transport_label(family, Transport::Tcp))
    } else {
        none
    };
    let ghost udp_labels = if transport_valid(r@, Transport::Udp) {
        drop_labels(action@, transport_label(family, Transport::Udp))
    } else {
        none
    };
    let ghost type_labels = if type_line_due(d, r@, family) {
        drop_labels(action@, type_label(family))
    } else {
        none
    };
    let ghost tcp_part = optional(
        transport_valid(r@, Transport::Tcp),
        transport_line(logging@, chain@, d, r@, action@, comment@, family, Transport::Tcp),
    );
    let ghost udp_part = optional(
        transport_valid(r@, Transport::Udp),
        transport_line(logging@, chain@, d, r@, action@, comment@, family, Transport::Udp),
    );
    let ghost type_part = optional(
        type_line_due(d, r@, family),
        type_line(logging@, chain@, r@, action@, comment@, family),
    );
    if r.applies_to_transport(Transport::Tcp) {
        let line = transport_line_text(
            counters,
            logging,
            chain,
            d,
            r,
            action,
            comment,
            family,
            Transport::Tcp,
        );
        push_line(&mut lines, line);
    }
    assert(views(lines@) =~= tcp_part);
    assert(views(counters@) == note_all(c0, logging@, chain@, tcp_labels));
    if r.applies_to_transport(Transport::Udp) {
        let line = transport_line_text(
            counters,
            logging,
            chain,
            d,
            r,
            action,
            comment,
            family,
            Transport::Udp,
        );
        push_line(&mut lines, line);
    }
    assert(views(lines@) =~= tcp_part + udp_part);
    proof {
        lemma_note_all_concat(c0, logging@, chain@, tcp_labels, udp_labels);
    }
    assert(views(counters@) == note_all(c0, logging@, chain@, tcp_labels + udp_labels));
    if d.message_limit && r.types(family).len() > 0 {
        let line = type_line_text(counters, logging, chain, r, action, comment, family);
        push_line(&mut lines, line);
    }
    assert(views(lines@) =~= tcp_part + udp_part + type_part);
    proof {
        lemma_note_all_concat(c0, logging@, chain@, tcp_labels + udp_labels, type_labels);
    }
    lines
}

/// The lines of one filter rule in `chain`; drops are noted in `counters`.
pub fn filter_rule(
    counters: &mut Vec<String>,
    config_items: &ConfigurationItems,
    d: Defaults,
    chain: &String,
    rule: &FilterRuleData,
) -> (lines: Vec<String>)
    ensures
        views(lines@) == filter_rule_lines(config_items@, d, chain@, rule@),
        views(final(counters)@) == note_all(
            views(old(counters)@),
            config_items@.logging,
            chain@,
            filter_rule_labels(config_items@, d, rule@),
        ),
{
    let ghost c0 = views(counters@);
    if !rule.active {
        let lines: Vec<String> = Vec::new();
        assert(views(lines@) =~= Seq::<Seq<char>>::empty());
        return lines;
    }
    let r = resolve_rule(
        config_items,
        &rule.source,
        &rule.sourceservice,
        &rule.destination,
        &rule.destinationservice,
    );
    let mut lines = filter_family(
        counters,
        &config_items.logging,
        chain,
        d,
        &r,
        &rule.action,
        &rule.comment,
        Family::V4,
    );
    let more = filter_family(
        counters,
        &config_items.logging,
        chain,
        d,
        &r,
        &rule.action,
        &rule.comment,
        Family::V6,
    );
    push_lines(&mut lines, &more);
    proof {
        lemma_note_all_concat(
            c0,
            config_items@.logging,
            chain@,
            filter_family_labels(d, r@, rule@.action, Family::V4),
            filter_family_labels(d, r@, rule@.action, Family::V6),
        );
    }
    lines
}

/// The lines of the rules of a filter table; drops are noted in `counters`.
pub fn filter_rules(
    counters: &mut Vec<String>,
    config_items: &ConfigurationItems,
    d: Defaults,
    table: &FilterTableData,
) -> (lines: Vec<String>)
    ensures
        views(lines@) == filter_rules_lines(config_items@, d, table@.chain, table@.rules),
        views(final(counters)@) == note_all(
            views(old(counters)@),
            config_items@.logging,
            table@.chain,
            filter_rules_labels(config_items@, d, table@.rules),
        ),
{
    let ghost c = config_items@;
    let ghost c0 = views(counters@);
    let ghost all = table@.rules;
    let mut lines: Vec<String> = Vec::new();
    let mut i: usize = 0;
    assert(views(lines@) =~= Seq::<Seq<char>>::empty());
    assert(all.take(0) =~= Seq::<FilterRuleView>::empty());
    while i < table.rules.len()
        invariant
            i <= table.rules.len(),
            c == config_items@,
            all == table@.rules,
            all.len() == table.rules.len(),
            views(lines@) == filter_rules_lines(c, d, table@.chain, all.take(i as int)),
            views(counters@) == note_all(
                c0,
                c.logging,
                table@.chain,
                filter_rules_labels(c, d, all.take(i as int)),
            ),
        decreases table.rules.len() - i,
    {
        assert(all.take(i as int + 1).drop_last() =~= all.take(i as int));
        assert(all.take(i as int + 1).last() == table.rules@[i as int]@);
        let more = filter_rule(counters, config_items, d, &table.chain, &table.rules[i]);
        push_lines(&mut lines, &more);
        proof {
            lemma_note_all_concat(
                c0,
                c.logging,
                table@.chain,
                filter_rules_labels(c, d, all.take(i as int)),
                filter_rule_labels(c, d, table.rules@[i as int]@),
            );
        }
        i = i + 1;
    }
    assert(all.take(i as int) =~= all);
    lines
}

/// The statements that drop a packet whose source is its own destination;
/// the drops are noted in `counters`.
pub fn antispoof(counters: &mut Vec<String>, logging: &String, chain: &String) -> (lines: Vec<
    String,
>)
    ensures
        views(lines@) == antispoof_lines(logging@, chain@),
        views(final(counters)@) == note_all(
            views(old(counters)@),
            logging@,
            chain@,
            antispoof_labels(),
        ),
{
    let ghost c0 = views(counters@);
    let name = chain.as_str();
    let mut lines: Vec<String> = Vec::new();
    lines.push(concat3("    meta nfproto ipv4 update @", name, "_dest_ipv4 { ip daddr }"));
    let mut drop4 = concat3("    meta nfproto ipv4 ip saddr @", name, "_dest_ipv4 ");
    drop4.append(logcommand(counters, logging, chain, "src_eq_dst_ipv4").as_str());
    drop4.append("drop");
    lines.push(drop4);
    lines.push(concat3("    meta nfproto ipv4 delete @", name, "_dest_ipv4 { ip daddr }"));
    lines.push(concat3("    meta nfproto ipv6 update @", name, "_dest_ipv6 { ip6 daddr }"));
    let mut drop6 = concat3("    meta nfproto ipv6 ip6 saddr @", name, "_dest_ipv6 ");
    drop6.append(logcommand(counters, logging, chain, "src_eq_dst_ipv6").as_str());
    drop6.append("drop");
    lines.push(drop6);
    lines.push(concat3("    meta nfproto ipv6 delete @", name, "_dest_ipv6 { ip6 daddr }"));
    assert(views(lines@) =~= antispoof_lines(logging@, chain@));
    proof {
        lemma_note_all_one(c0, logging@, chain@, "src_eq_dst_ipv4"@);
        lemma_note_all_one(
            note_all(c0, logging@, chain@, seq!["src_eq_dst_ipv4"@]),
            logging@,
            chain@,
            "src_eq_dst_ipv6"@,
        );
        lemma_note_all_concat(
            c0,
            logging@,
            chain@,
            seq!["src_eq_dst_ipv4"@],
            seq!["src_eq_dst_ipv6"@],
        );
        assert(seq!["src_eq_dst_ipv4"@] + seq!["src_eq_dst_ipv6"@] =~= antispoof_labels());
    }
    lines
}

/// The statements on connection state; a drop is noted in `counters`.
pub fn conntrack(counters: &mut Vec<String>, logging: &String, chain: &String, d: Defaults) -> (lines:
    Vec<String>)
    ensures
        views(lines@) == conntrack_lines(logging@, chain@, d),
        views(final(counters)@) == note_all(
            views(old(counters)@),
            logging@,
            chain@,
            conntrack_labels(d),
        ),
{
    let ghost c0 = views(counters@);
    let mut lines: Vec<String> = Vec::new();
    if d.ct_established {
        lines.push(String::from_str("    ct state established accept"));
    }
    if d.ct_related {
        lines.push(String::from_str("    ct state related accept"));
    }
    if d.ct_invalid {
        let mut line = String::from_str("    ct state invalid ");
        line.append(logcommand(counters, logging, chain, "ct_invalid").as_str());
        line.append("drop");
        lines.push(line);
        proof {
            lemma_note_all_one(c0, logging@, chain@, "ct_invalid"@);
        }
    }
    assert(views(lines@) =~= conntrack_lines(logging@, chain@, d));
    lines
}

/// The statements that limit the rate of control messages.
pub fn message_limit(d: Defaults) -> (lines: Vec<String>)
    ensures
        views(lines@) == message_limit_lines(d),
{
    let mut lines: Vec<String> = Vec::new();
    if d.message_limit {
        lines.push(
            String::from_str(
                "    meta l4proto icmp update @icmp_rate_limit_ipv4 { ip saddr limit rate 10/second }",
            ),
        );
        lines.push(
            String::from_str(
                "    meta l4proto ipv6-icmp update @icmp_rate_limit_ipv6 { ip6 saddr limit rate 10/second }",
            ),
        );
    }
    assert(views(lines@) =~= message_limit_lines(d));
    lines
}

/// The last statement of a chain; a drop is noted in `counters`.
pub fn policy_line_text(
    counters: &mut Vec<String>,
    logging: &String,
    chain: &String,
    policy: &String,
) -> (line: String)
    ensures
        line@ == policy_line(logging@, chain@, policy@),
        views(final(counters)@) == note_all(
            views(old(counters)@),
            logging@,
            chain@,
            policy_labels(policy@),
        ),
{
    if str_eq(policy.as_str(), "drop") {
        let mut line = String::from_str("    ");
        line.append(logcommand(counters, logging, chain, "default").as_str());
        line.append("drop ");
        proof {
            lemma_note_all_one(views(old(counters)@), logging@, chain@, "default"@);
        }
        line
    } else {
        let mut line = String::from_str("    ");
        line.append(policy.as_str());
        line
    }
}

/// The head of the block of a filter table; drops are noted in `counters`.
pub fn chain_head(
    counters: &mut Vec<String>,
    config_items: &ConfigurationItems,
    d: Defaults,
    table: &FilterTableData,
    chain: &ChainData,
) -> (lines: Vec<String>)
    ensures
        views(lines@) == chain_head_lines(config_items@, d, table@, chain@),
        views(final(counters)@) == note_all(
            views(old(counters)@),
            config_items@.logging,
            table@.chain,
            chain_head_labels(config_items@, d, chain@),
        ),
{
    let ghost c = config_items@;
    let ghost c0 = views(counters@);
    let ghost none = Seq::<Seq<char>>::empty();
    let logging = &config_items.logging;
    let name = &table.chain;
    let mut lines: Vec<String> = Vec::new();
    lines.push(concat3("  chain ", name.as_str(), " {"));
    assert(views(lines@) =~= seq![chain_open_line(table@.chain)]);
    let ghost spoof_labels = if antispoof_due(c, d, chain@) {
        antispoof_labels()
    } else {
        none
    };
    if d.src_eq_dst && !chain_on_loopback(config_items, chain) {
        let part = antispoof(counters, logging, name);
        push_lines(&mut lines, &part);
    } else {
        assert(views(lines@) + none =~= views(lines@));
    }
    let part = conntrack(counters, logging, name, d);
    push_lines(&mut lines, &part);
    proof {
        lemma_note_all_concat(c0, c.logging, table@.chain, spoof_labels, conntrack_labels(d));
    }
    let part = message_limit(d);
    push_lines(&mut lines, &part);
    lines
}

/// The lines of the rules of a filter table where its chain filters; drops
/// are noted in `counters`.
pub fn chain_rules(
    counters: &mut Vec<String>,
    config_items: &ConfigurationItems,
    d: Defaults,
    table: &FilterTableData,
    chain: &ChainData,
) -> (lines: Vec<String>)
    ensures
        views(lines@) == chain_rules_lines(config_items@, d, table@, chain@),
        views(final(counters)@) == note_all(
            views(old(counters)@),
            config_items@.logging,
            table@.chain,
            chain_rules_labels(config_items@, d, table@, chain@),
        ),
{
    if chain.filter {
        filter_rules(counters, config_items, d, table)
    } else {
        let lines: Vec<String> = Vec::new();
        assert(views(lines@) =~= Seq::<Seq<char>>::empty());
        lines
    }
}

/// The end of the block of a filter table; a drop is noted in `counters`.
pub fn chain_tail(
    counters: &mut Vec<String>,
    config_items: &ConfigurationItems,
    table: &FilterTableData,
) -> (lines: Vec<String>)
    ensures
        views(lines@) == chain_tail_lines(config_items@, table@),
        views(final(counters)@) == note_all(
            views(old(counters)@),
            config_items@.logging,
            table@.chain,
            policy_labels(table@.policy),
        ),
{
    let mut lines: Vec<String> = Vec::new();
    let line = policy_line_text(counters, &config_items.logging, &table.chain, &table.policy);
    lines.push(line);
    lines.push(String::from_str("  }"));
    assert(views(lines@) =~= chain_tail_lines(config_items@, table@));
    lines
}

/// Writes the block of one filter table whose chain is `chain`; drops are
/// noted in `counters`.
pub fn chain_block(
    script: &mut Vec<String>,
    counters: &mut Vec<String>,
    config_items: &ConfigurationItems,
    d: Defaults,
    table: &FilterTableData,
    chain: &ChainData,
)
    ensures
        views(final(script)@) == views(old(script)@) + chain_block_lines(
            config_items@,
            d,
            table@,
            chain@,
        ),
        views(final(counters)@) == note_all(
            views(old(counters)@),
            config_items@.logging,
            table@.chain,
            chain_block_labels(config_items@, d, table@, chain@),
        ),
{
    let ghost c = config_items@;
    let ghost s0 = views(script@);
    let ghost c0 = views(counters@);
    let head = chain_head(counters, config_items, d, table, chain);
    push_lines(script, &head);
    let rules = chain_rules(counters, config_items, d, table, chain);
    push_lines(script, &rules);
    let tail = chain_tail(counters, config_items, table);
    push_lines(script, &tail);
    proof {
        let head_labels = chain_head_labels(c, d, chain@);
        let rules_labels = chain_rules_labels(c, d, table@, chain@);
        let tail_labels = policy_labels(table@.policy);
        lemma_note_all_concat(c0, c.logging, table@.chain, head_labels, rules_labels);
        lemma_note_all_concat(c0, c.logging, table@.chain, head_labels + rules_labels, tail_labels);
        assert(s0 + views(head@) + views(rules@) + views(tail@) =~= s0 + (views(head@) + views(
            rules@,
        ) + views(tail@)));
    }
}

/// The declaration of a set of addresses that forget what they hold after a
/// second.
pub fn rate_limit_set_text(name: &str, kind: &str) -> (lines: Vec<String>)
    ensures
        views(lines@) == rate_limit_set(name@, kind@),
{
    let mut first = concat3("  set ", name, " { type ");
    first.append(kind);
    let mut lines: Vec<String> = Vec::new();
    lines.push(first);
    lines.push(String::from_str("    timeout 1s"));
    lines.push(String::from_str("    flags dynamic"));
    lines.push(String::from_str("  }"));
    assert(views(lines@) =~= rate_limit_set(name@, kind@));
    lines
}

/// The sets that limit the rate of new connections.
pub fn syn_set_lines(d: Defaults) -> (lines: Vec<String>)
    ensures
        views(lines@) == syn_sets(d),
{
    let mut lines: Vec<String> = Vec::new();
    assert(views(lines@) =~= Seq::<Seq<char>>::empty());
    if d.syn_flood {
        lines = rate_limit_set_text("syn_rate_limit_ipv4", "ipv4_addr");
        push_lines(&mut lines, &rate_limit_set_text("syn_rate_limit_ipv6", "ipv6_addr"));
    }
    lines
}

/// The sets that limit the rate of control messages.
pub fn message_set_lines(d: Defaults) -> (lines: Vec<String>)
    ensures
        views(lines@) == message_sets(d),
{
    let mut lines: Vec<String> = Vec::new();
    assert(views(lines@) =~= Seq::<Seq<char>>::empty());
    if d.message_limit {
        lines = rate_limit_set_text("icmp_rate_limit_ipv4", "ipv4_addr");
        push_lines(&mut lines, &rate_limit_set_text("icmp_rate_limit_ipv6", "ipv6_addr"));
    }
    lines
}

/// The sets of the filter chains that drop a packet whose source is its own
/// destination.
pub fn antispoof_set_declarations(config_items: &ConfigurationItems, d: Defaults) -> (lines: Vec<
    String,
>)
    ensures
        views(lines@) == antispoof_sets(config_items@, d, config_items@.filters),
{
    let ghost c = config_items@;
    let ghost all = c.filters;
    let mut lines: Vec<String> = Vec::new();
    let mut i: usize = 0;
    assert(views(lines@) =~= Seq::<Seq<char>>::empty());
    assert(all.take(0) =~= Seq::<FilterTableView>::empty());
    while i < config_items.filters.len()
        invariant
            i <= config_items.filters.len(),
            c == config_items@,
            all == c.filters,
            all.len() == config_items.filters.len(),
            views(lines@) == antispoof_sets(c, d, all.take(i as int)),
        decreases config_items.filters.len() - i,
    {
        assert(all.take(i as int + 1).drop_last() =~= all.take(i as int));
        assert(all.take(i as int + 1).last() == config_items.filters@[i as int]@);
        let table = &config_items.filters[i];
        let ghost before = views(lines@);
        let mut written = false;
        if !table.deleted {
            match config_items.chain(table.chain.as_str()) {
                Some(chain) => {
                    if d.src_eq_dst && !chain_on_loopback(config_items, chain) {
                        let name = table.chain.as_str();
                        push_line(&mut lines, concat3("  set ", name, "_dest_ipv4 { type ipv4_addr; }"));
                        push_line(&mut lines, concat3("  set ", name, "_dest_ipv6 { type ipv6_addr; }"));
                        written = true;
                        assert(views(lines@) =~= before + antispoof_set_lines(table@.chain));
                    }
                },
                None => {},
            }
        }
        if !written {
            assert(views(lines@) =~= before + Seq::<Seq<char>>::empty());
        }
        i = i + 1;
    }
    assert(all.take(i as int) =~= all);
    lines
}

/// Writes all the sets that the filter table declares.
pub fn declare_sets(script: &mut Vec<String>, config_items: &ConfigurationItems, d: Defaults)
    ensures
        views(final(script)@) == views(old(script)@) + set_declarations(config_items@, d),
{
    let ghost s0 = views(script@);
    push_lines(script, &syn_set_lines(d));
    push_lines(script, &message_set_lines(d));
    push_lines(script, &antispoof_set_declarations(config_items, d));
    assert(views(script@) =~= s0 + set_declarations(config_items@, d));
}

/// Writes the blocks of all filter tables; drops are noted in `counters`.
pub fn filter_tables(
    script: &mut Vec<String>,
    counters: &mut Vec<String>,
    config_items: &ConfigurationItems,
    d: Defaults,
)
    ensures
        views(final(script)@) == views(old(script)@) + filter_tables_lines(
            config_items@,
            d,
            config_items@.filters,
        ),
        views(final(counters)@) == filter_tables_counters(
            views(old(counters)@),
            config_items@,
            d,
            config_items@.filters,
        ),
{
    let ghost c = config_items@;
    let ghost s0 = views(script@);
    let ghost c0 = views(counters@);
    let ghost all = c.filters;
    let mut i: usize = 0;
    assert(all.take(0) =~= Seq::<FilterTableView>::empty());
    assert(views(script@) =~= s0 + Seq::<Seq<char>>::empty());
    while i < config_items.filters.len()
        invariant
            i <= config_items.filters.len(),
            c == config_items@,
            all == c.filters,
            all.len() == config_items.filters.len(),
            views(script@) == s0 + filter_tables_lines(c, d, all.take(i as int)),
            views(counters@) == filter_tables_counters(c0, c, d, all.take(i as int)),
        decreases config_items.filters.len() - i,
    {
        assert(all.take(i as int + 1).drop_last() =~= all.take(i as int));
        assert(all.take(i as int + 1).last() == config_items.filters@[i as int]@);
        let table = &config_items.filters[i];
        let ghost sofar = filter_tables_lines(c, d, all.take(i as int));
        if !table.deleted {
            match config_items.chain(table.chain.as_str()) {
                Some(chain) => {
                    chain_block(script, counters, config_items, d, table, chain);
                },
                None => {},
            }
        }
        assert(views(script@) =~= s0 + (sofar + filter_table_lines(c, d, table@)));
        i = i + 1;
    }
    assert(all.take(i as int) =~= all);
}

} // verus!
