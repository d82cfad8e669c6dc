//! Counters in the text of the script: in counter mode every counter that
//! is declared is referred to by a line of the table that declares it.

use vstd::prelude::*;
use crate::compile::{
    counters_block, counters_of, dispatch_lines, dnat_opening, dnat_sections, filter_body,
    filter_opening, filter_part, flag_check, flag_lines, flag_part, header_lines, ingress_chain,
    ingress_chains, mss_part, netdev_counts, netdev_lines, netdev_opening, script_spec,
    snat_opening, snat_sections,
};
use crate::filter::{
    antispoof_due, antispoof_labels, antispoof_lines, chain_block_labels, chain_block_lines,
    chain_head_labels, chain_head_lines, chain_open_line, chain_rules_labels,
    chain_rules_lines, chain_tail_lines, conntrack_labels, conntrack_lines,
    filter_family_labels, filter_family_lines, filter_rule_labels, filter_rule_lines,
    filter_rules_labels, filter_rules_lines, filter_table_labels, filter_table_lines,
    filter_tables_lines, message_limit_lines, policy_labels, policy_line, resolve_filter_rule,
    set_declarations, transport_line, type_line, type_line_due,
};
use crate::laws::{
    counter_names, lemma_concat_contains, lemma_counters_match_references, referenced_counters,
};
use crate::model::{
    find_chain, ChainView, ConfigurationView, Family, FilterRuleView, FilterTableView,
    InterfaceView, NatKind, NatRuleView, NatTableView, Transport,
};
use crate::rule::{
    comment_text, destination_clause, dport_clause, drop_labels, drop_word, family_valid,
    message_types, nfproto, optional, service_set, set_clause, source_clause, sport_clause,
    transport_label, transport_limit, transport_valid, type_label, type_word, ResolvedView,
};
use crate::script::{
    chain_opening, counter_declaration, counter_declarations, counter_mode, insert_after,
    log_clause, log_id, mirror_line, netdev_log_clause, Defaults,
};
use crate::text::{lines_spec, occurs_at, trim_spec};
use crate::translate::{
    interface_match, mirror_match, nat_due, nat_emit, nat_hook_line, nat_open_line,
    nat_rules_spec, nat_table_due, nat_tables_spec, resolve_nat_rule, translation_spec,
    with_nat_line, SectionsView, TranslationView,
};

verus! {

/// The words by which a line refers to the counter `name`.
pub open spec fn reference_text(name: Seq<char>) -> Seq<char> {
    "counter name "@ + name + " "@
}

/// Whether a line refers to the counter `name`.
pub open spec fn refers_to(line: Seq<char>, name: Seq<char>) -> bool {
    exists|i: int| occurs_at(line, reference_text(name), i)
}

/// Whether one of the lines refers to the counter `name`.
pub open spec fn some_line_refers(lines: Seq<Seq<char>>, name: Seq<char>) -> bool {
    exists|j: int| 0 <= j < lines.len() && refers_to(#[trigger] lines[j], name)
}

/// Whether for each of the kinds of drop `labels` in `chain` one of the
/// lines refers to its counter.
pub open spec fn all_referred(
    lines: Seq<Seq<char>>,
    chain: Seq<char>,
    labels: Seq<Seq<char>>,
) -> bool {
    forall|k: int|
        0 <= k < labels.len() ==> some_line_refers(
            lines,
            log_id(counter_mode(), chain, #[trigger] labels[k]),
        )
}

/// In counter mode a line that holds the clause of a drop refers to the
/// counter of that drop.
pub proof fn lemma_clause_refers(
    before: Seq<char>,
    chain: Seq<char>,
    label: Seq<char>,
    after: Seq<char>,
)
    ensures
        refers_to(
            before + log_clause(counter_mode(), chain, label) + after,
            log_id(counter_mode(), chain, label),
        ),
{
    let clause = log_clause(counter_mode(), chain, label);
    let line = before + clause + after;
    assert(clause == reference_text(log_id(counter_mode(), chain, label)));
    assert(line.subrange(before.len() as int, (before.len() + clause.len()) as int) =~= clause);
    assert(occurs_at(line, clause, before.len() as int));
}

/// What one line of a list refers to, a longer list refers to.
pub proof fn lemma_more_lines(a: Seq<Seq<char>>, b: Seq<Seq<char>>, name: Seq<char>)
    ensures
        some_line_refers(a, name) ==> some_line_refers(a + b, name),
        some_line_refers(b, name) ==> some_line_refers(a + b, name),
{
    if some_line_refers(a, name) {
        let j = choose|j: int| 0 <= j < a.len() && refers_to(#[trigger] a[j], name);
        assert((a + b)[j] == a[j]);
    }
    if some_line_refers(b, name) {
        let j = choose|j: int| 0 <= j < b.len() && refers_to(#[trigger] b[j], name);
        assert((a + b)[j + a.len()] == b[j]);
    }
}

/// Two lists of lines of which each refers to its drops refer, one after
/// the other, to the drops of both.
pub proof fn lemma_all_referred_concat(
    a: Seq<Seq<char>>,
    b: Seq<Seq<char>>,
    chain: Seq<char>,
    x: Seq<Seq<char>>,
    y: Seq<Seq<char>>,
)
    requires
        all_referred(a, chain, x),
        all_referred(b, chain, y),
    ensures
        all_referred(a + b, chain, x + y),
{
    assert forall|k: int| 0 <= k < (x + y).len() implies some_line_refers(
        a + b,
        log_id(counter_mode(), chain, #[trigger] (x + y)[k]),
    ) by {
        if k < x.len() {
            assert((x + y)[k] == x[k]);
            lemma_more_lines(a, b, log_id(counter_mode(), chain, x[k]));
        } else {
            assert((x + y)[k] == y[k - x.len()]);
            lemma_more_lines(a, b, log_id(counter_mode(), chain, y[k - x.len()]));
        }
    }
}

/// A list of one line that refers to the counter of a drop refers to the
/// drops of the list of that one kind.
pub proof fn lemma_one_referred(line: Seq<char>, chain: Seq<char>, label: Seq<char>)
    requires
        refers_to(line, log_id(counter_mode(), chain, label)),
    ensures
        all_referred(seq![line], chain, seq![label]),
{
    assert(seq![line][0] == line);
}

/// The statements against packets whose source is their own destination
/// refer to the counters of their drops.
pub proof fn lemma_antispoof_referred(chain: Seq<char>)
    ensures
        all_referred(antispoof_lines(counter_mode(), chain), chain, antispoof_labels()),
{
    let lines = antispoof_lines(counter_mode(), chain);
    lemma_clause_refers(
        "    meta nfproto ipv4 ip saddr @"@ + chain + "_dest_ipv4 "@,
        chain,
        "src_eq_dst_ipv4"@,
        "drop"@,
    );
    lemma_clause_refers(
        "    meta nfproto ipv6 ip6 saddr @"@ + chain + "_dest_ipv6 "@,
        chain,
        "src_eq_dst_ipv6"@,
        "drop"@,
    );
    assert(refers_to(lines[1], log_id(counter_mode(), chain, "src_eq_dst_ipv4"@)));
    assert(refers_to(lines[4], log_id(counter_mode(), chain, "src_eq_dst_ipv6"@)));
}

/// The statements on connection state refer to the counter of their drop.
pub proof fn lemma_conntrack_referred(chain: Seq<char>, d: Defaults)
    ensures
        all_referred(conntrack_lines(counter_mode(), chain, d), chain, conntrack_labels(d)),
{
    if d.ct_invalid {
        let lines = conntrack_lines(counter_mode(), chain, d);
        lemma_clause_refers("    ct state invalid "@, chain, "ct_invalid"@, "drop"@);
        assert(refers_to(lines[lines.len() - 1], log_id(counter_mode(), chain, "ct_invalid"@)));
    }
}

/// The last statement of a chain refers to the counter of its drop.
pub proof fn lemma_policy_referred(chain: Seq<char>, policy: Seq<char>)
    ensures
        all_referred(
            seq![policy_line(counter_mode(), chain, policy)],
            chain,
            policy_labels(policy),
        ),
{
    if policy == drop_word() {
        lemma_clause_refers("    "@, chain, "default"@, "drop "@);
        lemma_one_referred(policy_line(counter_mode(), chain, policy), chain, "default"@);
    }
}

/// A line of a rule that drops refers to the counter of its drop.
pub proof fn lemma_transport_line_refers(
    chain: Seq<char>,
    d: Defaults,
    r: ResolvedView,
    comment: Seq<char>,
    family: Family,
    transport: Transport,
)
    ensures
        refers_to(
            transport_line(counter_mode(), chain, d, r, drop_word(), comment, family, transport),
            log_id(counter_mode(), chain, transport_label(family, transport)),
        ),
{
    let before = nfproto(family) + source_clause(r, family) + destination_clause(r, family)
        + sport_clause(r, transport) + dport_clause(r, transport) + " "@;
    let after = "drop "@ + comment_text(comment);
    let label = transport_label(family, transport);
    lemma_clause_refers(before, chain, label, after);
    assert(transport_line(counter_mode(), chain, d, r, drop_word(), comment, family, transport)
        =~= before + log_clause(counter_mode(), chain, label) + after);
}

/// A control message line of a rule that drops refers to the counter of its
/// drop.
pub proof fn lemma_type_line_refers(
    chain: Seq<char>,
    r: ResolvedView,
    comment: Seq<char>,
    family: Family,
)
    ensures
        refers_to(
            type_line(counter_mode(), chain, r, drop_word(), comment, family),
            log_id(counter_mode(), chain, type_label(family)),
        ),
{
    let before = nfproto(family) + source_clause(r, family) + destination_clause(r, family)
        + set_clause(type_word(family), message_types(r, family)) + " "@;
    let after = "drop "@ + comment_text(comment);
    let label = type_label(family);
    lemma_clause_refers(before, chain, label, after);
    assert(type_line(counter_mode(), chain, r, drop_word(), comment, family) =~= before
        + log_clause(counter_mode(), chain, label) + after);
}

/// A line that is written where `due` refers to the drop that it stands
/// for where the action drops.
pub proof fn lemma_optional_referred(
    due: bool,
    line: Seq<char>,
    chain: Seq<char>,
    action: Seq<char>,
    label: Seq<char>,
)
    requires
        action == drop_word() ==> refers_to(line, log_id(counter_mode(), chain, label)),
    ensures
        all_referred(
            optional(due, line),
            chain,
            if due {
                drop_labels(action, label)
            } else {
                Seq::empty()
            },
        ),
{
    if due && action == drop_word() {
        lemma_one_referred(line, chain, label);
    }
}

/// The lines of a rule for one family refer to the counters of their drops.
pub proof fn lemma_family_referred(
    chain: Seq<char>,
    d: Defaults,
    r: ResolvedView,
    action: Seq<char>,
    comment: Seq<char>,
    family: Family,
)
    ensures
        all_referred(
            filter_family_lines(counter_mode(), chain, d, r, action, comment, family),
            chain,
            filter_family_labels(d, r, action, family),
        ),
{
    if family_valid(r, family, service_set(r)) {
        let lg = counter_mode();
        let tcp = transport_line(lg, chain, d, r, action, comment, family, Transport::Tcp);
        let udp = transport_line(lg, chain, d, r, action, comment, family, Transport::Udp);
        let control = type_line(lg, chain, r, action, comment, family);
        if action == drop_word() {
            lemma_transport_line_refers(chain, d, r, comment, family, Transport::Tcp);
            lemma_transport_line_refers(chain, d, r, comment, family, Transport::Udp);
            lemma_type_line_refers(chain, r, comment, family);
        }
        let has_tcp = transport_valid(r, Transport::Tcp);
        let has_udp = transport_valid(r, Transport::Udp);
        let has_type = type_line_due(d, r, family);
        lemma_optional_referred(has_tcp, tcp, chain, action, transport_label(family, Transport::Tcp));
        lemma_optional_referred(has_udp, udp, chain, action, transport_label(family, Transport::Udp));
        lemma_optional_referred(has_type, control, chain, action, type_label(family));
        let x = if has_tcp {
            drop_labels(action, transport_label(family, Transport::Tcp))
        } else {
            Seq::empty()
        };
        let y = if has_udp {
            drop_labels(action, transport_label(family, Transport::Udp))
        } else {
            Seq::empty()
        };
        let z = if has_type {
            drop_labels(action, type_label(family))
        } else {
            Seq::empty()
        };
        lemma_all_referred_concat(optional(has_tcp, tcp), optional(has_udp, udp), chain, x, y);
        lemma_all_referred_concat(
            optional(has_tcp, tcp) + optional(has_udp, udp),
            optional(has_type, control),
            chain,
            x + y,
            z,
        );
    }
}

/// The lines of a list of rules refer to the counters of their drops.
pub proof fn lemma_rules_referred(
    c: ConfigurationView,
    d: Defaults,
    chain: Seq<char>,
    rules: Seq<FilterRuleView>,
)
    requires
        c.logging == counter_mode(),
    ensures
        all_referred(filter_rules_lines(c, d, chain, rules), chain, filter_rules_labels(c, d, rules)),
    decreases rules.len(),
{
    if rules.len() > 0 {
        lemma_rules_referred(c, d, chain, rules.drop_last());
        let rule = rules.last();
        if rule.active {
            let r = resolve_filter_rule(c, rule);
            lemma_family_referred(chain, d, r, rule.action, rule.comment, Family::V4);
            lemma_family_referred(chain, d, r, rule.action, rule.comment, Family::V6);
            lemma_all_referred_concat(
                filter_family_lines(c.logging, chain, d, r, rule.action, rule.comment, Family::V4),
                filter_family_lines(c.logging, chain, d, r, rule.action, rule.comment, Family::V6),
                chain,
                filter_family_labels(d, r, rule.action, Family::V4),
                filter_family_labels(d, r, rule.action, Family::V6),
            );
        }
        lemma_all_referred_concat(
            filter_rules_lines(c, d, chain, rules.drop_last()),
            filter_rule_lines(c, d, chain, rule),
            chain,
            filter_rules_labels(c, d, rules.drop_last()),
            filter_rule_labels(c, d, rule),
        );
    }
}

/// The block of a chain refers to the counters of its drops.
pub proof fn lemma_block_referred(
    c: ConfigurationView,
    d: Defaults,
    table: FilterTableView,
    chain: ChainView,
)
    requires
        c.logging == counter_mode(),
    ensures
        all_referred(
            chain_block_lines(c, d, table, chain),
            table.chain,
            chain_block_labels(c, d, table, chain),
        ),
{
    let name = table.chain;
    let none = Seq::<Seq<char>>::empty();
    let open = seq![chain_open_line(name)];
    let spoof = if antispoof_due(c, d, chain) {
        antispoof_lines(c.logging, name)
    } else {
        none
    };
    let spoof_labels = if antispoof_due(c, d, chain) {
        antispoof_labels()
    } else {
        none
    };
    lemma_antispoof_referred(name);
    lemma_conntrack_referred(name, d);
    lemma_all_referred_concat(open, spoof, name, none, spoof_labels);
    assert(none + spoof_labels =~= spoof_labels);
    lemma_all_referred_concat(
        open + spoof,
        conntrack_lines(c.logging, name, d),
        name,
        spoof_labels,
        conntrack_labels(d),
    );
    lemma_all_referred_concat(
        open + spoof + conntrack_lines(c.logging, name, d),
        message_limit_lines(d),
        name,
        spoof_labels + conntrack_labels(d),
        none,
    );
    assert(spoof_labels + conntrack_labels(d) + none =~= chain_head_labels(c, d, chain));
    assert(all_referred(chain_head_lines(c, d, table, chain), name, chain_head_labels(c, d, chain)));
    if chain.filter {
        lemma_rules_referred(c, d, name, table.rules);
    }
    lemma_all_referred_concat(
        chain_head_lines(c, d, table, chain),
        chain_rules_lines(c, d, table, chain),
        name,
        chain_head_labels(c, d, chain),
        chain_rules_labels(c, d, table, chain),
    );
    lemma_policy_referred(name, table.policy);
    lemma_all_referred_concat(
        seq![policy_line(c.logging, name, table.policy)],
        seq![crate::filter::chain_close_line()],
        name,
        policy_labels(table.policy),
        none,
    );
    assert(policy_labels(table.policy) + none =~= policy_labels(table.policy));
    assert(seq![policy_line(c.logging, name, table.policy)] + seq![
        crate::filter::chain_close_line(),
    ] =~= chain_tail_lines(c, table));
    lemma_all_referred_concat(
        chain_head_lines(c, d, table, chain) + chain_rules_lines(c, d, table, chain),
        chain_tail_lines(c, table),
        name,
        chain_head_labels(c, d, chain) + chain_rules_labels(c, d, table, chain),
        policy_labels(table.policy),
    );
}

/// The names of the counters of drops are the names of the drops, one for
/// one.
pub proof fn lemma_counter_names(chain: Seq<char>, labels: Seq<Seq<char>>)
    ensures
        counter_names(counter_mode(), chain, labels).len() == labels.len(),
        forall|k: int|
            0 <= k < labels.len() ==> #[trigger] counter_names(counter_mode(), chain, labels)[k]
                == log_id(counter_mode(), chain, labels[k]),
    decreases labels.len(),
{
    if labels.len() > 0 {
        lemma_counter_names(chain, labels.drop_last());
        assert forall|k: int| 0 <= k < labels.len() implies #[trigger] counter_names(
            counter_mode(),
            chain,
            labels,
        )[k] == log_id(counter_mode(), chain, labels[k]) by {
            if k < labels.len() - 1 {
                assert(labels.drop_last()[k] == labels[k]);
            }
        }
    }
}

/// Every counter that the filter tables count a drop under is referred to
/// by one of their lines.
pub proof fn lemma_tables_referred(c: ConfigurationView, d: Defaults, tables: Seq<FilterTableView>)
    requires
        c.logging == counter_mode(),
    ensures
        forall|name: Seq<char>|
            referenced_counters(c, d, tables).contains(name) ==> some_line_refers(
                filter_tables_lines(c, d, tables),
                name,
            ),
    decreases tables.len(),
{
    if tables.len() > 0 {
        lemma_tables_referred(c, d, tables.drop_last());
        let table = tables.last();
        let labels = filter_table_labels(c, d, table);
        let names = counter_names(c.logging, table.chain, labels);
        let earlier = referenced_counters(c, d, tables.drop_last());
        let lines = filter_table_lines(c, d, table);
        let before = filter_tables_lines(c, d, tables.drop_last());
        lemma_counter_names(table.chain, labels);
        if !table.deleted && find_chain(c.chains, table.chain) is Some {
            lemma_block_referred(c, d, table, find_chain(c.chains, table.chain)->0);
        }
        assert(all_referred(lines, table.chain, labels));
        assert forall|name: Seq<char>| (earlier + names).contains(name) implies some_line_refers(
            before + lines,
            name,
        ) by {
            lemma_concat_contains(earlier, names, name);
            lemma_more_lines(before, lines, name);
            if names.contains(name) {
                let k = choose|k: int| 0 <= k < names.len() && names[k] == name;
                assert(name == log_id(counter_mode(), table.chain, labels[k]));
            }
        }
    }
}

/// In counter mode every counter of the filter table is referred to by a
/// line of a filter chain: none is declared that no line counts under.
pub proof fn law_declared_counters_are_referred_to(c: ConfigurationView, d: Defaults)
    requires
        c.logging == counter_mode(),
    ensures
        forall|name: Seq<char>|
            counters_of(c, d).contains(name) ==> some_line_refers(
                filter_tables_lines(c, d, c.filters),
                name,
            ),
{
    lemma_counters_match_references(c, d, c.filters);
    lemma_tables_referred(c, d, c.filters);
}

/// What a line of a script refers to, a line of the script still refers to
/// once lines were put in behind a marker.
pub proof fn lemma_insert_after_keeps(
    script: Seq<Seq<char>>,
    marker: Seq<char>,
    block: Seq<Seq<char>>,
    name: Seq<char>,
)
    requires
        some_line_refers(script, name),
    ensures
        some_line_refers(insert_after(script, marker, block), name),
    decreases script.len(),
{
    let j = choose|j: int| 0 <= j < script.len() && refers_to(#[trigger] script[j], name);
    let head = insert_after(script.drop_last(), marker, block);
    let tail = if trim_spec(script.last()) == marker {
        block
    } else {
        Seq::empty()
    };
    if j < script.len() - 1 {
        assert(script.drop_last()[j] == script[j]);
        lemma_insert_after_keeps(script.drop_last(), marker, block, name);
        lemma_more_lines(head, seq![script.last()], name);
    } else {
        assert(seq![script.last()][0] == script[j]);
        lemma_more_lines(head, seq![script.last()], name);
    }
    lemma_more_lines(head + seq![script.last()], tail, name);
}

/// Translation rules add to the lines of the filter chains and take none
/// away.
pub proof fn lemma_nat_rules_keep(
    s: SectionsView,
    c: ConfigurationView,
    d: Defaults,
    kind: NatKind,
    chain: Seq<char>,
    ifspec: Seq<char>,
    rules: Seq<NatRuleView>,
    name: Seq<char>,
)
    requires
        some_line_refers(s.filter, name),
    ensures
        some_line_refers(nat_rules_spec(s, c, d, kind, chain, ifspec, rules).filter, name),
    decreases rules.len(),
{
    if rules.len() > 0 {
        lemma_nat_rules_keep(s, c, d, kind, chain, ifspec, rules.drop_last(), name);
        let before = nat_rules_spec(s, c, d, kind, chain, ifspec, rules.drop_last());
        let rule = rules.last();
        if rule.active {
            let r = resolve_nat_rule(c, rule);
            let t = translation_spec(c, rule);
            let a = nat_emit(before, d, kind, chain, ifspec, r, t, rule.comment, Family::V4, Transport::Tcp);
            lemma_nat_emit_keeps(before, d, kind, chain, ifspec, r, t, rule.comment, Family::V4, Transport::Tcp, name);
            let b = nat_emit(a, d, kind, chain, ifspec, r, t, rule.comment, Family::V4, Transport::Udp);
            lemma_nat_emit_keeps(a, d, kind, chain, ifspec, r, t, rule.comment, Family::V4, Transport::Udp, name);
            let e = nat_emit(b, d, kind, chain, ifspec, r, t, rule.comment, Family::V6, Transport::Tcp);
            lemma_nat_emit_keeps(b, d, kind, chain, ifspec, r, t, rule.comment, Family::V6, Transport::Tcp, name);
            lemma_nat_emit_keeps(e, d, kind, chain, ifspec, r, t, rule.comment, Family::V6, Transport::Udp, name);
        }
    }
}

/// One translation line adds to the lines of the filter chains and takes
/// none away.
pub proof fn lemma_nat_emit_keeps(
    s: SectionsView,
    d: Defaults,
    kind: NatKind,
    chain: Seq<char>,
    ifspec: Seq<char>,
    r: ResolvedView,
    t: TranslationView,
    comment: Seq<char>,
    family: Family,
    transport: Transport,
    name: Seq<char>,
)
    requires
        some_line_refers(s.filter, name),
    ensures
        some_line_refers(
            nat_emit(s, d, kind, chain, ifspec, r, t, comment, family, transport).filter,
            name,
        ),
{
    if nat_due(r, t, family, transport) && d.allow_nat {
        lemma_insert_after_keeps(
            s.filter,
            chain_opening(chain),
            seq![
                mirror_line(
                    mirror_match(kind, r, t, family, transport),
                    transport_limit(d, family, transport),
                ),
            ],
            name,
        );
    }
}

/// Translation tables add to the lines of the filter chains and take none
/// away.
pub proof fn lemma_nat_tables_keep(
    s: SectionsView,
    c: ConfigurationView,
    d: Defaults,
    kind: NatKind,
    tables: Seq<NatTableView>,
    name: Seq<char>,
)
    requires
        some_line_refers(s.filter, name),
    ensures
        some_line_refers(nat_tables_spec(s, c, d, kind, tables).filter, name),
    decreases tables.len(),
{
    if tables.len() > 0 {
        lemma_nat_tables_keep(s, c, d, kind, tables.drop_last(), name);
        let before = nat_tables_spec(s, c, d, kind, tables.drop_last());
        let table = tables.last();
        if nat_table_due(c, kind, table) {
            let opened = with_nat_line(
                with_nat_line(before, nat_open_line(kind, table.chain)),
                nat_hook_line(kind),
            );
            lemma_nat_rules_keep(
                opened,
                c,
                d,
                kind,
                table.chain,
                interface_match(find_chain(c.chains, table.chain)->0),
                table.rules,
                name,
            );
        }
    }
}

/// In counter mode every counter that the filter table declares is referred
/// to by a line of the script.
pub proof fn law_declared_counters_are_referred_to_in_script(
    c: ConfigurationView,
    d: Defaults,
    nft: Seq<char>,
)
    requires
        c.logging == counter_mode(),
    ensures
        forall|name: Seq<char>|
            counters_of(c, d).contains(name) ==> some_line_refers(script_spec(c, d, nft), name),
{
    law_declared_counters_are_referred_to(c, d);
    assert forall|name: Seq<char>| counters_of(c, d).contains(name) implies some_line_refers(
        script_spec(c, d, nft),
        name,
    ) by {
        let none = Seq::<Seq<char>>::empty();
        lemma_more_lines(set_declarations(c, d), filter_tables_lines(c, d, c.filters), name);
        lemma_nat_tables_keep(
            SectionsView { filter: filter_body(c, d), table: none },
            c,
            d,
            NatKind::Source,
            c.snat,
            name,
        );
        lemma_nat_tables_keep(
            SectionsView { filter: snat_sections(c, d).filter, table: none },
            c,
            d,
            NatKind::Destination,
            c.dnat,
            name,
        );
        let front = header_lines(nft) + lines_spec(c.pre) + filter_opening() + counters_block(
            c.logging,
            counters_of(c, d),
        );
        lemma_more_lines(front, dnat_sections(c, d).filter, name);
        let rest = dispatch_lines(c) + snat_opening() + snat_sections(c, d).table + dnat_opening()
            + dnat_sections(c, d).table + netdev_opening() + netdev_lines(c, d) + seq!["}"@]
            + lines_spec(c.post);
        lemma_more_lines(filter_part(c, d, nft), rest, name);
        assert(script_spec(c, d, nft) =~= filter_part(c, d, nft) + rest);
    }
}

/// The declarations of a list of counters hold two lines for each.
pub proof fn lemma_declarations_len(counters: Seq<Seq<char>>)
    ensures
        counter_declarations(counters).len() == 2 * counters.len(),
    decreases counters.len(),
{
    if counters.len() > 0 {
        lemma_declarations_len(counters.drop_last());
    }
}

/// The two lines of the counter at index `k` of a list.
pub proof fn lemma_declaration_at(counters: Seq<Seq<char>>, k: int)
    requires
        0 <= k < counters.len(),
    ensures
        counter_declarations(counters).len() == 2 * counters.len(),
        counter_declarations(counters)[2 * k] == "  counter "@ + counters[k] + " {"@,
        counter_declarations(counters)[2 * k + 1] == "  }"@,
    decreases counters.len(),
{
    lemma_declarations_len(counters);
    lemma_declarations_len(counters.drop_last());
    let head = counter_declarations(counters.drop_last());
    let tail = counter_declaration(counters.last());
    if k < counters.len() - 1 {
        lemma_declaration_at(counters.drop_last(), k);
        assert(counters.drop_last()[k] == counters[k]);
        assert((head + tail)[2 * k] == head[2 * k]);
        assert((head + tail)[2 * k + 1] == head[2 * k + 1]);
    } else {
        assert((head + tail)[2 * k] == tail[0]);
        assert((head + tail)[2 * k + 1] == tail[1]);
    }
}

/// The declarations of a list of counters are two lines for each, in order:
/// the line that names the counter, and the closing line.
pub proof fn law_declarations_name_each_counter(counters: Seq<Seq<char>>)
    ensures
        counter_declarations(counters).len() == 2 * counters.len(),
        forall|k: int|
            0 <= k < counters.len() ==> #[trigger] counter_declarations(counters)[2 * k]
                == "  counter "@ + counters[k] + " {"@,
        forall|k: int|
            0 <= k < counters.len() ==> #[trigger] counter_declarations(counters)[2 * k + 1]
                == "  }"@,
{
    lemma_declarations_len(counters);
    assert forall|k: int| 0 <= k < counters.len() implies #[trigger] counter_declarations(
        counters,
    )[2 * k] == "  counter "@ + counters[k] + " {"@ by {
        lemma_declaration_at(counters, k);
    }
    assert forall|k: int| 0 <= k < counters.len() implies #[trigger] counter_declarations(
        counters,
    )[2 * k + 1] == "  }"@ by {
        lemma_declaration_at(counters, k);
    }
}

/// The name of the counter of the netdev table.
pub open spec fn netdev_counter_name() -> Seq<char> {
    "counter_netdev_invalid_tcp"@
}

/// In counter mode a line that drops at ingress refers to the counter of
/// the netdev table.
pub proof fn lemma_netdev_line_refers(before: Seq<char>)
    ensures
        refers_to(before + netdev_log_clause(counter_mode()) + "drop"@, netdev_counter_name()),
{
    reveal_strlit("counter name counter_netdev_invalid_tcp ");
    reveal_strlit("counter name ");
    reveal_strlit("counter_netdev_invalid_tcp");
    reveal_strlit(" ");
    let clause = netdev_log_clause(counter_mode());
    let line = before + clause + "drop"@;
    assert(clause =~= reference_text(netdev_counter_name()));
    assert(line.subrange(before.len() as int, (before.len() + clause.len()) as int) =~= clause);
    assert(occurs_at(line, clause, before.len() as int));
}

/// Where a protection at ingress is in force, a line of an ingress chain
/// refers to the counter of the netdev table.
pub proof fn lemma_ingress_chain_refers(d: Defaults, iface: InterfaceView)
    requires
        d.invalid_tcp_flags || d.tcp_mss,
    ensures
        some_line_refers(ingress_chain(counter_mode(), d, iface), netdev_counter_name()),
{
    let lg = counter_mode();
    let head = seq![
        "  chain ingress {"@,
        "    type filter hook ingress device "@ + iface.systemname + " priority -500;"@,
    ];
    let close = seq!["  }"@];
    if d.invalid_tcp_flags {
        lemma_netdev_line_refers(flag_check(0));
        reveal_with_fuel(flag_lines, 2);
        let flags = flag_part(lg, d);
        assert(flag_lines(lg, 1)[0] == flag_check(0) + netdev_log_clause(lg) + "drop"@);
        lemma_flag_lines_keep(lg, 10);
        assert(flags[1] == flag_lines(lg, 10)[0]);
        assert(refers_to(flags[1], netdev_counter_name()));
        lemma_more_lines(head, flags, netdev_counter_name());
        lemma_more_lines(head + flags, mss_part(lg, d), netdev_counter_name());
    } else {
        lemma_netdev_line_refers("    tcp flags syn tcp option maxseg size 1-525 "@);
        let mss = mss_part(lg, d);
        assert(refers_to(mss[1], netdev_counter_name()));
        lemma_more_lines(head + flag_part(lg, d), mss, netdev_counter_name());
    }
    lemma_more_lines(head + flag_part(lg, d) + mss_part(lg, d), close, netdev_counter_name());
}

/// The first of the lines on TCP flags stays the first as more are written.
pub proof fn lemma_flag_lines_keep(logging: Seq<char>, n: nat)
    requires
        n >= 1,
    ensures
        flag_lines(logging, n).len() == n,
        flag_lines(logging, n)[0] == flag_lines(logging, 1)[0],
    decreases n,
{
    reveal_with_fuel(flag_lines, 2);
    if n > 1 {
        lemma_flag_lines_keep(logging, (n - 1) as nat);
    }
}

/// The counter of the netdev table is declared only where a line of an
/// ingress chain refers to it.
pub proof fn law_netdev_counter_is_referred_to(c: ConfigurationView, d: Defaults)
    requires
        netdev_counts(c, d),
    ensures
        some_line_refers(ingress_chains(c.logging, d, c.interfaces), netdev_counter_name()),
{
    let last = c.interfaces.last();
    lemma_ingress_chain_refers(d, last);
    lemma_more_lines(
        ingress_chains(c.logging, d, c.interfaces.drop_last()),
        ingress_chain(c.logging, d, last),
        netdev_counter_name(),
    );
}

} // verus!
