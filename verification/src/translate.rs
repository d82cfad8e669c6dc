//! The two address translation tables. A translation rule also puts a line
//! that accepts the translated traffic into the filter chain of the same
//! name, right behind the line that opens its body. So a rule is written
//! into two sections at once: the lines of the filter chains, which it may
//! add to, and the lines of the translation table, which it ends.

use vstd::prelude::*;
use vstd::string::*;
use crate::filter::concat3;
use crate::model::{
    find_chain, unset_spec, ChainData, ChainView, ConfigurationItems, ConfigurationView, Family,
    NatKind, NatRuleData, NatRuleView, NatTableData, NatTableView, Transport,
};
use crate::resolve::{
    addresses_from_def, addresses_from_definition, ports_from_services, ports_of,
};
use crate::rule::{
    comment_of, comment_text, daddr_text, daddr_word, destination_clause, dport_clause,
    dport_text, dport_word, family_valid, nfproto, nfproto_text, other_transport, port_set,
    resolve_rule,
    resolve_spec, saddr_text, set_clause_text, source_clause, sport_clause, sport_text,
    transport_limit, transport_limit_text, transport_valid, Resolved, ResolvedView,
};
use crate::script::{add_natrule_to_filter, add_natrule_to_filter_spec, Defaults};
use crate::text::{push_line, str_eq, views};

verus! {

/// What a translation rule translates to.
pub struct Translation {
    /// The addresses that the translated definition resolves to.
    pub to4: Vec<String>,
    pub to6: Vec<String>,
    /// The ports that the translated service gives.
    pub to_tcp: Vec<String>,
    pub to_udp: Vec<String>,
}

pub struct TranslationView {
    pub to4: Seq<Seq<char>>,
    pub to6: Seq<Seq<char>>,
    pub to_tcp: Seq<Seq<char>>,
    pub to_udp: Seq<Seq<char>>,
}

impl View for Translation {
    type V = TranslationView;

    open spec fn view(&self) -> TranslationView {
        TranslationView {
            to4: views(self.to4@),
            to6: views(self.to6@),
            to_tcp: views(self.to_tcp@),
            to_udp: views(self.to_udp@),
        }
    }
}

/// The two sections that translation rules are written into.
pub struct Sections {
    /// The sets and chains of the filter table.
    pub filter: Vec<String>,
    /// The chains of the translation table.
    pub table: Vec<String>,
}

pub struct SectionsView {
    pub filter: Seq<Seq<char>>,
    pub table: Seq<Seq<char>>,
}

impl View for Sections {
    type V = SectionsView;

    open spec fn view(&self) -> SectionsView {
        SectionsView { filter: views(self.filter@), table: views(self.table@) }
    }
}

/// The addresses of one family that a rule translates to.
pub open spec fn translated(t: TranslationView, family: Family) -> Seq<Seq<char>> {
    match family {
        Family::V4 => t.to4,
        Family::V6 => t.to6,
    }
}

/// The ports of one transport that a rule translates to.
pub open spec fn translated_ports(t: TranslationView, transport: Transport) -> Seq<Seq<char>> {
    match transport {
        Transport::Tcp => t.to_tcp,
        Transport::Udp => t.to_udp,
    }
}

/// What a translation rule translates to.
pub open spec fn translation_spec(c: ConfigurationView, rule: NatRuleView) -> TranslationView {
    TranslationView {
        to4: addresses_from_def(c, rule.translated, Family::V4),
        to6: addresses_from_def(c, rule.translated, Family::V6),
        to_tcp: ports_from_services(c, seq![rule.translatedservice], Transport::Tcp),
        to_udp: ports_from_services(c, seq![rule.translatedservice], Transport::Udp),
    }
}

/// What the names that a translation rule matches on resolve to.
pub open spec fn resolve_nat_rule(c: ConfigurationView, rule: NatRuleView) -> ResolvedView {
    resolve_spec(c, rule.source, rule.sourceservice, rule.destination, rule.destinationservice)
}

/// Whether the translated service fits a transport: it gives at most one
/// port of that transport, and it is not a service of the other transport
/// alone.
pub open spec fn translation_fits(t: TranslationView, transport: Transport) -> bool {
    translated_ports(t, transport).len() <= 1 && !(translated_ports(t, transport).len() == 0
        && translated_ports(t, other_transport(transport)).len() > 0)
}

/// Whether a translation rule gets a line for a family and a transport: it
/// translates to exactly one address of the family, it applies to the family
/// and to the transport, and the translated service fits the transport.
pub open spec fn nat_due(
    r: ResolvedView,
    t: TranslationView,
    family: Family,
    transport: Transport,
) -> bool {
    translated(t, family).len() == 1 && family_valid(r, family, port_set(r)) && translation_fits(
        t,
        transport,
    ) && transport_valid(r, transport)
}

/// The interfaces that a translation chain matches on, by the names that the
/// chain gives them; a reference that is not set is left out.
pub open spec fn interface_match(chain: ChainView) -> Seq<char> {
    let inbound = if chain.iface_in != unset_spec() {
        "iifname "@ + chain.iface_in + " "@
    } else {
        Seq::empty()
    };
    if chain.iface_out != unset_spec() {
        inbound + " oifname "@ + chain.iface_out + " "@
    } else {
        inbound
    }
}

/// The part of a translation line that matches packets.
pub open spec fn nat_match(r: ResolvedView, family: Family, transport: Transport) -> Seq<char> {
    nfproto(family) + source_clause(r, family) + destination_clause(r, family) + sport_clause(
        r,
        transport,
    ) + dport_clause(r, transport)
}

/// The words that translate.
pub open spec fn nat_word(kind: NatKind) -> Seq<char> {
    match kind {
        NatKind::Source => " snat to "@,
        NatKind::Destination => " dnat to "@,
    }
}

/// The port that a line translates to, with what stands before and behind
/// it; a single blank without one.
pub open spec fn port_suffix(t: TranslationView, transport: Transport) -> Seq<char> {
    if translated_ports(t, transport).len() == 1 {
        ":"@ + translated_ports(t, transport)[0] + " "@
    } else {
        " "@
    }
}

/// The address that a line translates to; nothing unless it is exactly one.
pub open spec fn target_address(t: TranslationView, family: Family) -> Seq<char> {
    if translated(t, family).len() == 1 {
        translated(t, family)[0]
    } else {
        Seq::empty()
    }
}

/// The line of a translation rule for one family and one transport.
pub open spec fn nat_line(
    kind: NatKind,
    ifspec: Seq<char>,
    r: ResolvedView,
    t: TranslationView,
    comment: Seq<char>,
    family: Family,
    transport: Transport,
) -> Seq<char> {
    nat_match(r, family, transport) + ifspec + nat_word(kind) + target_address(t, family)
        + port_suffix(t, transport) + comment_text(comment)
}

/// The destination that the filter chain sees once a destination was
/// translated: the address it was translated to where that is one, else
/// what the rule matched on.
pub open spec fn mirrored_destination(r: ResolvedView, t: TranslationView, family: Family) -> Seq<
    char,
> {
    if translated(t, family).len() == 1 {
        daddr_word(family) + " "@ + translated(t, family)[0] + " "@
    } else {
        destination_clause(r, family)
    }
}

/// The destination port that the filter chain sees once a destination was
/// translated: the port it was translated to where there is one, else what
/// the rule matched on.
pub open spec fn mirrored_dport(r: ResolvedView, t: TranslationView, transport: Transport) -> Seq<
    char,
> {
    if translated_ports(t, transport).len() == 1 {
        dport_word(transport) + " "@ + translated_ports(t, transport)[0] + " "@
    } else {
        dport_clause(r, transport)
    }
}

/// What the line that accepts translated traffic in the filter chain matches
/// on: for a source translation what the rule matches on, for a destination
/// translation the same with the destination that traffic is sent on to in
/// place of the one that was matched.
pub open spec fn mirror_match(
    kind: NatKind,
    r: ResolvedView,
    t: TranslationView,
    family: Family,
    transport: Transport,
) -> Seq<char> {
    match kind {
        NatKind::Source => nat_match(r, family, transport),
        NatKind::Destination => nfproto(family) + source_clause(r, family) + mirrored_destination(
            r,
            t,
            family,
        ) + sport_clause(r, transport) + mirrored_dport(r, t, transport),
    }
}

/// The sections once a translation rule was written for one family and one
/// transport: unchanged unless a line is due; else, where translated traffic
/// is to be accepted, with the accepting line in the filter chain of the
/// same name, and with the translation line at the end of the translation
/// table.
pub open spec fn nat_emit(
    s: SectionsView,
    d: Defaults,
    kind: NatKind,
    chain: Seq<char>,
    ifspec: Seq<char>,
    r: ResolvedView,
    t: TranslationView,
    comment: Seq<char>,
    family: Family,
    transport: Transport,
) -> SectionsView {
    if nat_due(r, t, family, transport) {
        SectionsView {
            filter: if d.allow_nat {
                add_natrule_to_filter_spec(
                    s.filter,
                    chain,
                    mirror_match(kind, r, t, family, transport),
                    transport_limit(d, family, transport),
                )
            } else {
                s.filter
            },
            table: s.table.push(nat_line(kind, ifspec, r, t, comment, family, transport)),
        }
    } else {
        s
    }
}

/// The sections once one translation rule was written: unchanged for a rule
/// that is not active; else written for IPv4 with TCP and UDP, then for IPv6
/// with TCP and UDP.
pub open spec fn nat_rule_spec(
    s: SectionsView,
    c: ConfigurationView,
    d: Defaults,
    kind: NatKind,
    chain: Seq<char>,
    ifspec: Seq<char>,
    rule: NatRuleView,
) -> SectionsView {
    if rule.active {
        let r = resolve_nat_rule(c, rule);
        let t = translation_spec(c, rule);
        let v4_tcp = nat_emit(
            s,
            d,
            kind,
            chain,
            ifspec,
            r,
            t,
            rule.comment,
            Family::V4,
            Transport::Tcp,
        );
        let v4_udp = nat_emit(
            v4_tcp,
            d,
            kind,
            chain,
            ifspec,
            r,
            t,
            rule.comment,
            Family::V4,
            Transport::Udp,
        );
        let v6_tcp = nat_emit(
            v4_udp,
            d,
            kind,
            chain,
            ifspec,
            r,
            t,
            rule.comment,
            Family::V6,
            Transport::Tcp,
        );
        nat_emit(v6_tcp, d, kind, chain, ifspec, r, t, rule.comment, Family::V6, Transport::Udp)
    } else {
        s
    }
}

/// The sections once a list of translation rules was written, in order.
pub open spec fn nat_rules_spec(
    s: SectionsView,
    c: ConfigurationView,
    d: Defaults,
    kind: NatKind,
    chain: Seq<char>,
    ifspec: Seq<char>,
    rules: Seq<NatRuleView>,
) -> SectionsView
    decreases rules.len(),
{
    if rules.len() == 0 {
        s
    } else {
        nat_rule_spec(
            nat_rules_spec(s, c, d, kind, chain, ifspec, rules.drop_last()),
            c,
            d,
            kind,
            chain,
            ifspec,
            rules.last(),
        )
    }
}

/// Whether a chain takes part in a kind of translation.
pub open spec fn nat_enabled(kind: NatKind, chain: ChainView) -> bool {
    match kind {
        NatKind::Source => chain.snat,
        NatKind::Destination => chain.dnat,
    }
}

/// The line that opens the body of a translation chain.
pub open spec fn nat_open_line(kind: NatKind, chain: Seq<char>) -> Seq<char> {
    match kind {
        NatKind::Source => "  chain "@ + chain + "_snat {"@,
        NatKind::Destination => "  chain "@ + chain + "_dnat {"@,
    }
}

/// The line that attaches a translation chain to its hook.
pub open spec fn nat_hook_line(kind: NatKind) -> Seq<char> {
    match kind {
        NatKind::Source => "    type nat hook postrouting priority srcnat"@,
        NatKind::Destination => "    type nat hook prerouting priority dstnat"@,
    }
}

/// Whether a translation table is written: it is not deleted, its chain is
/// defined and takes part in this kind of translation, and it has a rule.
pub open spec fn nat_table_due(c: ConfigurationView, kind: NatKind, table: NatTableView) -> bool {
    !table.deleted && find_chain(c.chains, table.chain) is Some && nat_enabled(
        kind,
        find_chain(c.chains, table.chain)->0,
    ) && table.rules.len() > 0
}

/// The sections with a line at the end of the translation table.
pub open spec fn with_nat_line(s: SectionsView, line: Seq<char>) -> SectionsView {
    SectionsView { filter: s.filter, table: s.table.push(line) }
}

/// The sections once one translation table was written: unchanged for a
/// table that is not due; else with the opening line and the hook, the
/// rules, and the closing line.
pub open spec fn nat_table_spec(
    s: SectionsView,
    c: ConfigurationView,
    d: Defaults,
    kind: NatKind,
    table: NatTableView,
) -> SectionsView {
    if nat_table_due(c, kind, table) {
        with_nat_line(
            nat_rules_spec(
                with_nat_line(
                    with_nat_line(s, nat_open_line(kind, table.chain)),
                    nat_hook_line(kind),
                ),
                c,
                d,
                kind,
                table.chain,
                interface_match(find_chain(c.chains, table.chain)->0),
                table.rules,
            ),
            "  }"@,
        )
    } else {
        s
    }
}

/// The sections once a list of translation tables was written, in order.
pub open spec fn nat_tables_spec(
    s: SectionsView,
    c: ConfigurationView,
    d: Defaults,
    kind: NatKind,
    tables: Seq<NatTableView>,
) -> SectionsView
    decreases tables.len(),
{
    if tables.len() == 0 {
        s
    } else {
        nat_table_spec(
            nat_tables_spec(s, c, d, kind, tables.drop_last()),
            c,
            d,
            kind,
            tables.last(),
        )
    }
}

/// The translation tables of one kind.
pub open spec fn nat_tables_of(c: ConfigurationView, kind: NatKind) -> Seq<NatTableView> {
    match kind {
        NatKind::Source => c.snat,
        NatKind::Destination => c.dnat,
    }
}

impl Translation {
    /// The addresses of one family that the rule translates to.
    pub fn addresses(&self, family: Family) -> (r: &Vec<String>)
        ensures
            views(r@) == translated(self@, family),
    {
        match family {
            Family::V4 => &self.to4,
            Family::V6 => &self.to6,
        }
    }

    /// The ports of one transport that the rule translates to.
    pub fn ports(&self, transport: Transport) -> (r: &Vec<String>)
        ensures
            views(r@) == translated_ports(self@, transport),
    {
        match transport {
            Transport::Tcp => &self.to_tcp,
            Transport::Udp => &self.to_udp,
        }
    }

    /// Whether the translated service fits a transport.
    pub fn fits(&self, transport: Transport) -> (r: bool)
        ensures
            r == translation_fits(self@, transport),
    {
        let n: usize = self.ports(transport).len();
        n < 2 && (n == 1 || (self.to_udp.len() == 0 && self.to_tcp.len() == 0))
    }
}

/// What a translation rule translates to.
pub fn resolve_translation(config_items: &ConfigurationItems, rule: &NatRuleData) -> (t: Translation)
    ensures
        t@ == translation_spec(config_items@, rule@),
{
    let mut service: Vec<String> = Vec::new();
    service.push(rule.translatedservice.clone());
    assert(views(service@) =~= seq![rule@.translatedservice]);
    Translation {
        to4: addresses_from_definition(config_items, rule.translated.as_str(), Family::V4),
        to6: addresses_from_definition(config_items, rule.translated.as_str(), Family::V6),
        to_tcp: ports_of(config_items, &service, Transport::Tcp),
        to_udp: ports_of(config_items, &service, Transport::Udp),
    }
}

/// The interfaces that a translation chain matches on.
pub fn interface_match_text(chain: &ChainData) -> (out: String)
    ensures
        out@ == interface_match(chain@),
{
    let mut ifspec = String::new();
    if !str_eq(chain.iface_in.as_str(), "-") {
        ifspec = concat3("iifname ", chain.iface_in.as_str(), " ");
    }
    if !str_eq(chain.iface_out.as_str(), "-") {
        ifspec.append(" oifname ");
        ifspec.append(chain.iface_out.as_str());
        ifspec.append(" ");
    }
    ifspec
}

/// The part of a translation line that matches packets.
pub fn nat_match_text(r: &Resolved, family: Family, transport: Transport) -> (out: String)
    ensures
        out@ == nat_match(r@, family, transport),
{
    let mut line = String::from_str(nfproto_text(family));
    line.append(set_clause_text(saddr_text(family), r.sources(family)).as_str());
    line.append(set_clause_text(daddr_text(family), r.destinations(family)).as_str());
    line.append(set_clause_text(sport_text(transport), r.source_ports(transport)).as_str());
    line.append(set_clause_text(dport_text(transport), r.destination_ports(transport)).as_str());
    line
}

/// The words that translate.
pub fn nat_word_text(kind: NatKind) -> (r: &'static str)
    ensures
        r@ == nat_word(kind),
{
    match kind {
        NatKind::Source => " snat to ",
        NatKind::Destination => " dnat to ",
    }
}

/// The line of a translation rule for one family and one transport.
pub fn nat_line_text(
    kind: NatKind,
    ifspec: &String,
    r: &Resolved,
    t: &Translation,
    comment: &String,
    family: Family,
    transport: Transport,
) -> (line: String)
    ensures
        line@ == nat_line(kind, ifspec@, r@, t@, comment@, family, transport),
{
    let mut line = nat_match_text(r, family, transport);
    line.append(ifspec.as_str());
    line.append(nat_word_text(kind));
    let to = t.addresses(family);
    if to.len() == 1 {
        line.append(to[0].as_str());
    } else {
        assert(line@ + Seq::<char>::empty() =~= line@);
    }
    let ports = t.ports(transport);
    if ports.len() == 1 {
        line.append(concat3(":", ports[0].as_str(), " ").as_str());
    } else {
        line.append(" ");
    }
    line.append(comment_of(comment).as_str());
    line
}

/// What the line that accepts translated traffic in the filter chain
/// matches on.
pub fn mirror_match_text(
    kind: NatKind,
    r: &Resolved,
    t: &Translation,
    family: Family,
    transport: Transport,
) -> (out: String)
    ensures
        out@ == mirror_match(kind, r@, t@, family, transport),
{
    match kind {
        NatKind::Source => nat_match_text(r, family, transport),
        NatKind::Destination => {
            let mut line = String::from_str(nfproto_text(family));
            line.append(set_clause_text(saddr_text(family), r.sources(family)).as_str());
            let to = t.addresses(family);
            if to.len() == 1 {
                let mut dest = concat3(daddr_text(family), " ", to[0].as_str());
                dest.append(" ");
                line.append(dest.as_str());
            } else {
                line.append(
                    set_clause_text(daddr_text(family), r.destinations(family)).as_str(),
                );
            }
            line.append(
                set_clause_text(sport_text(transport), r.source_ports(transport)).as_str(),
            );
            let ports = t.ports(transport);
            if ports.len() == 1 {
                let mut dport = concat3(dport_text(transport), " ", ports[0].as_str());
                dport.append(" ");
                line.append(dport.as_str());
            } else {
                line.append(
                    set_clause_text(
                        dport_text(transport),
                        r.destination_ports(transport),
                    ).as_str(),
                );
            }
            line
        },
    }
}

/// Writes a translation rule for one family and one transport.
pub fn emit_nat(
    s: Sections,
    d: Defaults,
    kind: NatKind,
    chain: &String,
    ifspec: &String,
    r: &Resolved,
    t: &Translation,
    comment: &String,
    family: Family,
    transport: Transport,
) -> (out: Sections)
    ensures
        out@ == nat_emit(s@, d, kind, chain@, ifspec@, r@, t@, comment@, family, transport),
{
    if t.addresses(family).len() == 1 && r.applies_to_family(family, r.has_port()) && t.fits(
        transport,
    ) && r.applies_to_transport(transport) {
        let Sections { filter, table } = s;
        let mut filter = filter;
        let mut table = table;
        if d.allow_nat {
            let matched = mirror_match_text(kind, r, t, family, transport);
            let limit = String::from_str(transport_limit_text(d, family, transport));
            filter = add_natrule_to_filter(filter, chain, &matched, &limit);
        }
        push_line(&mut table, nat_line_text(kind, ifspec, r, t, comment, family, transport));
        Sections { filter, table }
    } else {
        s
    }
}

/// Writes one translation rule.
pub fn emit_nat_rule(
    s: Sections,
    config_items: &ConfigurationItems,
    d: Defaults,
    kind: NatKind,
    chain: &String,
    ifspec: &String,
    rule: &NatRuleData,
) -> (out: Sections)
    ensures
        out@ == nat_rule_spec(s@, config_items@, d, kind, chain@, ifspec@, rule@),
{
    if !rule.active {
        return s;
    }
    let r = resolve_rule(
        config_items,
        &rule.source,
        &rule.sourceservice,
        &rule.destination,
        &rule.destinationservice,
    );
    let t = resolve_translation(config_items, rule);
    let c = &rule.comment;
    let v4_tcp = emit_nat(s, d, kind, chain, ifspec, &r, &t, c, Family::V4, Transport::Tcp);
    let v4_udp = emit_nat(v4_tcp, d, kind, chain, ifspec, &r, &t, c, Family::V4, Transport::Udp);
    let v6_tcp = emit_nat(v4_udp, d, kind, chain, ifspec, &r, &t, c, Family::V6, Transport::Tcp);
    emit_nat(v6_tcp, d, kind, chain, ifspec, &r, &t, c, Family::V6, Transport::Udp)
}

/// Writes the rules of one translation table.
pub fn emit_nat_rules(
    s: Sections,
    config_items: &ConfigurationItems,
    d: Defaults,
    kind: NatKind,
    ifspec: &String,
    table: &NatTableData,
) -> (out: Sections)
    ensures
        out@ == nat_rules_spec(
            s@,
            config_items@,
            d,
            kind,
            table@.chain,
            ifspec@,
            table@.rules,
        ),
{
    let ghost c = config_items@;
    let ghost start = s@;
    let ghost all = table@.rules;
    let mut out = s;
    let mut i: usize = 0;
    assert(all.take(0) =~= Seq::<NatRuleView>::empty());
    while i < table.rules.len()
        invariant
            i <= table.rules.len(),
            c == config_items@,
            all == table@.rules,
            all.len() == table.rules.len(),
            out@ == nat_rules_spec(start, c, d, kind, table@.chain, ifspec@, all.take(i as int)),
        decreases table.rules.len() - i,
    {
        assert(all.take(i as int + 1).drop_last() =~= all.take(i as int));
        assert(all.take(i as int + 1).last() == table.rules@[i as int]@);
        out = emit_nat_rule(out, config_items, d, kind, &table.chain, ifspec, &table.rules[i]);
        i = i + 1;
    }
    assert(all.take(i as int) =~= all);
    out
}

/// Whether a chain takes part in a kind of translation.
pub fn chain_translates(kind: NatKind, chain: &ChainData) -> (r: bool)
    ensures
        r == nat_enabled(kind, chain@),
{
    match kind {
        NatKind::Source => chain.snat,
        NatKind::Destination => chain.dnat,
    }
}

/// The line that opens the body of a translation chain.
pub fn nat_open_text(kind: NatKind, chain: &String) -> (out: String)
    ensures
        out@ == nat_open_line(kind, chain@),
{
    match kind {
        NatKind::Source => concat3("  chain ", chain.as_str(), "_snat {"),
        NatKind::Destination => concat3("  chain ", chain.as_str(), "_dnat {"),
    }
}

/// The line that attaches a translation chain to its hook.
pub fn nat_hook_text(kind: NatKind) -> (r: &'static str)
    ensures
        r@ == nat_hook_line(kind),
{
    match kind {
        NatKind::Source => "    type nat hook postrouting priority srcnat",
        NatKind::Destination => "    type nat hook prerouting priority dstnat",
    }
}

/// Puts a line at the end of the translation table.
pub fn push_nat_line(s: Sections, line: String) -> (out: Sections)
    ensures
        out@ == with_nat_line(s@, line@),
{
    let Sections { filter, table } = s;
    let mut table = table;
    push_line(&mut table, line);
    Sections { filter, table }
}

/// Writes one translation table.
pub fn emit_nat_table(
    s: Sections,
    config_items: &ConfigurationItems,
    d: Defaults,
    kind: NatKind,
    table: &NatTableData,
) -> (out: Sections)
    ensures
        out@ == nat_table_spec(s@, config_items@, d, kind, table@),
{
    if table.deleted {
        return s;
    }
    match config_items.chain(table.chain.as_str()) {
        Some(chain) => {
            if !chain_translates(kind, chain) || table.rules.len() == 0 {
                return s;
            }
            let ifspec = interface_match_text(chain);
            let opened = push_nat_line(s, nat_open_text(kind, &table.chain));
            let hooked = push_nat_line(opened, String::from_str(nat_hook_text(kind)));
            let written = emit_nat_rules(hooked, config_items, d, kind, &ifspec, table);
            push_nat_line(written, String::from_str("  }"))
        },
        None => s,
    }
}

/// Writes the translation tables of one kind.
pub fn emit_nat_tables(
    s: Sections,
    config_items: &ConfigurationItems,
    d: Defaults,
    kind: NatKind,
) -> (out: Sections)
    ensures
        out@ == nat_tables_spec(s@, config_items@, d, kind, nat_tables_of(config_items@, kind)),
{
    let tables = match kind {
        NatKind::Source => &config_items.snat,
        NatKind::Destination => &config_items.dnat,
    };
    let ghost c = config_items@;
    let ghost start = s@;
    let ghost all = nat_tables_of(c, kind);
    let mut out = s;
    let mut i: usize = 0;
    assert(all.take(0) =~= Seq::<NatTableView>::empty());
    while i < tables.len()
        invariant
            i <= tables.len(),
            c == config_items@,
            all == nat_tables_of(c, kind),
            all.len() == tables.len(),
            forall|k: int| 0 <= k < all.len() ==> all[k] == tables@[k]@,
            out@ == nat_tables_spec(start, c, d, kind, all.take(i as int)),
        decreases tables.len() - i,
    {
        assert(all.take(i as int + 1).drop_last() =~= all.take(i as int));
        assert(all.take(i as int + 1).last() == tables@[i as int]@);
        out = emit_nat_table(out, config_items, d, kind, &tables[i]);
        i = i + 1;
    }
    assert(all.take(i as int) =~= all);
    out
}

} // verus!
