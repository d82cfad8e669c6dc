//! What the names of a rule resolve to, when a rule applies to an address
//! family and a transport, and the clauses that rule lines are made of.

use vstd::prelude::*;
use vstd::string::*;
use crate::model::{ConfigurationItems, ConfigurationView, Family, Transport};
use crate::resolve::{
    addresses_of, control_types, control_types_of, ports_from_services, ports_of,
    resolve_addresses,
};
use crate::script::{log_clause, logcommand, note_all, Defaults, lemma_note_all_one};
use crate::text::{extend_unique, extend_unique_spec, join, join_spec, str_eq, views};

verus! {

/// What the names of one rule resolve to.
pub struct Resolved {
    /// Source addresses, IPv4 and IPv6.
    pub src4: Vec<String>,
    pub src6: Vec<String>,
    /// Destination addresses, IPv4 and IPv6.
    pub dst4: Vec<String>,
    pub dst6: Vec<String>,
    /// Source ports, TCP and UDP.
    pub src_tcp: Vec<String>,
    pub src_udp: Vec<String>,
    /// Destination ports, TCP and UDP.
    pub dst_tcp: Vec<String>,
    pub dst_udp: Vec<String>,
    /// Control message types of source and destination services together,
    /// each once, for IPv4 and IPv6.
    pub types4: Vec<String>,
    pub types6: Vec<String>,
}

pub struct ResolvedView {
    pub src4: Seq<Seq<char>>,
    pub src6: Seq<Seq<char>>,
    pub dst4: Seq<Seq<char>>,
    pub dst6: Seq<Seq<char>>,
    pub src_tcp: Seq<Seq<char>>,
    pub src_udp: Seq<Seq<char>>,
    pub dst_tcp: Seq<Seq<char>>,
    pub dst_udp: Seq<Seq<char>>,
    pub types4: Seq<Seq<char>>,
    pub types6: Seq<Seq<char>>,
}

impl View for Resolved {
    type V = ResolvedView;

    open spec fn view(&self) -> ResolvedView {
        ResolvedView {
            src4: views(self.src4@),
            src6: views(self.src6@),
            dst4: views(self.dst4@),
            dst6: views(self.dst6@),
            src_tcp: views(self.src_tcp@),
            src_udp: views(self.src_udp@),
            dst_tcp: views(self.dst_tcp@),
            dst_udp: views(self.dst_udp@),
            types4: views(self.types4@),
            types6: views(self.types6@),
        }
    }
}

/// The other address family.
pub open spec fn other_family(family: Family) -> Family {
    match family {
        Family::V4 => Family::V6,
        Family::V6 => Family::V4,
    }
}

/// The other transport.
pub open spec fn other_transport(transport: Transport) -> Transport {
    match transport {
        Transport::Tcp => Transport::Udp,
        Transport::Udp => Transport::Tcp,
    }
}

/// The source addresses of one family.
pub open spec fn src_addrs(r: ResolvedView, family: Family) -> Seq<Seq<char>> {
    match family {
        Family::V4 => r.src4,
        Family::V6 => r.src6,
    }
}

/// The destination addresses of one family.
pub open spec fn dst_addrs(r: ResolvedView, family: Family) -> Seq<Seq<char>> {
    match family {
        Family::V4 => r.dst4,
        Family::V6 => r.dst6,
    }
}

/// The source ports of one transport.
pub open spec fn src_ports(r: ResolvedView, transport: Transport) -> Seq<Seq<char>> {
    match transport {
        Transport::Tcp => r.src_tcp,
        Transport::Udp => r.src_udp,
    }
}

/// The destination ports of one transport.
pub open spec fn dst_ports(r: ResolvedView, transport: Transport) -> Seq<Seq<char>> {
    match transport {
        Transport::Tcp => r.dst_tcp,
        Transport::Udp => r.dst_udp,
    }
}

/// The control message types of one family.
pub open spec fn message_types(r: ResolvedView, family: Family) -> Seq<Seq<char>> {
    match family {
        Family::V4 => r.types4,
        Family::V6 => r.types6,
    }
}

/// The control message types that the services of a rule give in one family:
/// those of the source services, then those of the destination services,
/// each once.
pub open spec fn merged_types(
    c: ConfigurationView,
    sourceservice: Seq<Seq<char>>,
    destinationservice: Seq<Seq<char>>,
    family: Family,
) -> Seq<Seq<char>> {
    extend_unique_spec(
        extend_unique_spec(Seq::empty(), control_types(c, sourceservice, family)),
        control_types(c, destinationservice, family),
    )
}

/// What the names of a rule resolve to.
pub open spec fn resolve_spec(
    c: ConfigurationView,
    source: Seq<Seq<char>>,
    sourceservice: Seq<Seq<char>>,
    destination: Seq<Seq<char>>,
    destinationservice: Seq<Seq<char>>,
) -> ResolvedView {
    ResolvedView {
        src4: addresses_of(c, source, Family::V4),
        src6: addresses_of(c, source, Family::V6),
        dst4: addresses_of(c, destination, Family::V4),
        dst6: addresses_of(c, destination, Family::V6),
        src_tcp: ports_from_services(c, sourceservice, Transport::Tcp),
        src_udp: ports_from_services(c, sourceservice, Transport::Udp),
        dst_tcp: ports_from_services(c, destinationservice, Transport::Tcp),
        dst_udp: ports_from_services(c, destinationservice, Transport::Udp),
        types4: merged_types(c, sourceservice, destinationservice, Family::V4),
        types6: merged_types(c, sourceservice, destinationservice, Family::V6),
    }
}

/// Whether a rule names a port of either transport.
pub open spec fn port_set(r: ResolvedView) -> bool {
    r.src_tcp.len() > 0 || r.src_udp.len() > 0 || r.dst_tcp.len() > 0 || r.dst_udp.len() > 0
}

/// Whether a rule names a port or a control message type.
pub open spec fn service_set(r: ResolvedView) -> bool {
    port_set(r) || r.types4.len() > 0 || r.types6.len() > 0
}

/// Whether a rule has no address of either family.
pub open spec fn no_address(r: ResolvedView) -> bool {
    r.src4.len() == 0 && r.src6.len() == 0 && r.dst4.len() == 0 && r.dst6.len() == 0
}

/// Whether the other family competes for a rule: one end of the rule has an
/// address of `family`, and the other end has addresses of the other family
/// only. Such a rule is between the two families and matches nothing in
/// either.
pub open spec fn competing_addresses(r: ResolvedView, family: Family) -> bool {
    let other = other_family(family);
    (src_addrs(r, family).len() > 0 && dst_addrs(r, family).len() == 0 && dst_addrs(
        r,
        other,
    ).len() > 0) || (dst_addrs(r, family).len() > 0 && src_addrs(r, family).len() == 0
        && src_addrs(r, other).len() > 0)
}

/// Whether a rule applies to an address family: it has a source address or
/// a destination address of that family, or it has no address at all and
/// `with_service` holds; and the other family does not compete.
pub open spec fn family_valid(r: ResolvedView, family: Family, with_service: bool) -> bool {
    (src_addrs(r, family).len() > 0 || dst_addrs(r, family).len() > 0 || (no_address(r)
        && with_service)) && !competing_addresses(r, family)
}

/// Whether the other transport competes for a rule: one end of the rule has
/// a port of `transport`, and the other end has ports of the other
/// transport only.
pub open spec fn competing_ports(r: ResolvedView, transport: Transport) -> bool {
    let other = other_transport(transport);
    (src_ports(r, transport).len() > 0 && dst_ports(r, transport).len() == 0 && dst_ports(
        r,
        other,
    ).len() > 0) || (dst_ports(r, transport).len() > 0 && src_ports(r, transport).len() == 0
        && src_ports(r, other).len() > 0)
}

/// Whether a rule applies to a transport: it has a source port or a
/// destination port of that transport, and the other transport does not
/// compete.
pub open spec fn transport_valid(r: ResolvedView, transport: Transport) -> bool {
    (src_ports(r, transport).len() > 0 || dst_ports(r, transport).len() > 0) && !competing_ports(
        r,
        transport,
    )
}

/// The beginning of a rule line of one family.
pub open spec fn nfproto(family: Family) -> Seq<char> {
    match family {
        Family::V4 => "    meta nfproto ipv4 "@,
        Family::V6 => "    meta nfproto ipv6 "@,
    }
}

/// The words that match a source address.
pub open spec fn saddr_word(family: Family) -> Seq<char> {
    match family {
        Family::V4 => "ip saddr"@,
        Family::V6 => "ip6 saddr"@,
    }
}

/// The words that match a destination address.
pub open spec fn daddr_word(family: Family) -> Seq<char> {
    match family {
        Family::V4 => "ip daddr"@,
        Family::V6 => "ip6 daddr"@,
    }
}

/// The words that match a source port.
pub open spec fn sport_word(transport: Transport) -> Seq<char> {
    match transport {
        Transport::Tcp => "tcp sport"@,
        Transport::Udp => "udp sport"@,
    }
}

/// The words that match a destination port.
pub open spec fn dport_word(transport: Transport) -> Seq<char> {
    match transport {
        Transport::Tcp => "tcp dport"@,
        Transport::Udp => "udp dport"@,
    }
}

/// The words that match a control message type.
pub open spec fn type_word(family: Family) -> Seq<char> {
    match family {
        Family::V4 => "icmp code"@,
        Family::V6 => "icmpv6 code"@,
    }
}

/// The kind of drop that a rule line of a family and a transport stands for.
pub open spec fn transport_label(family: Family, transport: Transport) -> Seq<char> {
    match (family, transport) {
        (Family::V4, Transport::Tcp) => "tcp_ipv4"@,
        (Family::V4, Transport::Udp) => "udp_ipv4"@,
        (Family::V6, Transport::Tcp) => "tcp_ipv6"@,
        (Family::V6, Transport::Udp) => "udp_ipv6"@,
    }
}

/// The kind of drop that a control message line of a family stands for.
pub open spec fn type_label(family: Family) -> Seq<char> {
    match family {
        Family::V4 => "icmpv4"@,
        Family::V6 => "icmpv6"@,
    }
}

/// The clause that limits the rate of new connections of one family; empty
/// where that protection is switched off.
pub open spec fn syn_limit(d: Defaults, family: Family) -> Seq<char> {
    if d.syn_flood {
        match family {
            Family::V4 => "ct state new update @syn_rate_limit_ipv4 { ip saddr limit rate 1/second } "@,
            Family::V6 => "ct state new update @syn_rate_limit_ipv6 { ip6 saddr limit rate 1/second } "@,
        }
    } else {
        Seq::empty()
    }
}

/// The limiter that goes with a line of one transport: that of new
/// connections for TCP, none for UDP.
pub open spec fn transport_limit(d: Defaults, family: Family, transport: Transport) -> Seq<char> {
    match transport {
        Transport::Tcp => syn_limit(d, family),
        Transport::Udp => Seq::empty(),
    }
}

/// A clause that matches a set of values; empty where there is no value.
pub open spec fn set_clause(word: Seq<char>, items: Seq<Seq<char>>) -> Seq<char> {
    if items.len() > 0 {
        word + " { "@ + join_spec(items, ", "@) + " } "@
    } else {
        Seq::empty()
    }
}

/// The clause that matches the source addresses of one family.
pub open spec fn source_clause(r: ResolvedView, family: Family) -> Seq<char> {
    set_clause(saddr_word(family), src_addrs(r, family))
}

/// The clause that matches the destination addresses of one family.
pub open spec fn destination_clause(r: ResolvedView, family: Family) -> Seq<char> {
    set_clause(daddr_word(family), dst_addrs(r, family))
}

/// The clause that matches the source ports of one transport.
pub open spec fn sport_clause(r: ResolvedView, transport: Transport) -> Seq<char> {
    set_clause(sport_word(transport), src_ports(r, transport))
}

/// The clause that matches the destination ports of one transport.
pub open spec fn dport_clause(r: ResolvedView, transport: Transport) -> Seq<char> {
    set_clause(dport_word(transport), dst_ports(r, transport))
}

/// The end of a line that holds the comment of a rule; empty without one.
pub open spec fn comment_text(comment: Seq<char>) -> Seq<char> {
    if comment.len() > 0 {
        "# "@ + comment
    } else {
        Seq::empty()
    }
}

/// The action that drops.
pub open spec fn drop_word() -> Seq<char> {
    "drop"@
}

/// What a rule line does with a packet: a drop, logged or counted under
/// `label`, or the limiter and the action of the rule.
pub open spec fn verdict_spec(
    logging: Seq<char>,
    chain: Seq<char>,
    action: Seq<char>,
    limit: Seq<char>,
    label: Seq<char>,
) -> Seq<char> {
    if action == drop_word() {
        " "@ + log_clause(logging, chain, label) + "drop "@
    } else {
        limit + " "@ + action + " "@
    }
}

/// The kinds of drop that a line with this action stands for: `label` where
/// the action drops, none else.
pub open spec fn drop_labels(action: Seq<char>, label: Seq<char>) -> Seq<Seq<char>> {
    if action == drop_word() {
        seq![label]
    } else {
        Seq::empty()
    }
}

/// The list that holds `item` where `present`, and nothing else.
pub open spec fn optional<T>(present: bool, item: T) -> Seq<T> {
    if present {
        seq![item]
    } else {
        Seq::empty()
    }
}

/// The addresses and ports that the names of a rule resolve to.
pub fn resolve_rule(
    config_items: &ConfigurationItems,
    source: &Vec<String>,
    sourceservice: &Vec<String>,
    destination: &Vec<String>,
    destinationservice: &Vec<String>,
) -> (r: Resolved)
    ensures
        r@ == resolve_spec(
            config_items@,
            views(source@),
            views(sourceservice@),
            views(destination@),
            views(destinationservice@),
        ),
{
    let mut types4: Vec<String> = Vec::new();
    let mut types6: Vec<String> = Vec::new();
    assert(views(types4@) =~= Seq::<Seq<char>>::empty());
    assert(views(types6@) =~= Seq::<Seq<char>>::empty());
    extend_unique(&mut types4, &control_types_of(config_items, sourceservice, Family::V4));
    extend_unique(&mut types4, &control_types_of(config_items, destinationservice, Family::V4));
    extend_unique(&mut types6, &control_types_of(config_items, sourceservice, Family::V6));
    extend_unique(&mut types6, &control_types_of(config_items, destinationservice, Family::V6));
    Resolved {
        src4: resolve_addresses(config_items, source, Family::V4),
        src6: resolve_addresses(config_items, source, Family::V6),
        dst4: resolve_addresses(config_items, destination, Family::V4),
        dst6: resolve_addresses(config_items, destination, Family::V6),
        src_tcp: ports_of(config_items, sourceservice, Transport::Tcp),
        src_udp: ports_of(config_items, sourceservice, Transport::Udp),
        dst_tcp: ports_of(config_items, destinationservice, Transport::Tcp),
        dst_udp: ports_of(config_items, destinationservice, Transport::Udp),
        types4,
        types6,
    }
}

impl Resolved {
    /// The source addresses of one family.
    pub fn sources(&self, family: Family) -> (r: &Vec<String>)
        ensures
            views(r@) == src_addrs(self@, family),
    {
        match family {
            Family::V4 => &self.src4,
            Family::V6 => &self.src6,
        }
    }

    /// The destination addresses of one family.
    pub fn destinations(&self, family: Family) -> (r: &Vec<String>)
        ensures
            views(r@) == dst_addrs(self@, family),
    {
        match family {
            Family::V4 => &self.dst4,
            Family::V6 => &self.dst6,
        }
    }

    /// The source ports of one transport.
    pub fn source_ports(&self, transport: Transport) -> (r: &Vec<String>)
        ensures
            views(r@) == src_ports(self@, transport),
    {
        match transport {
            Transport::Tcp => &self.src_tcp,
            Transport::Udp => &self.src_udp,
        }
    }

    /// The destination ports of one transport.
    pub fn destination_ports(&self, transport: Transport) -> (r: &Vec<String>)
        ensures
            views(r@) == dst_ports(self@, transport),
    {
        match transport {
            Transport::Tcp => &self.dst_tcp,
            Transport::Udp => &self.dst_udp,
        }
    }

    /// The control message types of one family.
    pub fn types(&self, family: Family) -> (r: &Vec<String>)
        ensures
            views(r@) == message_types(self@, family),
    {
        match family {
            Family::V4 => &self.types4,
            Family::V6 => &self.types6,
        }
    }

    /// Whether the rule names a port of either transport.
    pub fn has_port(&self) -> (r: bool)
        ensures
            r == port_set(self@),
    {
        self.src_tcp.len() > 0 || self.src_udp.len() > 0 || self.dst_tcp.len() > 0
            || self.dst_udp.len() > 0
    }

    /// Whether the rule names a port or a control message type.
    pub fn has_service(&self) -> (r: bool)
        ensures
            r == service_set(self@),
    {
        self.has_port() || self.types4.len() > 0 || self.types6.len() > 0
    }

    /// Whether the rule applies to an address family.
    pub fn applies_to_family(&self, family: Family, with_service: bool) -> (r: bool)
        ensures
            r == family_valid(self@, family, with_service),
    {
        let other = flip_family(family);
        let s: usize = self.sources(family).len();
        let d: usize = self.destinations(family).len();
        let os: usize = self.sources(other).len();
        let od: usize = self.destinations(other).len();
        (s > 0 && (d > 0 || od == 0)) || (d > 0 && (s > 0 || os == 0)) || (s == 0 && d == 0 && os
            == 0 && od == 0 && with_service)
    }

    /// Whether the rule applies to a transport.
    pub fn applies_to_transport(&self, transport: Transport) -> (r: bool)
        ensures
            r == transport_valid(self@, transport),
    {
        let other = flip_transport(transport);
        let s: usize = self.source_ports(transport).len();
        let d: usize = self.destination_ports(transport).len();
        let os: usize = self.source_ports(other).len();
        let od: usize = self.destination_ports(other).len();
        (s > 0 && (d > 0 || od == 0)) || (d > 0 && (s > 0 || os == 0))
    }
}

/// The other address family.
pub fn flip_family(family: Family) -> (r: Family)
    ensures
        r == other_family(family),
{
    match family {
        Family::V4 => Family::V6,
        Family::V6 => Family::V4,
    }
}

/// The other transport.
pub fn flip_transport(transport: Transport) -> (r: Transport)
    ensures
        r == other_transport(transport),
{
    match transport {
        Transport::Tcp => Transport::Udp,
        Transport::Udp => Transport::Tcp,
    }
}

/// The beginning of a rule line of one family.
pub fn nfproto_text(family: Family) -> (r: &'static str)
    ensures
        r@ == nfproto(family),
{
    match family {
        Family::V4 => "    meta nfproto ipv4 ",
        Family::V6 => "    meta nfproto ipv6 ",
    }
}

/// The words that match a source address.
pub fn saddr_text(family: Family) -> (r: &'static str)
    ensures
        r@ == saddr_word(family),
{
    match family {
        Family::V4 => "ip saddr",
        Family::V6 => "ip6 saddr",
    }
}

/// The words that match a destination address.
pub fn daddr_text(family: Family) -> (r: &'static str)
    ensures
        r@ == daddr_word(family),
{
    match family {
        Family::V4 => "ip daddr",
        Family::V6 => "ip6 daddr",
    }
}

/// The words that match a source port.
pub fn sport_text(transport: Transport) -> (r: &'static str)
    ensures
        r@ == sport_word(transport),
{
    match transport {
        Transport::Tcp => "tcp sport",
        Transport::Udp => "udp sport",
    }
}

/// The words that match a destination port.
pub fn dport_text(transport: Transport) -> (r: &'static str)
    ensures
        r@ == dport_word(transport),
{
    match transport {
        Transport::Tcp => "tcp dport",
        Transport::Udp => "udp dport",
    }
}

/// The words that match a control message type.
pub fn type_text(family: Family) -> (r: &'static str)
    ensures
        r@ == type_word(family),
{
    match family {
        Family::V4 => "icmp code",
        Family::V6 => "icmpv6 code",
    }
}

/// The kind of drop that a rule line of a family and a transport stands for.
pub fn transport_label_text(family: Family, transport: Transport) -> (r: &'static str)
    ensures
        r@ == transport_label(family, transport),
{
    match (family, transport) {
        (Family::V4, Transport::Tcp) => "tcp_ipv4",
        (Family::V4, Transport::Udp) => "udp_ipv4",
        (Family::V6, Transport::Tcp) => "tcp_ipv6",
        (Family::V6, Transport::Udp) => "udp_ipv6",
    }
}

/// The kind of drop that a control message line of a family stands for.
pub fn type_label_text(family: Family) -> (r: &'static str)
    ensures
        r@ == type_label(family),
{
    match family {
        Family::V4 => "icmpv4",
        Family::V6 => "icmpv6",
    }
}

/// The clause that limits the rate of new connections of one family.
pub fn syn_limit_text(d: Defaults, family: Family) -> (r: &'static str)
    ensures
        r@ == syn_limit(d, family),
{
    if d.syn_flood {
        match family {
            Family::V4 => "ct state new update @syn_rate_limit_ipv4 { ip saddr limit rate 1/second } ",
            Family::V6 => "ct state new update @syn_rate_limit_ipv6 { ip6 saddr limit rate 1/second } ",
        }
    } else {
        let r = "";
        proof {
            reveal_strlit("");
            assert(r@ =~= Seq::<char>::empty());
        }
        r
    }
}

/// The limiter that goes with a line of one transport.
pub fn transport_limit_text(d: Defaults, family: Family, transport: Transport) -> (r: &'static str)
    ensures
        r@ == transport_limit(d, family, transport),
{
    match transport {
        Transport::Tcp => syn_limit_text(d, family),
        Transport::Udp => {
            let r = "";
            proof {
                reveal_strlit("");
                assert(r@ =~= Seq::<char>::empty());
            }
            r
        },
    }
}

/// A clause that matches a set of values.
pub fn set_clause_text(word: &str, items: &Vec<String>) -> (out: String)
    ensures
        out@ == set_clause(word@, views(items@)),
{
    if items.len() > 0 {
        let mut out = String::from_str(word);
        out.append(" { ");
        out.append(join(items, ", ").as_str());
        out.append(" } ");
        out
    } else {
        String::new()
    }
}

/// The end of a line that holds the comment of a rule.
pub fn comment_of(comment: &String) -> (out: String)
    ensures
        out@ == comment_text(comment@),
{
    if !comment.as_str().is_empty() {
        let mut out = String::from_str("# ");
        out.append(comment.as_str());
        out
    } else {
        String::new()
    }
}

/// What a rule line does with a packet; a drop is noted in `counters`.
pub fn verdict(
    counters: &mut Vec<String>,
    logging: &String,
    chain: &String,
    action: &String,
    limit: &str,
    label: &str,
) -> (out: String)
    ensures
        out@ == verdict_spec(logging@, chain@, action@, limit@, label@),
        views(final(counters)@) == note_all(
            views(old(counters)@),
            logging@,
            chain@,
            drop_labels(action@, label@),
        ),
{
    if str_eq(action.as_str(), "drop") {
        let mut out = String::from_str(" ");
        out.append(logcommand(counters, logging, chain, label).as_str());
        out.append("drop ");
        proof {
            lemma_note_all_one(views(old(counters)@), logging@, chain@, label@);
        }
        out
    } else {
        let mut out = String::from_str(limit);
        out.append(" ");
        out.append(action.as_str());
        out.append(" ");
        out
    }
}

} // verus!
