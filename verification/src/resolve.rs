//! Resolution of symbolic names: definitions to addresses, services to ports
//! and ICMP types, chains and interfaces to their data.

use vstd::prelude::*;
use vstd::string::*;
use crate::model::{
    find_chain, find_host, find_hostgroup, find_interface, find_network, find_service,
    networks_of, unset_spec, ChainData, ChainView, ConfigurationItems, ConfigurationView, Family,
    Transport,
};
use crate::text::{
    decimal, decimal_spec, extend_unique, extend_unique_spec, occurs_at,
    push_line, push_unique, starts_with, str_eq, suffix_from, views,
};

verus! {

/// A reference of the policy document that leads nowhere.
#[derive(Clone, Debug, PartialEq, Eq)]
pub enum CompileError {
    /// No chain has this name.
    ChainNotFound(String),
    /// No interface has this name.
    InterfaceNotFound(String),
}

/// The view of a [`CompileError`].
pub enum Missing {
    Chain(Seq<char>),
    Interface(Seq<char>),
}

impl View for CompileError {
    type V = Missing;

    open spec fn view(&self) -> Missing {
        match self {
            CompileError::ChainNotFound(name) => Missing::Chain(name@),
            CompileError::InterfaceNotFound(name) => Missing::Interface(name@),
        }
    }
}

/// The text of an error.
pub open spec fn message_spec(e: Missing) -> Seq<char> {
    match e {
        Missing::Chain(name) => "Chain "@ + name + " not found"@,
        Missing::Interface(name) => "Interface "@ + name + " not found"@,
    }
}

impl CompileError {
    /// The error as one line of text that names the missing reference.
    pub fn message(&self) -> (out: String)
        ensures
            out@ == message_spec(self@),
    {
        match self {
            CompileError::ChainNotFound(name) => {
                let mut out = String::from_str("Chain ");
                out.append(name.as_str());
                out.append(" not found");
                out
            },
            CompileError::InterfaceNotFound(name) => {
                let mut out = String::from_str("Interface ");
                out.append(name.as_str());
                out.append(" not found");
                out
            },
        }
    }

    /// The name that was looked for and not found.
    pub fn name(&self) -> (out: &String)
        ensures
            out@ == missing_name(self@),
    {
        match self {
            CompileError::ChainNotFound(name) => name,
            CompileError::InterfaceNotFound(name) => name,
        }
    }
}

/// The name that an error speaks of.
pub open spec fn missing_name(e: Missing) -> Seq<char> {
    match e {
        Missing::Chain(name) => name,
        Missing::Interface(name) => name,
    }
}

/// The addresses of one family of the host called `name`; none where there
/// is no such host.
pub open spec fn host_addresses(c: ConfigurationView, name: Seq<char>, family: Family) -> Seq<
    Seq<char>,
> {
    match find_host(c.hosts, name) {
        Some(h) => match family {
            Family::V4 => h.ipv4,
            Family::V6 => h.ipv6,
        },
        None => Seq::empty(),
    }
}

/// The addresses of the hosts called `members`, one host after the other.
pub open spec fn group_addresses(
    c: ConfigurationView,
    members: Seq<Seq<char>>,
    family: Family,
) -> Seq<Seq<char>>
    decreases members.len(),
{
    if members.len() == 0 {
        Seq::empty()
    } else {
        group_addresses(c, members.drop_last(), family) + host_addresses(
            c,
            members.last(),
            family,
        )
    }
}

/// The addresses of the host group called `def`; none where there is no
/// such group.
pub open spec fn hostgroup_addresses(c: ConfigurationView, def: Seq<char>, family: Family) -> Seq<
    Seq<char>,
> {
    match find_hostgroup(c.hostgroups, def) {
        Some(g) => group_addresses(c, g.hosts, family),
        None => Seq::empty(),
    }
}

/// The address of the network called `def`; none where there is no such
/// network in this family.
pub open spec fn network_addresses(c: ConfigurationView, def: Seq<char>, family: Family) -> Seq<
    Seq<char>,
> {
    match find_network(networks_of(c, family), def) {
        Some(n) => seq![n.address],
        None => Seq::empty(),
    }
}

/// All that the name `def` stands for in one family, repetitions included:
/// the host of that name, then the members of the host group of that name,
/// then the network of that name.
pub open spec fn definition_candidates(c: ConfigurationView, def: Seq<char>, family: Family) -> Seq<
    Seq<char>,
> {
    host_addresses(c, def, family) + hostgroup_addresses(c, def, family) + network_addresses(
        c,
        def,
        family,
    )
}

/// The addresses that the name `def` resolves to in one family: its
/// candidates, each once, in the order in which they are first seen.
pub open spec fn addresses_from_def(c: ConfigurationView, def: Seq<char>, family: Family) -> Seq<
    Seq<char>,
> {
    extend_unique_spec(Seq::empty(), definition_candidates(c, def, family))
}

/// The addresses that a list of names resolves to in one family, each once,
/// in the order in which they are first seen.
pub open spec fn addresses_of(c: ConfigurationView, defs: Seq<Seq<char>>, family: Family) -> Seq<
    Seq<char>,
>
    decreases defs.len(),
{
    if defs.len() == 0 {
        Seq::empty()
    } else {
        extend_unique_spec(
            addresses_of(c, defs.drop_last(), family),
            addresses_from_def(c, defs.last(), family),
        )
    }
}

/// The protocol of a service of `transport`.
pub open spec fn transport_word(transport: Transport) -> Seq<char> {
    match transport {
        Transport::Tcp => "TCP"@,
        Transport::Udp => "UDP"@,
    }
}

/// The port of the service called `name` as a numeral, where there is such a
/// service and its protocol is the word of `transport`; a service of any
/// other protocol gives no port.
pub open spec fn service_port(c: ConfigurationView, name: Seq<char>, transport: Transport) -> Seq<
    Seq<char>,
> {
    match find_service(c.services, name) {
        Some(s) => if s.protocol == transport_word(transport) {
            seq![decimal_spec(s.port)]
        } else {
            Seq::empty()
        },
        None => Seq::empty(),
    }
}

/// The ports of one transport that a list of service names gives, in order;
/// repetitions stay.
pub open spec fn ports_from_services(
    c: ConfigurationView,
    services: Seq<Seq<char>>,
    transport: Transport,
) -> Seq<Seq<char>>
    decreases services.len(),
{
    if services.len() == 0 {
        Seq::empty()
    } else {
        ports_from_services(c, services.drop_last(), transport) + service_port(
            c,
            services.last(),
            transport,
        )
    }
}

/// The beginning of the name of a service that stands for an ICMP type.
pub open spec fn type_prefix(family: Family) -> Seq<char> {
    match family {
        Family::V4 => "ICMPv4 Type "@,
        Family::V6 => "ICMPv6 Type "@,
    }
}

/// The ICMP type that a service name stands for: what follows the prefix.
pub open spec fn message_type(name: Seq<char>, family: Family) -> Seq<Seq<char>> {
    if occurs_at(name, type_prefix(family), 0) {
        seq![name.subrange(type_prefix(family).len() as int, name.len() as int)]
    } else {
        Seq::empty()
    }
}

/// The ICMP types of one family that a list of service names gives, in
/// order; repetitions stay.
pub open spec fn message_types_from_services(services: Seq<Seq<char>>, family: Family) -> Seq<
    Seq<char>,
>
    decreases services.len(),
{
    if services.len() == 0 {
        Seq::empty()
    } else {
        message_types_from_services(services.drop_last(), family) + message_type(
            services.last(),
            family,
        )
    }
}

/// Whether the service called `name` gives a port of either transport.
pub open spec fn is_transport_service(c: ConfigurationView, name: Seq<char>) -> bool {
    service_port(c, name, Transport::Tcp).len() > 0 || service_port(
        c,
        name,
        Transport::Udp,
    ).len() > 0
}

/// The names of a list that may stand for control message types: those
/// that give no port. A service is of one kind only, and what the policy
/// document says of its protocol goes before what its name says.
pub open spec fn control_names(c: ConfigurationView, services: Seq<Seq<char>>) -> Seq<Seq<char>>
    decreases services.len(),
{
    if services.len() == 0 {
        Seq::empty()
    } else if is_transport_service(c, services.last()) {
        control_names(c, services.drop_last())
    } else {
        control_names(c, services.drop_last()).push(services.last())
    }
}

/// The control message types of one family that the services of a rule
/// give, in order; repetitions stay.
pub open spec fn control_types(c: ConfigurationView, services: Seq<Seq<char>>, family: Family) -> Seq<
    Seq<char>,
> {
    message_types_from_services(control_names(c, services), family)
}

/// Whether the interface called `name` is set, defined and a loopback.
pub open spec fn is_loopback(c: ConfigurationView, name: Seq<char>) -> bool {
    name != unset_spec() && find_interface(c.interfaces, name) is Some && find_interface(
        c.interfaces,
        name,
    )->0.loopback
}

/// Whether a chain is attached to a loopback interface: on its inbound side
/// or on its outbound side.
pub open spec fn chain_on_loopback_spec(c: ConfigurationView, chain: ChainView) -> bool {
    is_loopback(c, chain.iface_in) || is_loopback(c, chain.iface_out)
}

/// Adding `a` and then `b` to a list gives what adding `a + b` gives.
pub proof fn lemma_extend_unique_concat(
    items: Seq<Seq<char>>,
    a: Seq<Seq<char>>,
    b: Seq<Seq<char>>,
)
    ensures
        extend_unique_spec(extend_unique_spec(items, a), b) == extend_unique_spec(items, a + b),
    decreases b.len(),
{
    if b.len() == 0 {
        assert(a + b =~= a);
    } else {
        lemma_extend_unique_concat(items, a, b.drop_last());
        assert((a + b).drop_last() =~= a + b.drop_last());
        assert((a + b).last() == b.last());
    }
}

/// Adding one item is adding the list that holds it alone.
pub proof fn lemma_extend_unique_one(items: Seq<Seq<char>>, item: Seq<char>)
    ensures
        extend_unique_spec(items, seq![item]) == crate::text::push_unique_spec(items, item),
{
    assert(seq![item].drop_last() =~= Seq::<Seq<char>>::empty());
    assert(extend_unique_spec(items, seq![item].drop_last()) == items);
}

/// The addresses of one family that `def` resolves to.
pub fn addresses_from_definition(config_items: &ConfigurationItems, def: &str, family: Family) -> (ips:
    Vec<String>)
    ensures
        views(ips@) == addresses_from_def(config_items@, def@, family),
{
    let ghost c = config_items@;
    let ghost none = Seq::<Seq<char>>::empty();
    let mut ips: Vec<String> = Vec::new();
    assert(views(ips@) =~= none);
    // the host of that name
    match config_items.host(def) {
        Some(h) => {
            match family {
                Family::V4 => extend_unique(&mut ips, &h.ipv4),
                Family::V6 => extend_unique(&mut ips, &h.ipv6),
            }
        },
        None => {},
    }
    assert(views(ips@) == extend_unique_spec(none, host_addresses(c, def@, family)));
    // the members of the host group of that name
    match config_items.hostgroup(def) {
        Some(g) => {
            let mut i: usize = 0;
            let ghost members = views(g.hosts@);
            assert(members.take(0) =~= none);
            assert(host_addresses(c, def@, family) + none =~= host_addresses(c, def@, family));
            while i < g.hosts.len()
                invariant
                    i <= g.hosts.len(),
                    c == config_items@,
                    members == views(g.hosts@),
                    views(ips@) == extend_unique_spec(
                        none,
                        host_addresses(c, def@, family) + group_addresses(
                            c,
                            members.take(i as int),
                            family,
                        ),
                    ),
                decreases g.hosts.len() - i,
            {
                let ghost before = host_addresses(c, def@, family) + group_addresses(
                    c,
                    members.take(i as int),
                    family,
                );
                let ghost more = host_addresses(c, members[i as int], family);
                assert(members.take(i as int + 1).drop_last() =~= members.take(i as int));
                assert(members.take(i as int + 1).last() == members[i as int]);
                match config_items.host(g.hosts[i].as_str()) {
                    Some(h) => {
                        match family {
                            Family::V4 => extend_unique(&mut ips, &h.ipv4),
                            Family::V6 => extend_unique(&mut ips, &h.ipv6),
                        }
                    },
                    None => {},
                }
                proof {
                    lemma_extend_unique_concat(none, before, more);
                    assert(before + more =~= host_addresses(c, def@, family) + group_addresses(
                        c,
                        members.take(i as int + 1),
                        family,
                    ));
                }
                i = i + 1;
            }
            assert(members.take(i as int) =~= members);
        },
        None => {
            assert(host_addresses(c, def@, family) + none =~= host_addresses(c, def@, family));
        },
    }
    let ghost upto = host_addresses(c, def@, family) + hostgroup_addresses(c, def@, family);
    assert(views(ips@) == extend_unique_spec(none, upto));
    // the network of that name
    match config_items.network(family, def) {
        Some(n) => {
            push_unique(&mut ips, n.address.as_str());
            proof {
                lemma_extend_unique_one(extend_unique_spec(none, upto), n.address@);
                lemma_extend_unique_concat(none, upto, seq![n.address@]);
            }
        },
        None => {
            assert(upto + none =~= upto);
        },
    }
    ips
}

/// The IPv4 addresses that `def` resolves to.
pub fn ipv4addresses_from_def(config_items: &ConfigurationItems, def: &String) -> (ips: Vec<
    String,
>)
    ensures
        views(ips@) == addresses_from_def(config_items@, def@, Family::V4),
{
    addresses_from_definition(config_items, def.as_str(), Family::V4)
}

/// The IPv6 addresses that `def` resolves to.
pub fn ipv6addresses_from_def(config_items: &ConfigurationItems, def: &String) -> (ips: Vec<
    String,
>)
    ensures
        views(ips@) == addresses_from_def(config_items@, def@, Family::V6),
{
    addresses_from_definition(config_items, def.as_str(), Family::V6)
}

/// The addresses of one family that a list of names resolves to.
pub fn resolve_addresses(config_items: &ConfigurationItems, defs: &Vec<String>, family: Family) -> (ips:
    Vec<String>)
    ensures
        views(ips@) == addresses_of(config_items@, views(defs@), family),
{
    let ghost all = views(defs@);
    let mut ips: Vec<String> = Vec::new();
    let mut i: usize = 0;
    assert(views(ips@) =~= Seq::<Seq<char>>::empty());
    assert(all.take(0) =~= Seq::<Seq<char>>::empty());
    while i < defs.len()
        invariant
            i <= defs.len(),
            all == views(defs@),
            views(ips@) == addresses_of(config_items@, all.take(i as int), family),
        decreases defs.len() - i,
    {
        assert(all.take(i as int + 1).drop_last() =~= all.take(i as int));
        assert(all.take(i as int + 1).last() == defs@[i as int]@);
        let more = addresses_from_definition(config_items, defs[i].as_str(), family);
        extend_unique(&mut ips, &more);
        i = i + 1;
    }
    assert(all.take(i as int) =~= all);
    ips
}

/// The protocol of a service of `transport`.
pub fn transport_name(transport: Transport) -> (r: &'static str)
    ensures
        r@ == transport_word(transport),
{
    match transport {
        Transport::Tcp => "TCP",
        Transport::Udp => "UDP",
    }
}

/// The ports of one transport that a list of service names gives.
pub fn ports_of(config_items: &ConfigurationItems, services: &Vec<String>, transport: Transport) -> (ports:
    Vec<String>)
    ensures
        views(ports@) == ports_from_services(config_items@, views(services@), transport),
{
    let ghost all = views(services@);
    let mut ports: Vec<String> = Vec::new();
    let mut i: usize = 0;
    assert(views(ports@) =~= Seq::<Seq<char>>::empty());
    assert(all.take(0) =~= Seq::<Seq<char>>::empty());
    while i < services.len()
        invariant
            i <= services.len(),
            all == views(services@),
            views(ports@) == ports_from_services(config_items@, all.take(i as int), transport),
        decreases services.len() - i,
    {
        assert(all.take(i as int + 1).drop_last() =~= all.take(i as int));
        assert(all.take(i as int + 1).last() == services@[i as int]@);
        let ghost before = views(ports@);
        match config_items.service(services[i].as_str()) {
            Some(service) => {
                if str_eq(service.protocol.as_str(), transport_name(transport)) {
                    push_line(&mut ports, decimal(service.port));
                    assert(before.push(decimal_spec(service.port as nat)) =~= before
                        + seq![decimal_spec(service.port as nat)]);
                } else {
                    assert(before + Seq::<Seq<char>>::empty() =~= before);
                }
            },
            None => {
                assert(before + Seq::<Seq<char>>::empty() =~= before);
            },
        }
        i = i + 1;
    }
    assert(all.take(i as int) =~= all);
    ports
}

/// The TCP ports that a list of service names gives.
pub fn tcp_ports_from_services(config_items: &ConfigurationItems, services: &Vec<String>) -> (ports:
    Vec<String>)
    ensures
        views(ports@) == ports_from_services(config_items@, views(services@), Transport::Tcp),
{
    ports_of(config_items, services, Transport::Tcp)
}

/// The UDP ports that a list of service names gives.
pub fn udp_ports_from_services(config_items: &ConfigurationItems, services: &Vec<String>) -> (ports:
    Vec<String>)
    ensures
        views(ports@) == ports_from_services(config_items@, views(services@), Transport::Udp),
{
    ports_of(config_items, services, Transport::Udp)
}

/// The beginning of the name of a service that stands for an ICMP type.
pub fn type_prefix_text(family: Family) -> (r: &'static str)
    ensures
        r@ == type_prefix(family),
{
    match family {
        Family::V4 => "ICMPv4 Type ",
        Family::V6 => "ICMPv6 Type ",
    }
}

/// The ICMP types of one family that a list of service names gives.
pub fn message_types_of(services: &Vec<String>, family: Family) -> (types: Vec<String>)
    ensures
        views(types@) == message_types_from_services(views(services@), family),
{
    let ghost all = views(services@);
    let prefix = type_prefix_text(family);
    let skip: usize = prefix.unicode_len();
    let mut types: Vec<String> = Vec::new();
    let mut i: usize = 0;
    assert(views(types@) =~= Seq::<Seq<char>>::empty());
    assert(all.take(0) =~= Seq::<Seq<char>>::empty());
    while i < services.len()
        invariant
            i <= services.len(),
            all == views(services@),
            prefix@ == type_prefix(family),
            skip == prefix@.len(),
            views(types@) == message_types_from_services(all.take(i as int), family),
        decreases services.len() - i,
    {
        assert(all.take(i as int + 1).drop_last() =~= all.take(i as int));
        assert(all.take(i as int + 1).last() == services@[i as int]@);
        let ghost before = views(types@);
        let svc = services[i].as_str();
        if starts_with(svc, prefix) {
            let t = suffix_from(svc, skip);
            push_line(&mut types, t);
            assert(before.push(t@) =~= before + seq![t@]);
        } else {
            assert(before + Seq::<Seq<char>>::empty() =~= before);
        }
        i = i + 1;
    }
    assert(all.take(i as int) =~= all);
    types
}

/// The names of a list that may stand for control message types.
pub fn control_services(config_items: &ConfigurationItems, services: &Vec<String>) -> (names: Vec<
    String,
>)
    ensures
        views(names@) == control_names(config_items@, views(services@)),
{
    let ghost all = views(services@);
    let mut names: Vec<String> = Vec::new();
    let mut i: usize = 0;
    assert(views(names@) =~= Seq::<Seq<char>>::empty());
    assert(all.take(0) =~= Seq::<Seq<char>>::empty());
    while i < services.len()
        invariant
            i <= services.len(),
            all == views(services@),
            views(names@) == control_names(config_items@, all.take(i as int)),
        decreases services.len() - i,
    {
        assert(all.take(i as int + 1).drop_last() =~= all.take(i as int));
        assert(all.take(i as int + 1).last() == services@[i as int]@);
        let transport = match config_items.service(services[i].as_str()) {
            Some(service) => str_eq(service.protocol.as_str(), transport_name(Transport::Tcp))
                || str_eq(service.protocol.as_str(), transport_name(Transport::Udp)),
            None => false,
        };
        if !transport {
            push_line(&mut names, services[i].clone());
        }
        i = i + 1;
    }
    assert(all.take(i as int) =~= all);
    names
}

/// The control message types of one family that the services of a rule
/// give.
pub fn control_types_of(
    config_items: &ConfigurationItems,
    services: &Vec<String>,
    family: Family,
) -> (types: Vec<String>)
    ensures
        views(types@) == control_types(config_items@, views(services@), family),
{
    message_types_of(&control_services(config_items, services), family)
}

/// The ICMPv4 types that a list of service names gives.
pub fn icmpv4_types_from_services(services: &Vec<String>) -> (types: Vec<String>)
    ensures
        views(types@) == message_types_from_services(views(services@), Family::V4),
{
    message_types_of(services, Family::V4)
}

/// The ICMPv6 types that a list of service names gives.
pub fn icmpv6_types_from_services(services: &Vec<String>) -> (types: Vec<String>)
    ensures
        views(types@) == message_types_from_services(views(services@), Family::V6),
{
    message_types_of(services, Family::V6)
}

/// The device name of the interface called `name`.
pub fn get_interface(config_items: &ConfigurationItems, name: &String) -> (r: Result<
    String,
    CompileError,
>)
    ensures
        (match r {
            Ok(systemname) => find_interface(config_items@.interfaces, name@) is Some
                && systemname@ == find_interface(config_items@.interfaces, name@)->0.systemname,
            Err(e) => find_interface(config_items@.interfaces, name@) is None && e@
                == Missing::Interface(name@),
        }),
{
    match config_items.interface(name.as_str()) {
        Some(i) => Ok(i.systemname.clone()),
        None => Err(CompileError::InterfaceNotFound(name.clone())),
    }
}

/// The chain called `name`.
pub fn get_chain<'a>(config_items: &'a ConfigurationItems, name: &String) -> (r: Result<
    &'a ChainData,
    CompileError,
>)
    ensures
        (match r {
            Ok(chain) => find_chain(config_items@.chains, name@) == Some(chain@),
            Err(e) => find_chain(config_items@.chains, name@) is None && e@ == Missing::Chain(
                name@,
            ),
        }),
{
    match config_items.chain(name.as_str()) {
        Some(c) => Ok(c),
        None => Err(CompileError::ChainNotFound(name.clone())),
    }
}

/// Whether the interface called `name` is set, defined and a loopback.
pub fn interface_is_loopback(config_items: &ConfigurationItems, name: &str) -> (r: bool)
    ensures
        r == is_loopback(config_items@, name@),
{
    if str_eq(name, "-") {
        return false;
    }
    match config_items.interface(name) {
        Some(iface) => iface.loopback,
        None => false,
    }
}

/// Whether `chain` is attached to a loopback interface.
pub fn chain_on_loopback(config_items: &ConfigurationItems, chain: &ChainData) -> (r: bool)
    ensures
        r == chain_on_loopback_spec(config_items@, chain@),
{
    interface_is_loopback(config_items, chain.iface_in.as_str()) || interface_is_loopback(
        config_items,
        chain.iface_out.as_str(),
    )
}

} // verus!
