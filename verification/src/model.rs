//! The policy document: interfaces, hosts, groups, networks, services, chains
//! and the filter and NAT tables, each with its mathematical view.
//!
//! Every named definition carries its own name. A list of definitions is
//! searched from its start, so the first definition of a name is the one that
//! counts, and lists are walked in the order in which they are given. A
//! document whose definitions were keyed by name holds no name twice
//! ([`distinct_names`]); every lookup then finds the one definition of the
//! name.

use vstd::prelude::*;
use crate::text::{all_distinct, list_contains, push_line, str_eq, views};

verus! {

/// The name that an unset interface reference holds.
pub open spec fn unset_spec() -> Seq<char> {
    "-"@
}

/// A network interface: symbolic name, device name and loopback flag.
#[derive(Clone, Debug, PartialEq, Eq)]
pub struct InterfaceData {
    pub name: String,
    pub systemname: String,
    pub loopback: bool,
}

pub struct InterfaceView {
    pub name: Seq<char>,
    pub systemname: Seq<char>,
    pub loopback: bool,
}

impl View for InterfaceData {
    type V = InterfaceView;

    open spec fn view(&self) -> InterfaceView {
        InterfaceView { name: self.name@, systemname: self.systemname@, loopback: self.loopback }
    }
}

/// A host: symbolic name and its addresses of either family.
#[derive(Clone, Debug, PartialEq, Eq)]
pub struct HostData {
    pub name: String,
    pub ipv4: Vec<String>,
    pub ipv6: Vec<String>,
}

pub struct HostView {
    pub name: Seq<char>,
    pub ipv4: Seq<Seq<char>>,
    pub ipv6: Seq<Seq<char>>,
}

impl View for HostData {
    type V = HostView;

    open spec fn view(&self) -> HostView {
        HostView { name: self.name@, ipv4: views(self.ipv4@), ipv6: views(self.ipv6@) }
    }
}

/// A group of hosts: symbolic name and the names of its members, in order.
#[derive(Clone, Debug, PartialEq, Eq)]
pub struct HostGroupData {
    pub name: String,
    pub hosts: Vec<String>,
}

pub struct HostGroupView {
    pub name: Seq<char>,
    pub hosts: Seq<Seq<char>>,
}

impl View for HostGroupData {
    type V = HostGroupView;

    open spec fn view(&self) -> HostGroupView {
        HostGroupView { name: self.name@, hosts: views(self.hosts@) }
    }
}

/// A network: symbolic name and one address range in CIDR notation.
#[derive(Clone, Debug, PartialEq, Eq)]
pub struct NetworkData {
    pub name: String,
    pub address: String,
}

pub struct NetworkView {
    pub name: Seq<char>,
    pub address: Seq<char>,
}

impl View for NetworkData {
    type V = NetworkView;

    open spec fn view(&self) -> NetworkView {
        NetworkView { name: self.name@, address: self.address@ }
    }
}

/// A service: symbolic name, protocol text and port.
#[derive(Clone, Debug, PartialEq, Eq)]
pub struct ServiceData {
    pub name: String,
    pub port: u16,
    pub protocol: String,
}

pub struct ServiceView {
    pub name: Seq<char>,
    pub port: nat,
    pub protocol: Seq<char>,
}

impl View for ServiceData {
    type V = ServiceView;

    open spec fn view(&self) -> ServiceView {
        ServiceView { name: self.name@, port: self.port as nat, protocol: self.protocol@ }
    }
}

/// A chain: what it may do, the interfaces it is attached to (`-` for none),
/// its direction and its default policy.
#[derive(Clone, Debug, PartialEq, Eq)]
pub struct ChainData {
    pub name: String,
    pub filter: bool,
    pub snat: bool,
    pub dnat: bool,
    pub iface_in: String,
    pub iface_out: String,
    pub direction: String,
    pub policy: String,
}

pub struct ChainView {
    pub name: Seq<char>,
    pub filter: bool,
    pub snat: bool,
    pub dnat: bool,
    pub iface_in: Seq<char>,
    pub iface_out: Seq<char>,
    pub direction: Seq<char>,
    pub policy: Seq<char>,
}

impl View for ChainData {
    type V = ChainView;

    open spec fn view(&self) -> ChainView {
        ChainView {
            name: self.name@,
            filter: self.filter,
            snat: self.snat,
            dnat: self.dnat,
            iface_in: self.iface_in@,
            iface_out: self.iface_out@,
            direction: self.direction@,
            policy: self.policy@,
        }
    }
}

/// A filtering rule.
#[derive(Clone, Debug, PartialEq, Eq)]
pub struct FilterRuleData {
    pub source: Vec<String>,
    pub sourceservice: Vec<String>,
    pub destination: Vec<String>,
    pub destinationservice: Vec<String>,
    pub action: String,
    pub comment: String,
    pub active: bool,
}

pub struct FilterRuleView {
    pub source: Seq<Seq<char>>,
    pub sourceservice: Seq<Seq<char>>,
    pub destination: Seq<Seq<char>>,
    pub destinationservice: Seq<Seq<char>>,
    pub action: Seq<char>,
    pub comment: Seq<char>,
    pub active: bool,
}

impl View for FilterRuleData {
    type V = FilterRuleView;

    open spec fn view(&self) -> FilterRuleView {
        FilterRuleView {
            source: views(self.source@),
            sourceservice: views(self.sourceservice@),
            destination: views(self.destination@),
            destinationservice: views(self.destinationservice@),
            action: self.action@,
            comment: self.comment@,
            active: self.active,
        }
    }
}

/// The filtering rules of one chain.
#[derive(Clone, Debug, PartialEq, Eq)]
pub struct FilterTableData {
    pub chain: String,
    pub policy: String,
    pub rules: Vec<FilterRuleData>,
    pub deleted: bool,
}

pub struct FilterTableView {
    pub chain: Seq<char>,
    pub policy: Seq<char>,
    pub rules: Seq<FilterRuleView>,
    pub deleted: bool,
}

impl View for FilterTableData {
    type V = FilterTableView;

    open spec fn view(&self) -> FilterTableView {
        FilterTableView {
            chain: self.chain@,
            policy: self.policy@,
            rules: Seq::new(self.rules@.len(), |i: int| self.rules@[i]@),
            deleted: self.deleted,
        }
    }
}

/// An address translation rule.
#[derive(Clone, Debug, PartialEq, Eq)]
pub struct NatRuleData {
    pub source: Vec<String>,
    pub sourceservice: Vec<String>,
    pub destination: Vec<String>,
    pub destinationservice: Vec<String>,
    pub translated: String,
    pub translatedservice: String,
    pub comment: String,
    pub active: bool,
}

pub struct NatRuleView {
    pub source: Seq<Seq<char>>,
    pub sourceservice: Seq<Seq<char>>,
    pub destination: Seq<Seq<char>>,
    pub destinationservice: Seq<Seq<char>>,
    pub translated: Seq<char>,
    pub translatedservice: Seq<char>,
    pub comment: Seq<char>,
    pub active: bool,
}

impl View for NatRuleData {
    type V = NatRuleView;

    open spec fn view(&self) -> NatRuleView {
        NatRuleView {
            source: views(self.source@),
            sourceservice: views(self.sourceservice@),
            destination: views(self.destination@),
            destinationservice: views(self.destinationservice@),
            translated: self.translated@,
            translatedservice: self.translatedservice@,
            comment: self.comment@,
            active: self.active,
        }
    }
}

/// The address translation rules of one chain.
#[derive(Clone, Debug, PartialEq, Eq)]
pub struct NatTableData {
    pub chain: String,
    pub rules: Vec<NatRuleData>,
    pub deleted: bool,
}

pub struct NatTableView {
    pub chain: Seq<char>,
    pub rules: Seq<NatRuleView>,
    pub deleted: bool,
}

impl View for NatTableData {
    type V = NatTableView;

    open spec fn view(&self) -> NatTableView {
        NatTableView {
            chain: self.chain@,
            rules: Seq::new(self.rules@.len(), |i: int| self.rules@[i]@),
            deleted: self.deleted,
        }
    }
}

/// A whole policy document.
#[derive(Clone, Debug, PartialEq, Eq)]
pub struct ConfigurationItems {
    pub interfaces: Vec<InterfaceData>,
    pub hosts: Vec<HostData>,
    pub hostgroups: Vec<HostGroupData>,
    pub ipv4networks: Vec<NetworkData>,
    pub ipv6networks: Vec<NetworkData>,
    pub services: Vec<ServiceData>,
    pub chains: Vec<ChainData>,
    pub inactive_defaults: Vec<String>,
    pub filters: Vec<FilterTableData>,
    pub pre: String,
    pub post: String,
    pub snat: Vec<NatTableData>,
    pub dnat: Vec<NatTableData>,
    pub logging: String,
}

pub struct ConfigurationView {
    pub interfaces: Seq<InterfaceView>,
    pub hosts: Seq<HostView>,
    pub hostgroups: Seq<HostGroupView>,
    pub ipv4networks: Seq<NetworkView>,
    pub ipv6networks: Seq<NetworkView>,
    pub services: Seq<ServiceView>,
    pub chains: Seq<ChainView>,
    pub inactive_defaults: Seq<Seq<char>>,
    pub filters: Seq<FilterTableView>,
    pub pre: Seq<char>,
    pub post: Seq<char>,
    pub snat: Seq<NatTableView>,
    pub dnat: Seq<NatTableView>,
    pub logging: Seq<char>,
}

impl View for ConfigurationItems {
    type V = ConfigurationView;

    open spec fn view(&self) -> ConfigurationView {
        ConfigurationView {
            interfaces: Seq::new(self.interfaces@.len(), |i: int| self.interfaces@[i]@),
            hosts: Seq::new(self.hosts@.len(), |i: int| self.hosts@[i]@),
            hostgroups: Seq::new(self.hostgroups@.len(), |i: int| self.hostgroups@[i]@),
            ipv4networks: Seq::new(self.ipv4networks@.len(), |i: int| self.ipv4networks@[i]@),
            ipv6networks: Seq::new(self.ipv6networks@.len(), |i: int| self.ipv6networks@[i]@),
            services: Seq::new(self.services@.len(), |i: int| self.services@[i]@),
            chains: Seq::new(self.chains@.len(), |i: int| self.chains@[i]@),
            inactive_defaults: views(self.inactive_defaults@),
            filters: Seq::new(self.filters@.len(), |i: int| self.filters@[i]@),
            pre: self.pre@,
            post: self.post@,
            snat: Seq::new(self.snat@.len(), |i: int| self.snat@[i]@),
            dnat: Seq::new(self.dnat@.len(), |i: int| self.dnat@[i]@),
            logging: self.logging@,
        }
    }
}

/// An address family.
#[derive(Clone, Copy, Debug, PartialEq, Eq, Structural)]
pub enum Family {
    V4,
    V6,
}

/// A transport protocol.
#[derive(Clone, Copy, Debug, PartialEq, Eq, Structural)]
pub enum Transport {
    Tcp,
    Udp,
}

/// The two kinds of address translation.
#[derive(Clone, Copy, Debug, PartialEq, Eq, Structural)]
pub enum NatKind {
    Source,
    Destination,
}

/// The three directions in which traffic passes a chain.
#[derive(Clone, Copy, Debug, PartialEq, Eq, Structural)]
pub enum Direction {
    Input,
    Forward,
    Output,
}

/// The first interface of the list that is called `name`.
pub open spec fn find_interface(items: Seq<InterfaceView>, name: Seq<char>) -> Option<
    InterfaceView,
>
    decreases items.len(),
{
    if items.len() == 0 {
        None
    } else if items[0].name == name {
        Some(items[0])
    } else {
        find_interface(items.drop_first(), name)
    }
}

/// The first host of the list that is called `name`.
pub open spec fn find_host(items: Seq<HostView>, name: Seq<char>) -> Option<HostView>
    decreases items.len(),
{
    if items.len() == 0 {
        None
    } else if items[0].name == name {
        Some(items[0])
    } else {
        find_host(items.drop_first(), name)
    }
}

/// The first host group of the list that is called `name`.
pub open spec fn find_hostgroup(items: Seq<HostGroupView>, name: Seq<char>) -> Option<
    HostGroupView,
>
    decreases items.len(),
{
    if items.len() == 0 {
        None
    } else if items[0].name == name {
        Some(items[0])
    } else {
        find_hostgroup(items.drop_first(), name)
    }
}

/// The first network of the list that is called `name`.
pub open spec fn find_network(items: Seq<NetworkView>, name: Seq<char>) -> Option<NetworkView>
    decreases items.len(),
{
    if items.len() == 0 {
        None
    } else if items[0].name == name {
        Some(items[0])
    } else {
        find_network(items.drop_first(), name)
    }
}

/// The first service of the list that is called `name`.
pub open spec fn find_service(items: Seq<ServiceView>, name: Seq<char>) -> Option<ServiceView>
    decreases items.len(),
{
    if items.len() == 0 {
        None
    } else if items[0].name == name {
        Some(items[0])
    } else {
        find_service(items.drop_first(), name)
    }
}

/// The first chain of the list that is called `name`.
pub open spec fn find_chain(items: Seq<ChainView>, name: Seq<char>) -> Option<ChainView>
    decreases items.len(),
{
    if items.len() == 0 {
        None
    } else if items[0].name == name {
        Some(items[0])
    } else {
        find_chain(items.drop_first(), name)
    }
}

impl ConfigurationItems {
    /// The interface called `name`.
    pub fn interface(&self, name: &str) -> (r: Option<&InterfaceData>)
        ensures
            (match r {
                Some(iface) => find_interface(self@.interfaces, name@) == Some(iface@),
                None => find_interface(self@.interfaces, name@) is None,
            }),
    {
        let ghost all = self@.interfaces;
        let n: usize = self.interfaces.len();
        let mut i: usize = 0;
        assert(all.subrange(0, n as int) =~= all);
        while i < n
            invariant
                i <= n,
                n == self.interfaces.len(),
                all == self@.interfaces,
                find_interface(all, name@) == find_interface(
                    all.subrange(i as int, n as int),
                    name@,
                ),
            decreases n - i,
        {
            assert(all.subrange(i as int, n as int).drop_first() =~= all.subrange(
                i as int + 1,
                n as int,
            ));
            if str_eq(self.interfaces[i].name.as_str(), name) {
                return Some(&self.interfaces[i]);
            }
            i = i + 1;
        }
        None
    }

    /// The host called `name`.
    pub fn host(&self, name: &str) -> (r: Option<&HostData>)
        ensures
            (match r {
                Some(h) => find_host(self@.hosts, name@) == Some(h@),
                None => find_host(self@.hosts, name@) is None,
            }),
    {
        let ghost all = self@.hosts;
        let n: usize = self.hosts.len();
        let mut i: usize = 0;
        assert(all.subrange(0, n as int) =~= all);
        while i < n
            invariant
                i <= n,
                n == self.hosts.len(),
                all == self@.hosts,
                find_host(all, name@) == find_host(all.subrange(i as int, n as int), name@),
            decreases n - i,
        {
            assert(all.subrange(i as int, n as int).drop_first() =~= all.subrange(
                i as int + 1,
                n as int,
            ));
            if str_eq(self.hosts[i].name.as_str(), name) {
                return Some(&self.hosts[i]);
            }
            i = i + 1;
        }
        None
    }

    /// The host group called `name`.
    pub fn hostgroup(&self, name: &str) -> (r: Option<&HostGroupData>)
        ensures
            (match r {
                Some(g) => find_hostgroup(self@.hostgroups, name@) == Some(g@),
                None => find_hostgroup(self@.hostgroups, name@) is None,
            }),
    {
        let ghost all = self@.hostgroups;
        let n: usize = self.hostgroups.len();
        let mut i: usize = 0;
        assert(all.subrange(0, n as int) =~= all);
        while i < n
            invariant
                i <= n,
                n == self.hostgroups.len(),
                all == self@.hostgroups,
                find_hostgroup(all, name@) == find_hostgroup(
                    all.subrange(i as int, n as int),
                    name@,
                ),
            decreases n - i,
        {
            assert(all.subrange(i as int, n as int).drop_first() =~= all.subrange(
                i as int + 1,
                n as int,
            ));
            if str_eq(self.hostgroups[i].name.as_str(), name) {
                return Some(&self.hostgroups[i]);
            }
            i = i + 1;
        }
        None
    }

    /// The network of the given family called `name`.
    pub fn network(&self, family: Family, name: &str) -> (r: Option<&NetworkData>)
        ensures
            (match r {
                Some(net) => find_network(networks_of(self@, family), name@) == Some(net@),
                None => find_network(networks_of(self@, family), name@) is None,
            }),
    {
        let list = match family {
            Family::V4 => &self.ipv4networks,
            Family::V6 => &self.ipv6networks,
        };
        let ghost all = networks_of(self@, family);
        let n: usize = list.len();
        let mut i: usize = 0;
        assert(all.subrange(0, n as int) =~= all);
        while i < n
            invariant
                i <= n,
                n == list.len(),
                all.len() == n,
                all == networks_of(self@, family),
                forall|k: int| 0 <= k < n ==> all[k] == list@[k]@,
                find_network(all, name@) == find_network(
                    all.subrange(i as int, n as int),
                    name@,
                ),
            decreases n - i,
        {
            assert(all.subrange(i as int, n as int).drop_first() =~= all.subrange(
                i as int + 1,
                n as int,
            ));
            if str_eq(list[i].name.as_str(), name) {
                assert(all.subrange(i as int, n as int)[0] == list@[i as int]@);
                return Some(&list[i]);
            }
            i = i + 1;
        }
        None
    }

    /// The service called `name`.
    pub fn service(&self, name: &str) -> (r: Option<&ServiceData>)
        ensures
            (match r {
                Some(s) => find_service(self@.services, name@) == Some(s@),
                None => find_service(self@.services, name@) is None,
            }),
    {
        let ghost all = self@.services;
        let n: usize = self.services.len();
        let mut i: usize = 0;
        assert(all.subrange(0, n as int) =~= all);
        while i < n
            invariant
                i <= n,
                n == self.services.len(),
                all == self@.services,
                find_service(all, name@) == find_service(
                    all.subrange(i as int, n as int),
                    name@,
                ),
            decreases n - i,
        {
            assert(all.subrange(i as int, n as int).drop_first() =~= all.subrange(
                i as int + 1,
                n as int,
            ));
            if str_eq(self.services[i].name.as_str(), name) {
                return Some(&self.services[i]);
            }
            i = i + 1;
        }
        None
    }

    /// The chain called `name`.
    pub fn chain(&self, name: &str) -> (r: Option<&ChainData>)
        ensures
            (match r {
                Some(c) => find_chain(self@.chains, name@) == Some(c@),
                None => find_chain(self@.chains, name@) is None,
            }),
    {
        let ghost all = self@.chains;
        let n: usize = self.chains.len();
        let mut i: usize = 0;
        assert(all.subrange(0, n as int) =~= all);
        while i < n
            invariant
                i <= n,
                n == self.chains.len(),
                all == self@.chains,
                find_chain(all, name@) == find_chain(all.subrange(i as int, n as int), name@),
            decreases n - i,
        {
            assert(all.subrange(i as int, n as int).drop_first() =~= all.subrange(
                i as int + 1,
                n as int,
            ));
            if str_eq(self.chains[i].name.as_str(), name) {
                return Some(&self.chains[i]);
            }
            i = i + 1;
        }
        None
    }

    /// Whether the built-in protection called `name` is switched off.
    pub fn opted_out(&self, name: &str) -> (r: bool)
        ensures
            r == self@.inactive_defaults.contains(name@),
    {
        list_contains(&self.inactive_defaults, name)
    }
}

/// The networks of one family.
pub open spec fn networks_of(c: ConfigurationView, family: Family) -> Seq<NetworkView> {
    match family {
        Family::V4 => c.ipv4networks,
        Family::V6 => c.ipv6networks,
    }
}

/// The names of a list of interface definitions, in order.
pub open spec fn interface_names(items: Seq<InterfaceView>) -> Seq<Seq<char>> {
    Seq::new(items.len(), |i: int| items[i].name)
}

/// The names of a list of host definitions, in order.
pub open spec fn host_names(items: Seq<HostView>) -> Seq<Seq<char>> {
    Seq::new(items.len(), |i: int| items[i].name)
}

/// The names of a list of hostgroup definitions, in order.
pub open spec fn hostgroup_names(items: Seq<HostGroupView>) -> Seq<Seq<char>> {
    Seq::new(items.len(), |i: int| items[i].name)
}

/// The names of a list of network definitions, in order.
pub open spec fn network_names(items: Seq<NetworkView>) -> Seq<Seq<char>> {
    Seq::new(items.len(), |i: int| items[i].name)
}

/// The names of a list of service definitions, in order.
pub open spec fn service_names(items: Seq<ServiceView>) -> Seq<Seq<char>> {
    Seq::new(items.len(), |i: int| items[i].name)
}

/// The names of a list of chain definitions, in order.
pub open spec fn chain_names(items: Seq<ChainView>) -> Seq<Seq<char>> {
    Seq::new(items.len(), |i: int| items[i].name)
}

/// Whether no name is defined twice: not among the interfaces, not among
/// the hosts, the host groups, the networks of either family, the services
/// or the chains. A document that was keyed by name is of this kind. The
/// compiler takes any document; of several definitions of one name it
/// reads the first.
pub open spec fn distinct_names(c: ConfigurationView) -> bool {
    interface_names(c.interfaces).no_duplicates() && host_names(c.hosts).no_duplicates()
        && hostgroup_names(c.hostgroups).no_duplicates() && network_names(
        c.ipv4networks,
    ).no_duplicates() && network_names(c.ipv6networks).no_duplicates() && service_names(
        c.services,
    ).no_duplicates() && chain_names(c.chains).no_duplicates()
}

/// Among interface definitions of distinct names, the one that is found under a
/// name is the one that has it, wherever it stands.
pub proof fn lemma_interface_found(items: Seq<InterfaceView>, i: int)
    requires
        interface_names(items).no_duplicates(),
        0 <= i < items.len(),
    ensures
        find_interface(items, items[i].name) == Some(items[i]),
    decreases items.len(),
{
    if i > 0 {
        let names = interface_names(items);
        let rest = items.drop_first();
        assert(names[0] != names[i]);
        assert forall|a: int, b: int|
            0 <= a < interface_names(rest).len() && 0 <= b < interface_names(rest).len() && a != b implies interface_names(
            rest,
        )[a] != interface_names(rest)[b] by {
            assert(interface_names(rest)[a] == names[a + 1]);
            assert(interface_names(rest)[b] == names[b + 1]);
        }
        assert(rest[i - 1] == items[i]);
        lemma_interface_found(rest, i - 1);
    }
}

/// Among host definitions of distinct names, the one that is found under a
/// name is the one that has it, wherever it stands.
pub proof fn lemma_host_found(items: Seq<HostView>, i: int)
    requires
        host_names(items).no_duplicates(),
        0 <= i < items.len(),
    ensures
        find_host(items, items[i].name) == Some(items[i]),
    decreases items.len(),
{
    if i > 0 {
        let names = host_names(items);
        let rest = items.drop_first();
        assert(names[0] != names[i]);
        assert forall|a: int, b: int|
            0 <= a < host_names(rest).len() && 0 <= b < host_names(rest).len() && a != b implies host_names(
            rest,
        )[a] != host_names(rest)[b] by {
            assert(host_names(rest)[a] == names[a + 1]);
            assert(host_names(rest)[b] == names[b + 1]);
        }
        assert(rest[i - 1] == items[i]);
        lemma_host_found(rest, i - 1);
    }
}

/// Among hostgroup definitions of distinct names, the one that is found under a
/// name is the one that has it, wherever it stands.
pub proof fn lemma_hostgroup_found(items: Seq<HostGroupView>, i: int)
    requires
        hostgroup_names(items).no_duplicates(),
        0 <= i < items.len(),
    ensures
        find_hostgroup(items, items[i].name) == Some(items[i]),
    decreases items.len(),
{
    if i > 0 {
        let names = hostgroup_names(items);
        let rest = items.drop_first();
        assert(names[0] != names[i]);
        assert forall|a: int, b: int|
            0 <= a < hostgroup_names(rest).len() && 0 <= b < hostgroup_names(rest).len() && a != b implies hostgroup_names(
            rest,
        )[a] != hostgroup_names(rest)[b] by {
            assert(hostgroup_names(rest)[a] == names[a + 1]);
            assert(hostgroup_names(rest)[b] == names[b + 1]);
        }
        assert(rest[i - 1] == items[i]);
        lemma_hostgroup_found(rest, i - 1);
    }
}

/// Among network definitions of distinct names, the one that is found under a
/// name is the one that has it, wherever it stands.
pub proof fn lemma_network_found(items: Seq<NetworkView>, i: int)
    requires
        network_names(items).no_duplicates(),
        0 <= i < items.len(),
    ensures
        find_network(items, items[i].name) == Some(items[i]),
    decreases items.len(),
{
    if i > 0 {
        let names = network_names(items);
        let rest = items.drop_first();
        assert(names[0] != names[i]);
        assert forall|a: int, b: int|
            0 <= a < network_names(rest).len() && 0 <= b < network_names(rest).len() && a != b implies network_names(
            rest,
        )[a] != network_names(rest)[b] by {
            assert(network_names(rest)[a] == names[a + 1]);
            assert(network_names(rest)[b] == names[b + 1]);
        }
        assert(rest[i - 1] == items[i]);
        lemma_network_found(rest, i - 1);
    }
}

/// Among service definitions of distinct names, the one that is found under a
/// name is the one that has it, wherever it stands.
pub proof fn lemma_service_found(items: Seq<ServiceView>, i: int)
    requires
        service_names(items).no_duplicates(),
        0 <= i < items.len(),
    ensures
        find_service(items, items[i].name) == Some(items[i]),
    decreases items.len(),
{
    if i > 0 {
        let names = service_names(items);
        let rest = items.drop_first();
        assert(names[0] != names[i]);
        assert forall|a: int, b: int|
            0 <= a < service_names(rest).len() && 0 <= b < service_names(rest).len() && a != b implies service_names(
            rest,
        )[a] != service_names(rest)[b] by {
            assert(service_names(rest)[a] == names[a + 1]);
            assert(service_names(rest)[b] == names[b + 1]);
        }
        assert(rest[i - 1] == items[i]);
        lemma_service_found(rest, i - 1);
    }
}

/// Among chain definitions of distinct names, the one that is found under a
/// name is the one that has it, wherever it stands.
pub proof fn lemma_chain_found(items: Seq<ChainView>, i: int)
    requires
        chain_names(items).no_duplicates(),
        0 <= i < items.len(),
    ensures
        find_chain(items, items[i].name) == Some(items[i]),
    decreases items.len(),
{
    if i > 0 {
        let names = chain_names(items);
        let rest = items.drop_first();
        assert(names[0] != names[i]);
        assert forall|a: int, b: int|
            0 <= a < chain_names(rest).len() && 0 <= b < chain_names(rest).len() && a != b implies chain_names(
            rest,
        )[a] != chain_names(rest)[b] by {
            assert(chain_names(rest)[a] == names[a + 1]);
            assert(chain_names(rest)[b] == names[b + 1]);
        }
        assert(rest[i - 1] == items[i]);
        lemma_chain_found(rest, i - 1);
    }
}

/// In a document of distinct names every definition is the one that its
/// name leads to: the order of the definitions does not matter to a lookup.
pub proof fn law_distinct_names_are_found(c: ConfigurationView)
    requires
        distinct_names(c),
    ensures
        forall|i: int|
            0 <= i < c.interfaces.len() ==> find_interface(
                c.interfaces,
                (#[trigger] c.interfaces[i]).name,
            ) == Some(c.interfaces[i]),
        forall|i: int|
            0 <= i < c.hosts.len() ==> find_host(c.hosts, (#[trigger] c.hosts[i]).name) == Some(
                c.hosts[i],
            ),
        forall|i: int|
            0 <= i < c.hostgroups.len() ==> find_hostgroup(
                c.hostgroups,
                (#[trigger] c.hostgroups[i]).name,
            ) == Some(c.hostgroups[i]),
        forall|i: int|
            0 <= i < c.ipv4networks.len() ==> find_network(
                c.ipv4networks,
                (#[trigger] c.ipv4networks[i]).name,
            ) == Some(c.ipv4networks[i]),
        forall|i: int|
            0 <= i < c.ipv6networks.len() ==> find_network(
                c.ipv6networks,
                (#[trigger] c.ipv6networks[i]).name,
            ) == Some(c.ipv6networks[i]),
        forall|i: int|
            0 <= i < c.services.len() ==> find_service(
                c.services,
                (#[trigger] c.services[i]).name,
            ) == Some(c.services[i]),
        forall|i: int|
            0 <= i < c.chains.len() ==> find_chain(c.chains, (#[trigger] c.chains[i]).name)
                == Some(c.chains[i]),
{
    assert forall|i: int| 0 <= i < c.interfaces.len() implies find_interface(
        c.interfaces,
        (#[trigger] c.interfaces[i]).name,
    ) == Some(c.interfaces[i]) by {
        lemma_interface_found(c.interfaces, i);
    }
    assert forall|i: int| 0 <= i < c.hosts.len() implies find_host(
        c.hosts,
        (#[trigger] c.hosts[i]).name,
    ) == Some(c.hosts[i]) by {
        lemma_host_found(c.hosts, i);
    }
    assert forall|i: int| 0 <= i < c.hostgroups.len() implies find_hostgroup(
        c.hostgroups,
        (#[trigger] c.hostgroups[i]).name,
    ) == Some(c.hostgroups[i]) by {
        lemma_hostgroup_found(c.hostgroups, i);
    }
    assert forall|i: int| 0 <= i < c.ipv4networks.len() implies find_network(
        c.ipv4networks,
        (#[trigger] c.ipv4networks[i]).name,
    ) == Some(c.ipv4networks[i]) by {
        lemma_network_found(c.ipv4networks, i);
    }
    assert forall|i: int| 0 <= i < c.ipv6networks.len() implies find_network(
        c.ipv6networks,
        (#[trigger] c.ipv6networks[i]).name,
    ) == Some(c.ipv6networks[i]) by {
        lemma_network_found(c.ipv6networks, i);
    }
    assert forall|i: int| 0 <= i < c.services.len() implies find_service(
        c.services,
        (#[trigger] c.services[i]).name,
    ) == Some(c.services[i]) by {
        lemma_service_found(c.services, i);
    }
    assert forall|i: int| 0 <= i < c.chains.len() implies find_chain(
        c.chains,
        (#[trigger] c.chains[i]).name,
    ) == Some(c.chains[i]) by {
        lemma_chain_found(c.chains, i);
    }
}

/// Whether no name is defined twice in a list of interface definitions.
pub fn interfaces_are_distinct(items: &Vec<InterfaceData>) -> (r: bool)
    ensures
        r == interface_names(Seq::new(items@.len(), |i: int| items@[i]@)).no_duplicates(),
{
    let ghost all = interface_names(Seq::new(items@.len(), |i: int| items@[i]@));
    let mut names: Vec<String> = Vec::new();
    let mut i: usize = 0;
    assert(views(names@) =~= all.take(0));
    while i < items.len()
        invariant
            i <= items.len(),
            all == interface_names(Seq::new(items@.len(), |i: int| items@[i]@)),
            views(names@) == all.take(i as int),
        decreases items.len() - i,
    {
        assert(all[i as int] == items@[i as int]@.name);
        assert(all.take(i as int + 1) =~= all.take(i as int).push(all[i as int]));
        push_line(&mut names, items[i].name.clone());
        i = i + 1;
    }
    assert(all.take(i as int) =~= all);
    all_distinct(&names)
}

/// Whether no name is defined twice in a list of host definitions.
pub fn hosts_are_distinct(items: &Vec<HostData>) -> (r: bool)
    ensures
        r == host_names(Seq::new(items@.len(), |i: int| items@[i]@)).no_duplicates(),
{
    let ghost all = host_names(Seq::new(items@.len(), |i: int| items@[i]@));
    let mut names: Vec<String> = Vec::new();
    let mut i: usize = 0;
    assert(views(names@) =~= all.take(0));
    while i < items.len()
        invariant
            i <= items.len(),
            all == host_names(Seq::new(items@.len(), |i: int| items@[i]@)),
            views(names@) == all.take(i as int),
        decreases items.len() - i,
    {
        assert(all[i as int] == items@[i as int]@.name);
        assert(all.take(i as int + 1) =~= all.take(i as int).push(all[i as int]));
        push_line(&mut names, items[i].name.clone());
        i = i + 1;
    }
    assert(all.take(i as int) =~= all);
    all_distinct(&names)
}

/// Whether no name is defined twice in a list of hostgroup definitions.
pub fn hostgroups_are_distinct(items: &Vec<HostGroupData>) -> (r: bool)
    ensures
        r == hostgroup_names(Seq::new(items@.len(), |i: int| items@[i]@)).no_duplicates(),
{
    let ghost all = hostgroup_names(Seq::new(items@.len(), |i: int| items@[i]@));
    let mut names: Vec<String> = Vec::new();
    let mut i: usize = 0;
    assert(views(names@) =~= all.take(0));
    while i < items.len()
        invariant
            i <= items.len(),
            all == hostgroup_names(Seq::new(items@.len(), |i: int| items@[i]@)),
            views(names@) == all.take(i as int),
        decreases items.len() - i,
    {
        assert(all[i as int] == items@[i as int]@.name);
        assert(all.take(i as int + 1) =~= all.take(i as int).push(all[i as int]));
        push_line(&mut names, items[i].name.clone());
        i = i + 1;
    }
    assert(all.take(i as int) =~= all);
    all_distinct(&names)
}

/// Whether no name is defined twice in a list of network definitions.
pub fn networks_are_distinct(items: &Vec<NetworkData>) -> (r: bool)
    ensures
        r == network_names(Seq::new(items@.len(), |i: int| items@[i]@)).no_duplicates(),
{
    let ghost all = network_names(Seq::new(items@.len(), |i: int| items@[i]@));
    let mut names: Vec<String> = Vec::new();
    let mut i: usize = 0;
    assert(views(names@) =~= all.take(0));
    while i < items.len()
        invariant
            i <= items.len(),
            all == network_names(Seq::new(items@.len(), |i: int| items@[i]@)),
            views(names@) == all.take(i as int),
        decreases items.len() - i,
    {
        assert(all[i as int] == items@[i as int]@.name);
        assert(all.take(i as int + 1) =~= all.take(i as int).push(all[i as int]));
        push_line(&mut names, items[i].name.clone());
        i = i + 1;
    }
    assert(all.take(i as int) =~= all);
    all_distinct(&names)
}

/// Whether no name is defined twice in a list of service definitions.
pub fn services_are_distinct(items: &Vec<ServiceData>) -> (r: bool)
    ensures
        r == service_names(Seq::new(items@.len(), |i: int| items@[i]@)).no_duplicates(),
{
    let ghost all = service_names(Seq::new(items@.len(), |i: int| items@[i]@));
    let mut names: Vec<String> = Vec::new();
    let mut i: usize = 0;
    assert(views(names@) =~= all.take(0));
    while i < items.len()
        invariant
            i <= items.len(),
            all == service_names(Seq::new(items@.len(), |i: int| items@[i]@)),
            views(names@) == all.take(i as int),
        decreases items.len() - i,
    {
        assert(all[i as int] == items@[i as int]@.name);
        assert(all.take(i as int + 1) =~= all.take(i as int).push(all[i as int]));
        push_line(&mut names, items[i].name.clone());
        i = i + 1;
    }
    assert(all.take(i as int) =~= all);
    all_distinct(&names)
}

/// Whether no name is defined twice in a list of chain definitions.
pub fn chains_are_distinct(items: &Vec<ChainData>) -> (r: bool)
    ensures
        r == chain_names(Seq::new(items@.len(), |i: int| items@[i]@)).no_duplicates(),
{
    let ghost all = chain_names(Seq::new(items@.len(), |i: int| items@[i]@));
    let mut names: Vec<String> = Vec::new();
    let mut i: usize = 0;
    assert(views(names@) =~= all.take(0));
    while i < items.len()
        invariant
            i <= items.len(),
            all == chain_names(Seq::new(items@.len(), |i: int| items@[i]@)),
            views(names@) == all.take(i as int),
        decreases items.len() - i,
    {
        assert(all[i as int] == items@[i as int]@.name);
        assert(all.take(i as int + 1) =~= all.take(i as int).push(all[i as int]));
        push_line(&mut names, items[i].name.clone());
        i = i + 1;
    }
    assert(all.take(i as int) =~= all);
    all_distinct(&names)
}

impl ConfigurationItems {
    /// Whether no name is defined twice.
    pub fn has_distinct_names(&self) -> (r: bool)
        ensures
            r == distinct_names(self@),
    {
        interfaces_are_distinct(&self.interfaces) && hosts_are_distinct(&self.hosts)
            && hostgroups_are_distinct(&self.hostgroups) && networks_are_distinct(
            &self.ipv4networks,
        ) && networks_are_distinct(&self.ipv6networks) && services_are_distinct(&self.services)
            && chains_are_distinct(&self.chains)
    }
}

} // verus!
