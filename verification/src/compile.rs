//! The rule compiler: from a policy document to the lines of a ruleset
//! script, or to the first reference that leads nowhere.
//!
//! References are followed first: those of the tables to their chains and
//! of these chains to their interfaces, then the interfaces that the jumps
//! of the dispatch chains need. Only a document without a finding is
//! written out.

use vstd::prelude::*;
use vstd::string::*;
use crate::filter::{
    concat3, declare_sets, filter_tables, filter_tables_counters, filter_tables_lines,
    set_declarations,
};
use crate::model::{
    find_chain, find_interface, ChainData, ChainView, ConfigurationItems, ConfigurationView,
    Direction, FilterTableData, FilterTableView, InterfaceData, InterfaceView, NatKind,
};
use crate::reference::{check_tables, first_missing_reference, or_else, table_refs};
use crate::resolve::{CompileError, Missing};
use crate::script::{
    active_defaults, addcounters, addcounters_spec, counter_mode, defaults_of, netdev_log_clause,
    netdev_logcommand, Defaults,
};
use crate::text::{lines_spec, push_line, push_lines, split_lines, str_eq, views};
use crate::translate::{emit_nat_tables, nat_tables_spec, Sections, SectionsView};

verus! {

/// The word of a direction.
pub open spec fn direction_word(dir: Direction) -> Seq<char> {
    match dir {
        Direction::Input => "input"@,
        Direction::Forward => "forward"@,
        Direction::Output => "output"@,
    }
}

/// The chain that a filter table sends traffic of one direction to: that of
/// a table that is not deleted, where it is defined and has this direction.
pub open spec fn dispatched(c: ConfigurationView, dir: Direction, table: FilterTableView) -> Option<
    ChainView,
> {
    if table.deleted {
        None
    } else {
        match find_chain(c.chains, table.chain) {
            Some(chain) => if chain.direction == direction_word(dir) {
                Some(chain)
            } else {
                None
            },
            None => None,
        }
    }
}

/// The interface that a jump to `chain` needs and that is not defined: the
/// inbound one for input, the outbound one for output, for forward the
/// inbound one or else the outbound one. A jump needs its interface also
/// where the chain leaves it unset: the name that stands for that is then
/// the one that is missing.
pub open spec fn missing_jump_interface(c: ConfigurationView, dir: Direction, chain: ChainView) -> Option<
    Missing,
> {
    let no_in = find_interface(c.interfaces, chain.iface_in) is None;
    let no_out = find_interface(c.interfaces, chain.iface_out) is None;
    match dir {
        Direction::Input => if no_in {
            Some(Missing::Interface(chain.iface_in))
        } else {
            None
        },
        Direction::Output => if no_out {
            Some(Missing::Interface(chain.iface_out))
        } else {
            None
        },
        Direction::Forward => if no_in {
            Some(Missing::Interface(chain.iface_in))
        } else if no_out {
            Some(Missing::Interface(chain.iface_out))
        } else {
            None
        },
    }
}

/// The device name of the interface called `name`; empty where there is none.
pub open spec fn device_of(c: ConfigurationView, name: Seq<char>) -> Seq<char> {
    match find_interface(c.interfaces, name) {
        Some(i) => i.systemname,
        None => Seq::empty(),
    }
}

/// The line that sends the traffic of one direction through the interfaces
/// of `chain` to the chain called `name`.
pub open spec fn jump_line(
    c: ConfigurationView,
    dir: Direction,
    name: Seq<char>,
    chain: ChainView,
) -> Seq<char> {
    match dir {
        Direction::Input => "    iifname "@ + device_of(c, chain.iface_in) + " jump "@ + name,
        Direction::Output => "    oifname "@ + device_of(c, chain.iface_out) + " jump "@ + name,
        Direction::Forward => "    iifname "@ + device_of(c, chain.iface_in) + " oifname "@
            + device_of(c, chain.iface_out) + " jump "@ + name,
    }
}

/// The jump of one filter table in one direction: none unless the table has
/// a chain of this direction whose interfaces are defined.
pub open spec fn jump_lines(c: ConfigurationView, dir: Direction, table: FilterTableView) -> Seq<
    Seq<char>,
> {
    match dispatched(c, dir, table) {
        Some(chain) => if missing_jump_interface(c, dir, chain) is None {
            seq![jump_line(c, dir, table.chain, chain)]
        } else {
            Seq::empty()
        },
        None => Seq::empty(),
    }
}

/// The jumps of a list of filter tables in one direction, in order.
pub open spec fn jumps(c: ConfigurationView, dir: Direction, tables: Seq<FilterTableView>) -> Seq<
    Seq<char>,
>
    decreases tables.len(),
{
    if tables.len() == 0 {
        Seq::empty()
    } else {
        jumps(c, dir, tables.drop_last()) + jump_lines(c, dir, tables.last())
    }
}

/// The chain that is attached to the hook of one direction and sends the
/// traffic on to the filter chains of that direction.
pub open spec fn dispatch_chain(c: ConfigurationView, dir: Direction) -> Seq<Seq<char>> {
    seq![
        "  chain all_"@ + direction_word(dir) + " {"@,
        "    type filter hook "@ + direction_word(dir) + " priority filter;"@,
    ] + jumps(c, dir, c.filters) + seq!["  }"@]
}

/// The three dispatch chains: input, forward, output.
pub open spec fn dispatch_lines(c: ConfigurationView) -> Seq<Seq<char>> {
    dispatch_chain(c, Direction::Input) + dispatch_chain(c, Direction::Forward) + dispatch_chain(
        c,
        Direction::Output,
    )
}

/// One of the ten combinations of TCP flags that no sound packet carries.
pub open spec fn flag_check(i: int) -> Seq<char> {
    if i == 0 {
        "    tcp flags & (fin|psh|urg) == fin|psh|urg "@
    } else if i == 1 {
        "    tcp flags & (syn|urg|ack|fin|rst) == 0 "@
    } else if i == 2 {
        "    tcp flags & (fin|rst) == fin|rst "@
    } else if i == 3 {
        "    tcp flags & (syn|rst) == syn|rst "@
    } else if i == 4 {
        "    tcp flags & (syn|fin) == syn|fin "@
    } else if i == 5 {
        "    tcp flags & (rst|urg) == rst|urg "@
    } else if i == 6 {
        "    tcp flags & (syn|urg|ack|fin|rst) == fin "@
    } else if i == 7 {
        "    tcp flags & (syn|urg|ack|fin|rst) == urg "@
    } else if i == 8 {
        "    tcp flags & (syn|urg|ack|fin|rst) == fin|urg "@
    } else {
        "    tcp flags & (syn|urg|ack|fin|rst) == syn|urg|ack "@
    }
}

/// The lines that drop the first `n` of those combinations.
pub open spec fn flag_lines(logging: Seq<char>, n: nat) -> Seq<Seq<char>>
    decreases n,
{
    if n == 0 {
        Seq::empty()
    } else {
        flag_lines(logging, (n - 1) as nat).push(
            flag_check(n - 1) + netdev_log_clause(logging) + "drop"@,
        )
    }
}

/// The lines on TCP flags of an ingress chain.
pub open spec fn flag_part(logging: Seq<char>, d: Defaults) -> Seq<Seq<char>> {
    if d.invalid_tcp_flags {
        seq!["    # Invalid TCP flags"@] + flag_lines(logging, 10)
    } else {
        Seq::empty()
    }
}

/// The lines on the segment size of an ingress chain.
pub open spec fn mss_part(logging: Seq<char>, d: Defaults) -> Seq<Seq<char>> {
    if d.tcp_mss {
        seq![
            "    # Invalid mss"@,
            "    tcp flags syn tcp option maxseg size 1-525 "@ + netdev_log_clause(logging)
                + "drop"@,
        ]
    } else {
        Seq::empty()
    }
}

/// The ingress chain of one interface.
pub open spec fn ingress_chain(logging: Seq<char>, d: Defaults, iface: InterfaceView) -> Seq<
    Seq<char>,
> {
    seq![
        "  chain ingress {"@,
        "    type filter hook ingress device "@ + iface.systemname + " priority -500;"@,
    ] + flag_part(logging, d) + mss_part(logging, d) + seq!["  }"@]
}

/// The ingress chains of a list of interfaces, in order.
pub open spec fn ingress_chains(logging: Seq<char>, d: Defaults, interfaces: Seq<InterfaceView>) -> Seq<
    Seq<char>,
>
    decreases interfaces.len(),
{
    if interfaces.len() == 0 {
        Seq::empty()
    } else {
        ingress_chains(logging, d, interfaces.drop_last()) + ingress_chain(
            logging,
            d,
            interfaces.last(),
        )
    }
}

/// Whether a line of the netdev table counts its drops: the mode is
/// counter mode, there is an interface, and a protection at ingress is in
/// force.
pub open spec fn netdev_counts(c: ConfigurationView, d: Defaults) -> bool {
    c.logging == counter_mode() && c.interfaces.len() > 0 && (d.invalid_tcp_flags || d.tcp_mss)
}

/// The counter of the netdev table, declared where a line refers to it.
pub open spec fn netdev_counter(c: ConfigurationView, d: Defaults) -> Seq<Seq<char>> {
    if netdev_counts(c, d) {
        seq!["  # Counter"@, "  counter counter_netdev_invalid_tcp {"@, "  }"@]
    } else {
        Seq::empty()
    }
}

/// The body of the netdev table.
pub open spec fn netdev_lines(c: ConfigurationView, d: Defaults) -> Seq<Seq<char>> {
    netdev_counter(c, d) + ingress_chains(c.logging, d, c.interfaces)
}

/// The first lines of a script for the filter engine at path `nft`.
pub open spec fn header_lines(nft: Seq<char>) -> Seq<Seq<char>> {
    seq![
        "#!"@ + nft + " -f"@,
        ""@,
        "#"@,
        "# Script generated by Nftables Builder"@,
        "#"@,
        ""@,
        "# clear existing ruleset"@,
        "flush ruleset"@,
        ""@,
    ]
}

/// The lines that open the filter table.
pub open spec fn filter_opening() -> Seq<Seq<char>> {
    seq!["# Filtering rules"@, "table inet filter_inet {"@]
}

/// The line behind which the counters of the filter table are declared.
pub open spec fn placeholder() -> Seq<char> {
    "  # Counters"@
}

/// The placeholder with the declarations of the counters behind it, written
/// in counter mode.
pub open spec fn counters_block(logging: Seq<char>, counters: Seq<Seq<char>>) -> Seq<Seq<char>> {
    if logging == counter_mode() {
        addcounters_spec(seq![placeholder()], counters)
    } else {
        Seq::empty()
    }
}

/// The sets and the chains of the filter table as the filter tables give
/// them.
pub open spec fn filter_body(c: ConfigurationView, d: Defaults) -> Seq<Seq<char>> {
    set_declarations(c, d) + filter_tables_lines(c, d, c.filters)
}

/// The counters that the filter chains refer to, each once, in the order in
/// which they are first referred to.
pub open spec fn counters_of(c: ConfigurationView, d: Defaults) -> Seq<Seq<char>> {
    filter_tables_counters(Seq::empty(), c, d, c.filters)
}

/// The sections once the source translation tables are written: the body of
/// the filter table with the lines that accept translated traffic, and the
/// body of the source translation table.
pub open spec fn snat_sections(c: ConfigurationView, d: Defaults) -> SectionsView {
    nat_tables_spec(
        SectionsView { filter: filter_body(c, d), table: Seq::empty() },
        c,
        d,
        NatKind::Source,
        c.snat,
    )
}

/// The sections once the destination translation tables are written too:
/// the body of the filter table as it stands in the script, and the body of
/// the destination translation table.
pub open spec fn dnat_sections(c: ConfigurationView, d: Defaults) -> SectionsView {
    nat_tables_spec(
        SectionsView { filter: snat_sections(c, d).filter, table: Seq::empty() },
        c,
        d,
        NatKind::Destination,
        c.dnat,
    )
}

/// The lines between the filter table and the source translation table.
pub open spec fn snat_opening() -> Seq<Seq<char>> {
    seq!["}"@, ""@, "# SNat rules"@, "table inet snat_inet {"@]
}

/// The lines between the two translation tables.
pub open spec fn dnat_opening() -> Seq<Seq<char>> {
    seq!["}"@, ""@, "# DNat rules"@, "table inet dnat_inet {"@]
}

/// The lines between the translation tables and the netdev table.
pub open spec fn netdev_opening() -> Seq<Seq<char>> {
    seq!["}"@, ""@, "# Netdev rules"@, "table netdev filter_netdev {"@]
}

/// The script up to the end of the filter chains.
pub open spec fn filter_part(c: ConfigurationView, d: Defaults, nft: Seq<char>) -> Seq<Seq<char>> {
    header_lines(nft) + lines_spec(c.pre) + filter_opening() + counters_block(
        c.logging,
        counters_of(c, d),
    ) + dnat_sections(c, d).filter
}

/// The whole script of a policy document whose references all lead
/// somewhere: the header, the preamble as it is, the filter table with its
/// counters, sets, chains and dispatch chains, the two translation tables,
/// the netdev table, and the postamble as it is.
pub open spec fn script_spec(c: ConfigurationView, d: Defaults, nft: Seq<char>) -> Seq<Seq<char>> {
    filter_part(c, d, nft) + dispatch_lines(c) + snat_opening() + snat_sections(c, d).table
        + dnat_opening() + dnat_sections(c, d).table + netdev_opening() + netdev_lines(c, d)
        + seq!["}"@] + lines_spec(c.post)
}

/// The interface that the jump of one filter table in one direction needs
/// and that is not defined.
pub open spec fn missing_table_interface(
    c: ConfigurationView,
    dir: Direction,
    table: FilterTableView,
) -> Option<Missing> {
    match dispatched(c, dir, table) {
        Some(chain) => missing_jump_interface(c, dir, chain),
        None => None,
    }
}

/// The first interface that the jumps of a list of filter tables in one
/// direction need and that is not defined.
pub open spec fn first_missing_interface(
    c: ConfigurationView,
    dir: Direction,
    tables: Seq<FilterTableView>,
) -> Option<Missing>
    decreases tables.len(),
{
    if tables.len() == 0 {
        None
    } else {
        match first_missing_interface(c, dir, tables.drop_last()) {
            Some(e) => Some(e),
            None => missing_table_interface(c, dir, tables.last()),
        }
    }
}

/// The first reference of a policy document that leads nowhere: the first
/// finding on its tables, or else the first interface that a jump needs and
/// that is not defined, for input, then forward, then output.
pub open spec fn first_error(c: ConfigurationView) -> Option<Missing> {
    or_else(
        first_missing_reference(c, table_refs(c)),
        or_else(
            first_missing_interface(c, Direction::Input, c.filters),
            or_else(
                first_missing_interface(c, Direction::Forward, c.filters),
                first_missing_interface(c, Direction::Output, c.filters),
            ),
        ),
    )
}

/// What compiling a policy document gives: the first reference that leads
/// nowhere, or else the whole script.
pub open spec fn compile_spec(c: ConfigurationView, nft: Seq<char>) -> Result<
    Seq<Seq<char>>,
    Missing,
> {
    match first_error(c) {
        Some(e) => Err(e),
        None => Ok(script_spec(c, defaults_of(c), nft)),
    }
}

/// The word of a direction.
pub fn direction_text(dir: Direction) -> (r: &'static str)
    ensures
        r@ == direction_word(dir),
{
    match dir {
        Direction::Input => "input",
        Direction::Forward => "forward",
        Direction::Output => "output",
    }
}

/// The chain that a filter table sends traffic of one direction to.
pub fn dispatched_chain<'a>(
    config_items: &'a ConfigurationItems,
    dir: Direction,
    table: &FilterTableData,
) -> (r: Option<&'a ChainData>)
    ensures
        (match r {
            Some(chain) => dispatched(config_items@, dir, table@) == Some(chain@),
            None => dispatched(config_items@, dir, table@) is None,
        }),
{
    if table.deleted {
        return None;
    }
    match config_items.chain(table.chain.as_str()) {
        Some(chain) => {
            if str_eq(chain.direction.as_str(), direction_text(dir)) {
                Some(chain)
            } else {
                None
            }
        },
        None => None,
    }
}

/// The device name of the interface called `name`, or the error that names
/// it.
pub fn device(config_items: &ConfigurationItems, name: &String) -> (r: Result<String, CompileError>)
    ensures
        (match r {
            Ok(systemname) => find_interface(config_items@.interfaces, name@) is Some
                && systemname@ == device_of(config_items@, name@),
            Err(e) => find_interface(config_items@.interfaces, name@) is None && e@
                == Missing::Interface(name@),
        }),
{
    crate::resolve::get_interface(config_items, name)
}

/// The line that sends the traffic of one direction on to the chain called
/// `name`, or the interface that it needs and that is not defined.
pub fn jump(config_items: &ConfigurationItems, dir: Direction, name: &String, chain: &ChainData) -> (r:
    Result<String, CompileError>)
    ensures
        (match r {
            Ok(line) => missing_jump_interface(config_items@, dir, chain@) is None && line@
                == jump_line(config_items@, dir, name@, chain@),
            Err(e) => missing_jump_interface(config_items@, dir, chain@) == Some(e@),
        }),
{
    match dir {
        Direction::Input => {
            match device(config_items, &chain.iface_in) {
                Ok(inbound) => {
                    let mut line = concat3("    iifname ", inbound.as_str(), " jump ");
                    line.append(name.as_str());
                    Ok(line)
                },
                Err(e) => Err(e),
            }
        },
        Direction::Output => {
            match device(config_items, &chain.iface_out) {
                Ok(outbound) => {
                    let mut line = concat3("    oifname ", outbound.as_str(), " jump ");
                    line.append(name.as_str());
                    Ok(line)
                },
                Err(e) => Err(e),
            }
        },
        Direction::Forward => {
            match device(config_items, &chain.iface_in) {
                Ok(inbound) => {
                    match device(config_items, &chain.iface_out) {
                        Ok(outbound) => {
                            let mut line = concat3("    iifname ", inbound.as_str(), " oifname ");
                            line.append(outbound.as_str());
                            line.append(" jump ");
                            line.append(name.as_str());
                            Ok(line)
                        },
                        Err(e) => Err(e),
                    }
                },
                Err(e) => Err(e),
            }
        },
    }
}

/// The chain that is attached to the hook of one direction, or the first
/// interface that its jumps need and that is not defined.
pub fn dispatch(config_items: &ConfigurationItems, dir: Direction) -> (r: Result<
    Vec<String>,
    CompileError,
>)
    ensures
        (match r {
            Ok(lines) => first_missing_interface(config_items@, dir, config_items@.filters)
                is None && views(lines@) == dispatch_chain(config_items@, dir),
            Err(e) => first_missing_interface(config_items@, dir, config_items@.filters) == Some(
                e@,
            ),
        }),
{
    let ghost c = config_items@;
    let ghost all = c.filters;
    let word = direction_text(dir);
    let mut lines: Vec<String> = Vec::new();
    lines.push(concat3("  chain all_", word, " {"));
    lines.push(concat3("    type filter hook ", word, " priority filter;"));
    let ghost head = views(lines@);
    assert(head =~= seq![
        "  chain all_"@ + direction_word(dir) + " {"@,
        "    type filter hook "@ + direction_word(dir) + " priority filter;"@,
    ]);
    let mut i: usize = 0;
    assert(all.take(0) =~= Seq::<FilterTableView>::empty());
    assert(head + Seq::<Seq<char>>::empty() =~= head);
    while i < config_items.filters.len()
        invariant
            i <= config_items.filters.len(),
            c == config_items@,
            all == c.filters,
            all.len() == config_items.filters.len(),
            first_missing_interface(c, dir, all.take(i as int)) is None,
            views(lines@) == head + jumps(c, dir, all.take(i as int)),
        decreases config_items.filters.len() - i,
    {
        assert(all.take(i as int + 1).drop_last() =~= all.take(i as int));
        assert(all.take(i as int + 1).last() == config_items.filters@[i as int]@);
        let table = &config_items.filters[i];
        let ghost before = jumps(c, dir, all.take(i as int));
        match dispatched_chain(config_items, dir, table) {
            Some(chain) => {
                match jump(config_items, dir, &table.chain, chain) {
                    Ok(line) => {
                        push_line(&mut lines, line);
                        assert(views(lines@) =~= head + (before + seq![line@]));
                    },
                    Err(e) => {
                        proof {
                            lemma_first_missing_interface_prefix(c, dir, all, i as int + 1);
                        }
                        return Err(e);
                    },
                }
            },
            None => {
                assert(views(lines@) =~= head + (before + Seq::<Seq<char>>::empty()));
            },
        }
        i = i + 1;
    }
    assert(all.take(i as int) =~= all);
    push_line(&mut lines, String::from_str("  }"));
    assert(views(lines@) =~= dispatch_chain(c, dir));
    Ok(lines)
}

/// A finding among the first tables of a list is the finding of the list.
pub proof fn lemma_first_missing_interface_prefix(
    c: ConfigurationView,
    dir: Direction,
    tables: Seq<FilterTableView>,
    n: int,
)
    requires
        0 <= n <= tables.len(),
        first_missing_interface(c, dir, tables.take(n)) is Some,
    ensures
        first_missing_interface(c, dir, tables) == first_missing_interface(c, dir, tables.take(n)),
    decreases tables.len() - n,
{
    if n == tables.len() {
        assert(tables.take(n) =~= tables);
    } else {
        assert(tables.take(n + 1).drop_last() =~= tables.take(n));
        lemma_first_missing_interface_prefix(c, dir, tables, n + 1);
    }
}

/// One of the ten combinations of TCP flags that no sound packet carries.
pub fn flag_check_text(i: usize) -> (r: &'static str)
    ensures
        r@ == flag_check(i as int),
{
    if i == 0 {
        "    tcp flags & (fin|psh|urg) == fin|psh|urg "
    } else if i == 1 {
        "    tcp flags & (syn|urg|ack|fin|rst) == 0 "
    } else if i == 2 {
        "    tcp flags & (fin|rst) == fin|rst "
    } else if i == 3 {
        "    tcp flags & (syn|rst) == syn|rst "
    } else if i == 4 {
        "    tcp flags & (syn|fin) == syn|fin "
    } else if i == 5 {
        "    tcp flags & (rst|urg) == rst|urg "
    } else if i == 6 {
        "    tcp flags & (syn|urg|ack|fin|rst) == fin "
    } else if i == 7 {
        "    tcp flags & (syn|urg|ack|fin|rst) == urg "
    } else if i == 8 {
        "    tcp flags & (syn|urg|ack|fin|rst) == fin|urg "
    } else {
        "    tcp flags & (syn|urg|ack|fin|rst) == syn|urg|ack "
    }
}

/// The lines on TCP flags of an ingress chain.
pub fn flag_part_lines(logging: &String, d: Defaults) -> (lines: Vec<String>)
    ensures
        views(lines@) == flag_part(logging@, d),
{
    let mut lines: Vec<String> = Vec::new();
    if !d.invalid_tcp_flags {
        assert(views(lines@) =~= Seq::<Seq<char>>::empty());
        return lines;
    }
    lines.push(String::from_str("    # Invalid TCP flags"));
    let ghost head = views(lines@);
    assert(head =~= seq!["    # Invalid TCP flags"@]);
    assert(head + flag_lines(logging@, 0) =~= head);
    let mut i: usize = 0;
    while i < 10
        invariant
            i <= 10,
            views(lines@) == head + flag_lines(logging@, i as nat),
        decreases 10 - i,
    {
        let ghost before = flag_lines(logging@, i as nat);
        let mut line = String::from_str(flag_check_text(i));
        line.append(netdev_logcommand(logging).as_str());
        line.append("drop");
        push_line(&mut lines, line);
        assert(views(lines@) =~= head + before.push(line@));
        i = i + 1;
    }
    lines
}

/// The lines on the segment size of an ingress chain.
pub fn mss_part_lines(logging: &String, d: Defaults) -> (lines: Vec<String>)
    ensures
        views(lines@) == mss_part(logging@, d),
{
    let mut lines: Vec<String> = Vec::new();
    if d.tcp_mss {
        lines.push(String::from_str("    # Invalid mss"));
        let mut line = String::from_str("    tcp flags syn tcp option maxseg size 1-525 ");
        line.append(netdev_logcommand(logging).as_str());
        line.append("drop");
        lines.push(line);
    }
    assert(views(lines@) =~= mss_part(logging@, d));
    lines
}

/// The ingress chain of one interface.
pub fn ingress(logging: &String, d: Defaults, iface: &InterfaceData) -> (lines: Vec<String>)
    ensures
        views(lines@) == ingress_chain(logging@, d, iface@),
{
    let mut lines: Vec<String> = Vec::new();
    lines.push(String::from_str("  chain ingress {"));
    lines.push(
        concat3("    type filter hook ingress device ", iface.systemname.as_str(), " priority -500;"),
    );
    let ghost head = views(lines@);
    assert(head =~= seq![
        "  chain ingress {"@,
        "    type filter hook ingress device "@ + iface@.systemname + " priority -500;"@,
    ]);
    push_lines(&mut lines, &flag_part_lines(logging, d));
    push_lines(&mut lines, &mss_part_lines(logging, d));
    push_line(&mut lines, String::from_str("  }"));
    assert(views(lines@) =~= ingress_chain(logging@, d, iface@));
    lines
}

/// The body of the netdev table.
pub fn netdev(config_items: &ConfigurationItems, d: Defaults) -> (lines: Vec<String>)
    ensures
        views(lines@) == netdev_lines(config_items@, d),
{
    let ghost c = config_items@;
    let ghost all = c.interfaces;
    let logging = &config_items.logging;
    let mut lines: Vec<String> = Vec::new();
    if str_eq(logging.as_str(), "counter") && config_items.interfaces.len() > 0 && (
    d.invalid_tcp_flags || d.tcp_mss) {
        lines.push(String::from_str("  # Counter"));
        lines.push(String::from_str("  counter counter_netdev_invalid_tcp {"));
        lines.push(String::from_str("  }"));
    }
    let ghost head = views(lines@);
    assert(head =~= netdev_counter(c, d));
    let mut i: usize = 0;
    assert(all.take(0) =~= Seq::<InterfaceView>::empty());
    assert(head + Seq::<Seq<char>>::empty() =~= head);
    while i < config_items.interfaces.len()
        invariant
            i <= config_items.interfaces.len(),
            c == config_items@,
            all == c.interfaces,
            all.len() == config_items.interfaces.len(),
            logging@ == c.logging,
            views(lines@) == head + ingress_chains(c.logging, d, all.take(i as int)),
        decreases config_items.interfaces.len() - i,
    {
        assert(all.take(i as int + 1).drop_last() =~= all.take(i as int));
        assert(all.take(i as int + 1).last() == config_items.interfaces@[i as int]@);
        let ghost before = ingress_chains(c.logging, d, all.take(i as int));
        let part = ingress(logging, d, &config_items.interfaces[i]);
        push_lines(&mut lines, &part);
        assert(views(lines@) =~= head + (before + views(part@)));
        i = i + 1;
    }
    assert(all.take(i as int) =~= all);
    lines
}

/// The first lines of a script for the filter engine at path `nft`.
pub fn header(nft: &str) -> (lines: Vec<String>)
    ensures
        views(lines@) == header_lines(nft@),
{
    let mut lines: Vec<String> = Vec::new();
    lines.push(concat3("#!", nft, " -f"));
    lines.push(String::from_str(""));
    lines.push(String::from_str("#"));
    lines.push(String::from_str("# Script generated by Nftables Builder"));
    lines.push(String::from_str("#"));
    lines.push(String::from_str(""));
    lines.push(String::from_str("# clear existing ruleset"));
    lines.push(String::from_str("flush ruleset"));
    lines.push(String::from_str(""));
    assert(views(lines@) =~= header_lines(nft@));
    lines
}

/// A list of lines, each as it is given.
pub fn literal_lines(a: &str, b: &str, c: &str, d: &str) -> (lines: Vec<String>)
    ensures
        views(lines@) == seq![a@, b@, c@, d@],
{
    let mut lines: Vec<String> = Vec::new();
    lines.push(String::from_str(a));
    lines.push(String::from_str(b));
    lines.push(String::from_str(c));
    lines.push(String::from_str(d));
    assert(views(lines@) =~= seq![a@, b@, c@, d@]);
    lines
}

/// The placeholder with the declarations of `counters` behind it, written
/// in counter mode.
pub fn counters_lines(logging: &String, counters: Vec<String>) -> (lines: Vec<String>)
    ensures
        views(lines@) == counters_block(logging@, views(counters@)),
{
    let mut lines: Vec<String> = Vec::new();
    if str_eq(logging.as_str(), "counter") {
        lines.push(String::from_str("  # Counters"));
        assert(views(lines@) =~= seq![placeholder()]);
        addcounters(lines, counters)
    } else {
        assert(views(lines@) =~= Seq::<Seq<char>>::empty());
        lines
    }
}

/// The whole script of a policy document whose tables refer to nothing
/// that is not defined, or the first interface that a jump needs and that
/// is not defined.
fn build_script(config_items: &ConfigurationItems, nft: &str) -> (r: Result<
    Vec<String>,
    CompileError,
>)
    requires
        first_missing_reference(config_items@, table_refs(config_items@)) is None,
    ensures
        r matches Ok(script) ==> first_error(config_items@) is None && views(script@)
            == script_spec(config_items@, defaults_of(config_items@), nft@),
        r matches Err(e) ==> first_error(config_items@) == Some(e@),
{
    let ghost c = config_items@;
    let d = active_defaults(config_items);
    // the interfaces that the jumps need
    let input = match dispatch(config_items, Direction::Input) {
        Ok(lines) => lines,
        Err(e) => {
            return Err(e);
        },
    };
    let forward = match dispatch(config_items, Direction::Forward) {
        Ok(lines) => lines,
        Err(e) => {
            return Err(e);
        },
    };
    let output = match dispatch(config_items, Direction::Output) {
        Ok(lines) => lines,
        Err(e) => {
            return Err(e);
        },
    };
    // the sets and chains of the filter table, and the counters they refer to
    let mut body: Vec<String> = Vec::new();
    let mut counters: Vec<String> = Vec::new();
    assert(views(body@) =~= Seq::<Seq<char>>::empty());
    assert(views(counters@) =~= Seq::<Seq<char>>::empty());
    declare_sets(&mut body, config_items, d);
    filter_tables(&mut body, &mut counters, config_items, d);
    assert(views(body@) =~= filter_body(c, d));
    // the translation tables, which add to the filter chains
    let none: Vec<String> = Vec::new();
    assert(views(none@) =~= Seq::<Seq<char>>::empty());
    let snat = emit_nat_tables(
        Sections { filter: body, table: none },
        config_items,
        d,
        NatKind::Source,
    );
    let Sections { filter, table } = snat;
    let snat_table = table;
    let none: Vec<String> = Vec::new();
    assert(views(none@) =~= Seq::<Seq<char>>::empty());
    let dnat = emit_nat_tables(
        Sections { filter, table: none },
        config_items,
        d,
        NatKind::Destination,
    );
    // all of it in order
    let mut script = header(nft);
    push_lines(&mut script, &split_lines(config_items.pre.as_str()));
    push_line(&mut script, String::from_str("# Filtering rules"));
    push_line(&mut script, String::from_str("table inet filter_inet {"));
    assert(views(script@) =~= header_lines(nft@) + lines_spec(c.pre) + filter_opening());
    push_lines(&mut script, &counters_lines(&config_items.logging, counters));
    push_lines(&mut script, &dnat.filter);
    assert(views(script@) == filter_part(c, d, nft@));
    push_lines(&mut script, &input);
    push_lines(&mut script, &forward);
    push_lines(&mut script, &output);
    assert(views(script@) =~= filter_part(c, d, nft@) + dispatch_lines(c));
    push_lines(&mut script, &literal_lines("}", "", "# SNat rules", "table inet snat_inet {"));
    push_lines(&mut script, &snat_table);
    push_lines(&mut script, &literal_lines("}", "", "# DNat rules", "table inet dnat_inet {"));
    push_lines(&mut script, &dnat.table);
    push_lines(
        &mut script,
        &literal_lines("}", "", "# Netdev rules", "table netdev filter_netdev {"),
    );
    push_lines(&mut script, &netdev(config_items, d));
    push_line(&mut script, String::from_str("}"));
    push_lines(&mut script, &split_lines(config_items.post.as_str()));
    Ok(script)
}

/// Compiles a policy document into the lines of a ruleset script for the
/// filter engine at path `nft`. A reference to a chain or an interface that
/// is not defined gives an error that names it, and no script.
pub fn generate_script(config_items: &ConfigurationItems, nft: &str) -> (r: Result<
    Vec<String>,
    CompileError,
>)
    ensures
        (match r {
            Ok(script) => compile_spec(config_items@, nft@) == Ok::<Seq<Seq<char>>, Missing>(
                views(script@),
            ),
            Err(e) => compile_spec(config_items@, nft@) == Err::<Seq<Seq<char>>, Missing>(e@),
        }),
{
    match check_tables(config_items) {
        Ok(_) => build_script(config_items, nft),
        Err(e) => Err(e),
    }
}

} // verus!
