//! What holds of the rule compiler on every policy document.

use vstd::prelude::*;
use crate::compile::{
    compile_spec, counters_block, counters_of, dispatched, first_error, first_missing_interface,
    jump_lines, missing_jump_interface, missing_table_interface, placeholder,
};
use crate::filter::{
    antispoof_due, antispoof_table_sets, chain_head_labels, chain_head_lines, chain_open_line,
    conntrack_labels, conntrack_lines, filter_family_labels, filter_family_lines,
    filter_rule_labels, filter_rule_lines, filter_table_labels, filter_table_lines,
    filter_tables_counters,
    message_limit_lines, resolve_filter_rule,
};
use crate::model::{
    find_chain, find_interface, unset_spec, ChainView, ConfigurationItems, ConfigurationView,
    Direction, Family, FilterRuleView, FilterTableView, NatKind, NatRuleView, NatTableView,
    Transport,
};
use crate::reference::{first_missing_reference, missing_reference, table_refs, TableRef};
use crate::resolve::{
    addresses_from_def, addresses_of, chain_on_loopback_spec, control_names, control_types,
    is_transport_service, message_type, message_types_from_services, service_port, type_prefix,
    CompileError, Missing,
};
use crate::translate::{nat_rule_spec, nat_table_spec, SectionsView};
use crate::rule::{port_set, transport_valid};
use crate::script::{
    addcounters_spec, counter_declarations, counter_mode, counters_marker, insert_after, log_id,
    note_all, Defaults,
};
use crate::text::{
    extend_unique_spec, occurs_at, push_unique_spec, trim_end_spec, trim_spec, trim_start_spec,
    views,
};

verus! {

/// What a run of the compiler gave, as lists of characters.
pub open spec fn result_view(r: Result<Vec<String>, CompileError>) -> Result<
    Seq<Seq<char>>,
    Missing,
> {
    match r {
        Ok(script) => Ok(views(script@)),
        Err(e) => Err(e@),
    }
}

/// Two policy documents that hold the same give the same result, line for
/// line and character for character: the script, or the error.
pub proof fn law_compile_is_deterministic(
    a: ConfigurationItems,
    b: ConfigurationItems,
    nft: Seq<char>,
    first: Result<Vec<String>, CompileError>,
    second: Result<Vec<String>, CompileError>,
)
    requires
        a@ == b@,
        result_view(first) == compile_spec(a@, nft),
        result_view(second) == compile_spec(b@, nft),
    ensures
        result_view(first) == result_view(second),
{
}

/// Whether a jump in direction `dir` to `chain` goes through the interface
/// called `name`.
pub open spec fn jump_uses(dir: Direction, chain: ChainView, name: Seq<char>) -> bool {
    match dir {
        Direction::Input => chain.iface_in == name,
        Direction::Output => chain.iface_out == name,
        Direction::Forward => chain.iface_in == name || chain.iface_out == name,
    }
}

/// Whether the jump of a filter table goes through the interface `name`.
pub open spec fn jump_names(c: ConfigurationView, name: Seq<char>) -> bool {
    exists|i: int, dir: Direction|
        0 <= i < c.filters.len() && (#[trigger] dispatched(c, dir, c.filters[i])) is Some
            && jump_uses(dir, dispatched(c, dir, c.filters[i])->0, name)
}

/// Whether what `e` names is not defined.
pub open spec fn undefined(c: ConfigurationView, e: Missing) -> bool {
    match e {
        Missing::Chain(name) => find_chain(c.chains, name) is None,
        Missing::Interface(name) => find_interface(c.interfaces, name) is None,
    }
}

/// Whether a table refers to what `e` names: the table is not deleted, and
/// it names that chain, or its chain is defined and names that interface
/// on its inbound or on its outbound side.
pub open spec fn table_refers(c: ConfigurationView, t: TableRef, e: Missing) -> bool {
    !t.deleted && (match e {
        Missing::Chain(name) => t.chain == name,
        Missing::Interface(name) => name != unset_spec() && find_chain(c.chains, t.chain)
            is Some && (find_chain(c.chains, t.chain)->0.iface_in == name || find_chain(
            c.chains,
            t.chain,
        )->0.iface_out == name),
    })
}

/// Whether a filter table or a translation table refers to what `e` names.
pub open spec fn some_table_refers(c: ConfigurationView, e: Missing) -> bool {
    exists|i: int| 0 <= i < table_refs(c).len() && table_refers(c, #[trigger] table_refs(c)[i], e)
}

/// Whether a reference of the policy document leads nowhere: what `e` names
/// is not defined, and a table refers to it, or it is an interface that a
/// jump goes through.
pub open spec fn dangling(c: ConfigurationView, e: Missing) -> bool {
    undefined(c, e) && (some_table_refers(c, e) || (e is Interface && jump_names(
        c,
        e->Interface_0,
    )))
}

/// A finding on a table names what the table refers to and what is not
/// defined.
pub proof fn lemma_missing_reference_sound(c: ConfigurationView, t: TableRef)
    requires
        missing_reference(c, t) is Some,
    ensures
        undefined(c, missing_reference(c, t)->0),
        table_refers(c, t, missing_reference(c, t)->0),
{
}

/// A table that refers to what is not defined gives a finding.
pub proof fn lemma_missing_reference_complete(c: ConfigurationView, t: TableRef, e: Missing)
    requires
        table_refers(c, t, e),
        undefined(c, e),
    ensures
        missing_reference(c, t) is Some,
{
}

/// A finding on a list of tables names what one of them refers to and what
/// is not defined.
pub proof fn lemma_first_missing_reference_sound(c: ConfigurationView, refs: Seq<TableRef>)
    requires
        first_missing_reference(c, refs) is Some,
    ensures
        undefined(c, first_missing_reference(c, refs)->0),
        exists|i: int|
            0 <= i < refs.len() && table_refers(
                c,
                #[trigger] refs[i],
                first_missing_reference(c, refs)->0,
            ),
    decreases refs.len(),
{
    let e = first_missing_reference(c, refs)->0;
    if first_missing_reference(c, refs.drop_last()) is Some {
        lemma_first_missing_reference_sound(c, refs.drop_last());
        let i = choose|i: int|
            0 <= i < refs.drop_last().len() && table_refers(c, #[trigger] refs.drop_last()[i], e);
        assert(refs[i] == refs.drop_last()[i]);
        assert(table_refers(c, refs[i], e));
    } else {
        lemma_missing_reference_sound(c, refs.last());
        assert(table_refers(c, refs[refs.len() - 1], e));
    }
}

/// A list with a table that refers to what is not defined gives a finding.
pub proof fn lemma_first_missing_reference_complete(
    c: ConfigurationView,
    refs: Seq<TableRef>,
    i: int,
    e: Missing,
)
    requires
        0 <= i < refs.len(),
        table_refers(c, refs[i], e),
        undefined(c, e),
    ensures
        first_missing_reference(c, refs) is Some,
    decreases refs.len(),
{
    if i < refs.len() - 1 {
        assert(refs.drop_last()[i] == refs[i]);
        lemma_first_missing_reference_complete(c, refs.drop_last(), i, e);
    } else {
        lemma_missing_reference_complete(c, refs.last(), e);
    }
}

/// A finding among jumps names an interface that one of them goes through.
pub proof fn lemma_missing_interface_sound(
    c: ConfigurationView,
    dir: Direction,
    tables: Seq<FilterTableView>,
)
    requires
        first_missing_interface(c, dir, tables) is Some,
    ensures
        exists|i: int|
            0 <= i < tables.len() && (#[trigger] dispatched(c, dir, tables[i])) is Some
                && first_missing_interface(c, dir, tables) == missing_jump_interface(
                c,
                dir,
                dispatched(c, dir, tables[i])->0,
            ),
    decreases tables.len(),
{
    if first_missing_interface(c, dir, tables.drop_last()) is Some {
        lemma_missing_interface_sound(c, dir, tables.drop_last());
        let i = choose|i: int|
            0 <= i < tables.drop_last().len() && (#[trigger] dispatched(
                c,
                dir,
                tables.drop_last()[i],
            )) is Some && first_missing_interface(c, dir, tables.drop_last())
                == missing_jump_interface(c, dir, dispatched(c, dir, tables.drop_last()[i])->0);
        assert(tables[i] == tables.drop_last()[i]);
        assert(dispatched(c, dir, tables[i]) is Some);
    } else {
        let i = tables.len() - 1;
        assert(missing_table_interface(c, dir, tables[i]) is Some);
        assert(dispatched(c, dir, tables[i]) is Some);
    }
}

/// A jump through an interface that is not defined is found.
pub proof fn lemma_missing_interface_complete(
    c: ConfigurationView,
    dir: Direction,
    tables: Seq<FilterTableView>,
    i: int,
)
    requires
        0 <= i < tables.len(),
        dispatched(c, dir, tables[i]) is Some,
        missing_jump_interface(c, dir, dispatched(c, dir, tables[i])->0) is Some,
    ensures
        first_missing_interface(c, dir, tables) is Some,
    decreases tables.len(),
{
    if i < tables.len() - 1 {
        assert(tables.drop_last()[i] == tables[i]);
        lemma_missing_interface_complete(c, dir, tables.drop_last(), i);
    }
}

/// The interface that a jump is found to miss is not defined, and the jump
/// goes through it.
pub proof fn lemma_missing_jump_interface(
    c: ConfigurationView,
    dir: Direction,
    chain: ChainView,
)
    requires
        missing_jump_interface(c, dir, chain) is Some,
    ensures
        missing_jump_interface(c, dir, chain)->0 is Interface,
        find_interface(c.interfaces, missing_jump_interface(c, dir, chain)->0->Interface_0)
            is None,
        jump_uses(dir, chain, missing_jump_interface(c, dir, chain)->0->Interface_0),
{
}

/// A finding among the jumps of one direction leads nowhere.
pub proof fn lemma_interface_finding_dangles(c: ConfigurationView, dir: Direction)
    requires
        first_missing_interface(c, dir, c.filters) is Some,
    ensures
        dangling(c, first_missing_interface(c, dir, c.filters)->0),
{
    lemma_missing_interface_sound(c, dir, c.filters);
    let i = choose|i: int|
        0 <= i < c.filters.len() && (#[trigger] dispatched(c, dir, c.filters[i])) is Some
            && first_missing_interface(c, dir, c.filters) == missing_jump_interface(
            c,
            dir,
            dispatched(c, dir, c.filters[i])->0,
        );
    lemma_missing_jump_interface(c, dir, dispatched(c, dir, c.filters[i])->0);
}

/// An error of the compiler names a reference that leads nowhere.
pub proof fn law_error_names_missing_reference(c: ConfigurationView, nft: Seq<char>)
    requires
        compile_spec(c, nft) is Err,
    ensures
        dangling(c, compile_spec(c, nft)->Err_0),
{
    if first_missing_reference(c, table_refs(c)) is Some {
        lemma_first_missing_reference_sound(c, table_refs(c));
    } else if first_missing_interface(c, Direction::Input, c.filters) is Some {
        lemma_interface_finding_dangles(c, Direction::Input);
    } else if first_missing_interface(c, Direction::Forward, c.filters) is Some {
        lemma_interface_finding_dangles(c, Direction::Forward);
    } else {
        lemma_interface_finding_dangles(c, Direction::Output);
    }
}

/// A policy document with a reference that leads nowhere gives an error and
/// no script; one without gives a script.
pub proof fn law_missing_reference_is_an_error(c: ConfigurationView, nft: Seq<char>)
    ensures
        compile_spec(c, nft) is Err <==> exists|e: Missing| dangling(c, e),
{
    if compile_spec(c, nft) is Err {
        law_error_names_missing_reference(c, nft);
    }
    if exists|e: Missing| dangling(c, e) {
        let e = choose|e: Missing| dangling(c, e);
        if some_table_refers(c, e) {
            let i = choose|i: int|
                0 <= i < table_refs(c).len() && table_refers(c, #[trigger] table_refs(c)[i], e);
            lemma_first_missing_reference_complete(c, table_refs(c), i, e);
        } else {
            let name = e->Interface_0;
            let (i, dir) = choose|i: int, dir: Direction|
                0 <= i < c.filters.len() && (#[trigger] dispatched(c, dir, c.filters[i]))
                    is Some && jump_uses(dir, dispatched(c, dir, c.filters[i])->0, name);
            lemma_missing_interface_complete(c, dir, c.filters, i);
        }
        assert(first_error(c) is Some);
    }
}

/// Where a table that is not deleted names a chain that is not defined, or
/// the chain of such a table names, on either side, an interface that is
/// not defined, the compiler gives an error, and the error names a chain or
/// an interface of that kind.
pub proof fn law_table_reference_is_followed(c: ConfigurationView, nft: Seq<char>, e: Missing)
    requires
        undefined(c, e),
        some_table_refers(c, e),
    ensures
        compile_spec(c, nft) is Err,
        undefined(c, compile_spec(c, nft)->Err_0),
        some_table_refers(c, compile_spec(c, nft)->Err_0),
{
    let i = choose|i: int|
        0 <= i < table_refs(c).len() && table_refers(c, #[trigger] table_refs(c)[i], e);
    lemma_first_missing_reference_complete(c, table_refs(c), i, e);
    lemma_first_missing_reference_sound(c, table_refs(c));
}

/// Where control messages are not protected, a rule that names no port of
/// either transport gives no line, active or not, and counts no drop.
pub proof fn law_control_message_rule_is_suppressed(
    c: ConfigurationView,
    d: Defaults,
    chain: Seq<char>,
    rule: FilterRuleView,
)
    requires
        !d.message_limit,
        !port_set(resolve_filter_rule(c, rule)),
    ensures
        filter_rule_lines(c, d, chain, rule) == Seq::<Seq<char>>::empty(),
        filter_rule_labels(c, d, rule) == Seq::<Seq<char>>::empty(),
{
    let r = resolve_filter_rule(c, rule);
    assert(!transport_valid(r, Transport::Tcp));
    assert(!transport_valid(r, Transport::Udp));
    assert(filter_family_lines(c.logging, chain, d, r, rule.action, rule.comment, Family::V4)
        =~= Seq::<Seq<char>>::empty());
    assert(filter_family_lines(c.logging, chain, d, r, rule.action, rule.comment, Family::V6)
        =~= Seq::<Seq<char>>::empty());
    assert(filter_family_labels(d, r, rule.action, Family::V4) =~= Seq::<Seq<char>>::empty());
    assert(filter_family_labels(d, r, rule.action, Family::V6) =~= Seq::<Seq<char>>::empty());
    assert(filter_rule_lines(c, d, chain, rule) =~= Seq::<Seq<char>>::empty());
    assert(filter_rule_labels(c, d, rule) =~= Seq::<Seq<char>>::empty());
}

/// A chain that is attached to a loopback interface gets no set and no
/// statement against packets whose source is their own destination, whether
/// that protection is in force or not.
pub proof fn law_loopback_chain_is_exempt(
    c: ConfigurationView,
    d: Defaults,
    table: FilterTableView,
    chain: ChainView,
)
    requires
        chain_on_loopback_spec(c, chain),
    ensures
        !antispoof_due(c, d, chain),
        chain_head_lines(c, d, table, chain) == seq![chain_open_line(table.chain)]
            + conntrack_lines(c.logging, table.chain, d) + message_limit_lines(d),
        chain_head_labels(c, d, chain) == conntrack_labels(d),
        find_chain(c.chains, table.chain) == Some(chain) ==> antispoof_table_sets(c, d, table)
            == Seq::<Seq<char>>::empty(),
{
    assert(chain_head_lines(c, d, table, chain) =~= seq![chain_open_line(table.chain)]
        + conntrack_lines(c.logging, table.chain, d) + message_limit_lines(d));
    assert(chain_head_labels(c, d, chain) =~= conntrack_labels(d));
}

/// The names of the counters that drops of the kinds `labels` in `chain`
/// refer to, in order.
pub open spec fn counter_names(logging: Seq<char>, chain: Seq<char>, labels: Seq<Seq<char>>) -> Seq<
    Seq<char>,
>
    decreases labels.len(),
{
    if labels.len() == 0 {
        Seq::empty()
    } else {
        counter_names(logging, chain, labels.drop_last()).push(
            log_id(logging, chain, labels.last()),
        )
    }
}

/// The names of the counters that the lines of a list of filter tables refer
/// to, in order, repetitions included.
pub open spec fn referenced_counters(
    c: ConfigurationView,
    d: Defaults,
    tables: Seq<FilterTableView>,
) -> Seq<Seq<char>>
    decreases tables.len(),
{
    if tables.len() == 0 {
        Seq::empty()
    } else {
        referenced_counters(c, d, tables.drop_last()) + counter_names(
            c.logging,
            tables.last().chain,
            filter_table_labels(c, d, tables.last()),
        )
    }
}

/// What a list holds once an item was added: what it held, and the item.
pub proof fn lemma_push_contains(items: Seq<Seq<char>>, item: Seq<char>, name: Seq<char>)
    ensures
        items.push(item).contains(name) <==> (items.contains(name) || item == name),
{
    if items.push(item).contains(name) {
        let k = choose|k: int| 0 <= k < items.push(item).len() && items.push(item)[k] == name;
        if k < items.len() {
            assert(items[k] == name);
        }
    }
    if items.contains(name) {
        let k = choose|k: int| 0 <= k < items.len() && items[k] == name;
        assert(items.push(item)[k] == name);
    }
    if item == name {
        assert(items.push(item)[items.len() as int] == name);
    }
}

/// What two lists hold together: what either holds.
pub proof fn lemma_concat_contains(a: Seq<Seq<char>>, b: Seq<Seq<char>>, name: Seq<char>)
    ensures
        (a + b).contains(name) <==> (a.contains(name) || b.contains(name)),
{
    if (a + b).contains(name) {
        let k = choose|k: int| 0 <= k < (a + b).len() && (a + b)[k] == name;
        if k < a.len() {
            assert(a[k] == name);
        } else {
            assert(b[k - a.len()] == name);
        }
    }
    if a.contains(name) {
        let k = choose|k: int| 0 <= k < a.len() && a[k] == name;
        assert((a + b)[k] == name);
    }
    if b.contains(name) {
        let k = choose|k: int| 0 <= k < b.len() && b[k] == name;
        assert((a + b)[k + a.len()] == name);
    }
}

/// In counter mode, noting drops keeps a list of counters free of
/// repetitions and adds exactly the names that the drops refer to.
pub proof fn lemma_note_all_counts(
    counters: Seq<Seq<char>>,
    logging: Seq<char>,
    chain: Seq<char>,
    labels: Seq<Seq<char>>,
)
    requires
        logging == counter_mode(),
        counters.no_duplicates(),
    ensures
        note_all(counters, logging, chain, labels).no_duplicates(),
        forall|name: Seq<char>|
            note_all(counters, logging, chain, labels).contains(name) <==> (counters.contains(
                name,
            ) || counter_names(logging, chain, labels).contains(name)),
    decreases labels.len(),
{
    if labels.len() > 0 {
        lemma_note_all_counts(counters, logging, chain, labels.drop_last());
        let before = note_all(counters, logging, chain, labels.drop_last());
        let added = log_id(logging, chain, labels.last());
        let names = counter_names(logging, chain, labels.drop_last());
        let after = note_all(counters, logging, chain, labels);
        assert(after == push_unique_spec(before, added));
        assert(counter_names(logging, chain, labels) == names.push(added));
        assert forall|name: Seq<char>|
            after.contains(name) <==> (counters.contains(name) || names.push(added).contains(
                name,
            )) by {
            lemma_push_contains(names, added, name);
            lemma_push_contains(before, added, name);
            assert(before.contains(name) <==> (counters.contains(name) || names.contains(name)));
        }
    }
}

/// In counter mode, the counters that are declared are free of repetitions
/// and are exactly those that the lines of the filter tables refer to.
pub proof fn lemma_counters_match_references(
    c: ConfigurationView,
    d: Defaults,
    tables: Seq<FilterTableView>,
)
    requires
        c.logging == counter_mode(),
    ensures
        filter_tables_counters(Seq::empty(), c, d, tables).no_duplicates(),
        forall|name: Seq<char>|
            filter_tables_counters(Seq::empty(), c, d, tables).contains(name)
                <==> referenced_counters(c, d, tables).contains(name),
    decreases tables.len(),
{
    let none = Seq::<Seq<char>>::empty();
    if tables.len() > 0 {
        lemma_counters_match_references(c, d, tables.drop_last());
        let before = filter_tables_counters(none, c, d, tables.drop_last());
        let labels = filter_table_labels(c, d, tables.last());
        let names = counter_names(c.logging, tables.last().chain, labels);
        let earlier = referenced_counters(c, d, tables.drop_last());
        let after = filter_tables_counters(none, c, d, tables);
        lemma_note_all_counts(before, c.logging, tables.last().chain, labels);
        assert(after == note_all(before, c.logging, tables.last().chain, labels));
        assert(referenced_counters(c, d, tables) == earlier + names);
        assert forall|name: Seq<char>|
            after.contains(name) <==> (earlier + names).contains(name) by {
            lemma_concat_contains(earlier, names, name);
            assert(before.contains(name) <==> earlier.contains(name));
        }
    }
}

/// In counter mode every counter that a line of the filter tables refers to
/// is declared, no counter is declared that no line refers to, and none is
/// declared twice.
pub proof fn law_counters_declared_once(c: ConfigurationView, d: Defaults)
    requires
        c.logging == counter_mode(),
    ensures
        counters_of(c, d).no_duplicates(),
        forall|name: Seq<char>|
            counters_of(c, d).contains(name) <==> referenced_counters(c, d, c.filters).contains(
                name,
            ),
{
    lemma_counters_match_references(c, d, c.filters);
}

/// Lines of which none is the marker get nothing put in.
pub proof fn lemma_insert_after_none(
    script: Seq<Seq<char>>,
    marker: Seq<char>,
    block: Seq<Seq<char>>,
)
    requires
        forall|i: int| 0 <= i < script.len() ==> trim_spec(#[trigger] script[i]) != marker,
    ensures
        insert_after(script, marker, block) == script,
    decreases script.len(),
{
    if script.len() > 0 {
        assert forall|i: int| 0 <= i < script.drop_last().len() implies trim_spec(
            #[trigger] script.drop_last()[i],
        ) != marker by {
            assert(script.drop_last()[i] == script[i]);
        }
        lemma_insert_after_none(script.drop_last(), marker, block);
        assert(trim_spec(script[script.len() - 1]) != marker);
        assert(script.drop_last() + seq![script.last()] + Seq::<Seq<char>>::empty() =~= script);
    } else {
        assert(insert_after(script, marker, block) =~= script);
    }
}

/// What is put in behind a marker line goes in behind each one separately.
pub proof fn lemma_insert_after_concat(
    a: Seq<Seq<char>>,
    b: Seq<Seq<char>>,
    marker: Seq<char>,
    block: Seq<Seq<char>>,
)
    ensures
        insert_after(a + b, marker, block) == insert_after(a, marker, block) + insert_after(
            b,
            marker,
            block,
        ),
    decreases b.len(),
{
    if b.len() == 0 {
        assert(a + b =~= a);
        assert(insert_after(a, marker, block) + Seq::<Seq<char>>::empty() =~= insert_after(
            a,
            marker,
            block,
        ));
    } else {
        lemma_insert_after_concat(a, b.drop_last(), marker, block);
        assert((a + b).drop_last() =~= a + b.drop_last());
        assert((a + b).last() == b.last());
        let tail = seq![b.last()] + (if trim_spec(b.last()) == marker {
            block
        } else {
            Seq::empty()
        });
        assert(insert_after(a + b, marker, block) =~= insert_after(a, marker, block) + (
        insert_after(b.drop_last(), marker, block) + tail));
        assert(insert_after(b, marker, block) =~= insert_after(b.drop_last(), marker, block)
            + tail);
    }
}

/// Where a script holds the marker line once, the counters are declared
/// once, right behind it, and the rest of the script stays as it is.
pub proof fn law_counters_follow_placeholder(
    before: Seq<Seq<char>>,
    placeholder: Seq<char>,
    after: Seq<Seq<char>>,
    counters: Seq<Seq<char>>,
)
    requires
        trim_spec(placeholder) == counters_marker(),
        forall|i: int| 0 <= i < before.len() ==> trim_spec(#[trigger] before[i]) != counters_marker(),
        forall|i: int| 0 <= i < after.len() ==> trim_spec(#[trigger] after[i]) != counters_marker(),
    ensures
        addcounters_spec(before + seq![placeholder] + after, counters) == before + seq![
            placeholder,
        ] + counter_declarations(counters) + after,
{
    let block = counter_declarations(counters);
    let marker = counters_marker();
    lemma_insert_after_concat(before + seq![placeholder], after, marker, block);
    lemma_insert_after_concat(before, seq![placeholder], marker, block);
    lemma_insert_after_none(before, marker, block);
    lemma_insert_after_none(after, marker, block);
    assert(seq![placeholder].drop_last() =~= Seq::<Seq<char>>::empty());
    assert(insert_after(seq![placeholder].drop_last(), marker, block) =~= Seq::<
        Seq<char>,
    >::empty());
    assert(seq![placeholder].last() == placeholder);
    assert(insert_after(seq![placeholder], marker, block) =~= seq![placeholder] + block);
    assert(before + (seq![placeholder] + block) + after =~= before + seq![placeholder] + block
        + after);
}

/// The line that the compiler writes as placeholder is a marker line.
pub proof fn lemma_placeholder_is_marker()
    ensures
        trim_spec("  # Counters"@) == counters_marker(),
{
    reveal_strlit("  # Counters");
    reveal_strlit("# Counters");
    let s = "  # Counters"@;
    let t = "# Counters"@;
    assert(s.drop_first().drop_first() =~= t);
    reveal_with_fuel(trim_start_spec, 3);
    assert(trim_start_spec(s) == t);
    assert(trim_end_spec(t) == t);
}

/// In counter mode the filter table holds the placeholder once and the
/// declarations of its counters once, right behind it, whatever the policy
/// document holds.
pub proof fn law_counters_declared_at_placeholder(counters: Seq<Seq<char>>)
    ensures
        counters_block(counter_mode(), counters) == seq![placeholder()] + counter_declarations(
            counters,
        ),
{
    let none = Seq::<Seq<char>>::empty();
    lemma_placeholder_is_marker();
    law_counters_follow_placeholder(none, placeholder(), none, counters);
    assert(none + seq![placeholder()] + none =~= seq![placeholder()]);
    assert(none + seq![placeholder()] + counter_declarations(counters) + none =~= seq![
        placeholder(),
    ] + counter_declarations(counters));
}

/// A list without repetitions stays without repetitions when more is added
/// to it item by item, each unless it is there already.
pub proof fn lemma_extend_unique_no_duplicates(items: Seq<Seq<char>>, more: Seq<Seq<char>>)
    requires
        items.no_duplicates(),
    ensures
        extend_unique_spec(items, more).no_duplicates(),
    decreases more.len(),
{
    if more.len() > 0 {
        lemma_extend_unique_no_duplicates(items, more.drop_last());
    }
}

/// No address stands twice among those that a list of names resolves to.
pub proof fn law_resolved_addresses_are_unique(
    c: ConfigurationView,
    defs: Seq<Seq<char>>,
    family: Family,
)
    ensures
        addresses_of(c, defs, family).no_duplicates(),
    decreases defs.len(),
{
    if defs.len() > 0 {
        law_resolved_addresses_are_unique(c, defs.drop_last(), family);
        lemma_extend_unique_no_duplicates(
            addresses_of(c, defs.drop_last(), family),
            addresses_from_def(c, defs.last(), family),
        );
    }
}

/// A filter table that is deleted gives no set, no chain, no jump and no
/// counter.
pub proof fn law_deleted_filter_table_is_silent(
    c: ConfigurationView,
    d: Defaults,
    table: FilterTableView,
    dir: Direction,
)
    requires
        table.deleted,
    ensures
        antispoof_table_sets(c, d, table) == Seq::<Seq<char>>::empty(),
        filter_table_lines(c, d, table) == Seq::<Seq<char>>::empty(),
        filter_table_labels(c, d, table) == Seq::<Seq<char>>::empty(),
        jump_lines(c, dir, table) == Seq::<Seq<char>>::empty(),
        missing_reference(
            c,
            (TableRef { chain: table.chain, deleted: table.deleted }),
        ) is None,
        missing_table_interface(c, dir, table) is None,
{
}

/// A translation table that is deleted changes nothing, and so does a rule
/// that is not active.
pub proof fn law_deleted_translation_is_silent(
    s: SectionsView,
    c: ConfigurationView,
    d: Defaults,
    kind: NatKind,
    table: NatTableView,
    rule: NatRuleView,
    ifspec: Seq<char>,
)
    ensures
        table.deleted ==> nat_table_spec(s, c, d, kind, table) == s,
        !rule.active ==> nat_rule_spec(s, c, d, kind, table.chain, ifspec, rule) == s,
{
}

/// A filter rule that is not active gives no line and counts no drop.
pub proof fn law_inactive_rule_is_silent(
    c: ConfigurationView,
    d: Defaults,
    chain: Seq<char>,
    rule: FilterRuleView,
)
    requires
        !rule.active,
    ensures
        filter_rule_lines(c, d, chain, rule) == Seq::<Seq<char>>::empty(),
        filter_rule_labels(c, d, rule) == Seq::<Seq<char>>::empty(),
{
}

/// A service is of one kind: its name gives a TCP port, or a UDP port, or
/// an ICMPv4 type, or an ICMPv6 type, or nothing, and never two of these.
pub proof fn law_services_are_partitioned(c: ConfigurationView, name: Seq<char>)
    ensures
        service_port(c, name, Transport::Tcp).len() + service_port(c, name, Transport::Udp).len()
            + control_types(c, seq![name], Family::V4).len() + control_types(
            c,
            seq![name],
            Family::V6,
        ).len() <= 1,
{
    reveal_strlit("TCP");
    reveal_strlit("UDP");
    reveal_strlit("ICMPv4 Type ");
    reveal_strlit("ICMPv6 Type ");
    let one = seq![name];
    let none = Seq::<Seq<char>>::empty();
    assert("TCP"@[0] != "UDP"@[0]);
    assert(one.drop_last() =~= none);
    assert(control_names(c, one.drop_last()) =~= none);
    if is_transport_service(c, name) {
        assert(control_names(c, one) =~= none);
        assert(control_types(c, one, Family::V4) =~= none);
        assert(control_types(c, one, Family::V6) =~= none);
    } else {
        assert(control_names(c, one) =~= one);
        assert(message_types_from_services(one.drop_last(), Family::V4) =~= none);
        assert(message_types_from_services(one.drop_last(), Family::V6) =~= none);
        let v4 = type_prefix(Family::V4);
        let v6 = type_prefix(Family::V6);
        if occurs_at(name, v4, 0) && occurs_at(name, v6, 0) {
            assert(name.subrange(0, 12)[5] == v4[5]);
            assert(name.subrange(0, 12)[5] == v6[5]);
        }
        assert(control_types(c, one, Family::V4) =~= message_type(name, Family::V4));
        assert(control_types(c, one, Family::V6) =~= message_type(name, Family::V6));
    }
}

} // verus!
