//! The references of a policy document: every table that is not deleted
//! names a chain, and every chain names the interfaces that it is attached
//! to. A name that is not defined is an error. An interface reference that
//! is not set refers to nothing.

use vstd::prelude::*;
use crate::model::{
    find_chain, find_interface, unset_spec, ChainData, ChainView, ConfigurationItems,
    ConfigurationView, FilterTableView, NatKind, NatTableView,
};
use crate::resolve::{CompileError, Missing};
use crate::text::str_eq;
use crate::translate::nat_tables_of;

verus! {

/// What a table says of its chain.
pub struct TableRef {
    /// The name of the chain.
    pub chain: Seq<char>,
    /// Whether the table is deleted.
    pub deleted: bool,
}

/// What the filter tables say of their chains, in order.
pub open spec fn filter_refs(tables: Seq<FilterTableView>) -> Seq<TableRef> {
    Seq::new(
        tables.len(),
        |i: int| (TableRef { chain: tables[i].chain, deleted: tables[i].deleted }),
    )
}

/// What translation tables say of their chains, in order.
pub open spec fn nat_refs(tables: Seq<NatTableView>) -> Seq<TableRef> {
    Seq::new(
        tables.len(),
        |i: int| (TableRef { chain: tables[i].chain, deleted: tables[i].deleted }),
    )
}

/// What all the tables of a policy document say of their chains: the filter
/// tables, then the source translation tables, then the destination
/// translation tables.
pub open spec fn table_refs(c: ConfigurationView) -> Seq<TableRef> {
    filter_refs(c.filters) + nat_refs(c.snat) + nat_refs(c.dnat)
}

/// The first of two findings.
pub open spec fn or_else(a: Option<Missing>, b: Option<Missing>) -> Option<Missing> {
    match a {
        Some(e) => Some(e),
        None => b,
    }
}

/// The finding on one interface reference: the name, where it is set and
/// not defined.
pub open spec fn missing_interface(c: ConfigurationView, name: Seq<char>) -> Option<Missing> {
    if name != unset_spec() && find_interface(c.interfaces, name) is None {
        Some(Missing::Interface(name))
    } else {
        None
    }
}

/// The finding on the interfaces of a chain: the inbound one first.
pub open spec fn missing_chain_interface(c: ConfigurationView, chain: ChainView) -> Option<
    Missing,
> {
    or_else(missing_interface(c, chain.iface_in), missing_interface(c, chain.iface_out))
}

/// The finding on one table: none for a deleted table; else the chain where
/// it is not defined; else the finding on the interfaces of the chain.
pub open spec fn missing_reference(c: ConfigurationView, t: TableRef) -> Option<Missing> {
    if t.deleted {
        None
    } else {
        match find_chain(c.chains, t.chain) {
            Some(chain) => missing_chain_interface(c, chain),
            None => Some(Missing::Chain(t.chain)),
        }
    }
}

/// The first finding on a list of tables.
pub open spec fn first_missing_reference(c: ConfigurationView, refs: Seq<TableRef>) -> Option<
    Missing,
>
    decreases refs.len(),
{
    if refs.len() == 0 {
        None
    } else {
        or_else(first_missing_reference(c, refs.drop_last()), missing_reference(c, refs.last()))
    }
}

/// A finding among the first tables of a list is the finding of the list.
pub proof fn lemma_first_missing_reference_prefix(c: ConfigurationView, refs: Seq<TableRef>, n: int)
    requires
        0 <= n <= refs.len(),
        first_missing_reference(c, refs.take(n)) is Some,
    ensures
        first_missing_reference(c, refs) == first_missing_reference(c, refs.take(n)),
    decreases refs.len() - n,
{
    if n == refs.len() {
        assert(refs.take(n) =~= refs);
    } else {
        assert(refs.take(n + 1).drop_last() =~= refs.take(n));
        lemma_first_missing_reference_prefix(c, refs, n + 1);
    }
}

/// The first finding on two lists, one after the other, is the first
/// finding on the first list, or else that on the second.
pub proof fn lemma_first_missing_reference_concat(
    c: ConfigurationView,
    a: Seq<TableRef>,
    b: Seq<TableRef>,
)
    ensures
        first_missing_reference(c, a + b) == or_else(
            first_missing_reference(c, a),
            first_missing_reference(c, b),
        ),
    decreases b.len(),
{
    if b.len() == 0 {
        assert(a + b =~= a);
    } else {
        lemma_first_missing_reference_concat(c, a, b.drop_last());
        assert((a + b).drop_last() =~= a + b.drop_last());
        assert((a + b).last() == b.last());
    }
}

/// Follows one interface reference.
pub fn check_interface(config_items: &ConfigurationItems, name: &String) -> (r: Result<
    (),
    CompileError,
>)
    ensures
        (match r {
            Ok(_) => missing_interface(config_items@, name@) is None,
            Err(e) => missing_interface(config_items@, name@) == Some(e@),
        }),
{
    if str_eq(name.as_str(), "-") {
        return Ok(());
    }
    match crate::resolve::get_interface(config_items, name) {
        Ok(_) => Ok(()),
        Err(e) => Err(e),
    }
}

/// Follows the interface references of a chain.
pub fn check_chain(config_items: &ConfigurationItems, chain: &ChainData) -> (r: Result<
    (),
    CompileError,
>)
    ensures
        (match r {
            Ok(_) => missing_chain_interface(config_items@, chain@) is None,
            Err(e) => missing_chain_interface(config_items@, chain@) == Some(e@),
        }),
{
    match check_interface(config_items, &chain.iface_in) {
        Ok(_) => check_interface(config_items, &chain.iface_out),
        Err(e) => Err(e),
    }
}

/// Follows the references of one table.
pub fn check_table(config_items: &ConfigurationItems, chain: &String, deleted: bool) -> (r:
    Result<(), CompileError>)
    ensures
        (match r {
            Ok(_) => missing_reference(
                config_items@,
                (TableRef { chain: chain@, deleted }),
            ) is None,
            Err(e) => missing_reference(config_items@, (TableRef { chain: chain@, deleted }))
                == Some(e@),
        }),
{
    if deleted {
        return Ok(());
    }
    match crate::resolve::get_chain(config_items, chain) {
        Ok(found) => check_chain(config_items, found),
        Err(e) => Err(e),
    }
}

/// Follows the references of the filter tables.
pub fn check_filter_tables(config_items: &ConfigurationItems) -> (r: Result<(), CompileError>)
    ensures
        (match r {
            Ok(_) => first_missing_reference(config_items@, filter_refs(config_items@.filters))
                is None,
            Err(e) => first_missing_reference(config_items@, filter_refs(config_items@.filters))
                == Some(e@),
        }),
{
    let ghost c = config_items@;
    let ghost refs = filter_refs(c.filters);
    let mut i: usize = 0;
    assert(refs.take(0) =~= Seq::<TableRef>::empty());
    while i < config_items.filters.len()
        invariant
            i <= config_items.filters.len(),
            c == config_items@,
            refs == filter_refs(c.filters),
            refs.len() == config_items.filters.len(),
            first_missing_reference(c, refs.take(i as int)) is None,
        decreases config_items.filters.len() - i,
    {
        assert(refs.take(i as int + 1).drop_last() =~= refs.take(i as int));
        let table = &config_items.filters[i];
        assert(refs.take(i as int + 1).last() == (TableRef {
            chain: table.chain@,
            deleted: table.deleted,
        }));
        match check_table(config_items, &table.chain, table.deleted) {
            Ok(_) => {},
            Err(e) => {
                proof {
                    lemma_first_missing_reference_prefix(c, refs, i as int + 1);
                }
                return Err(e);
            },
        }
        i = i + 1;
    }
    assert(refs.take(i as int) =~= refs);
    Ok(())
}

/// Follows the references of the translation tables of one kind.
pub fn check_nat_tables(config_items: &ConfigurationItems, kind: NatKind) -> (r: Result<
    (),
    CompileError,
>)
    ensures
        (match r {
            Ok(_) => first_missing_reference(
                config_items@,
                nat_refs(nat_tables_of(config_items@, kind)),
            ) is None,
            Err(e) => first_missing_reference(
                config_items@,
                nat_refs(nat_tables_of(config_items@, kind)),
            ) == Some(e@),
        }),
{
    let tables = match kind {
        NatKind::Source => &config_items.snat,
        NatKind::Destination => &config_items.dnat,
    };
    let ghost c = config_items@;
    let ghost refs = nat_refs(nat_tables_of(c, kind));
    let mut i: usize = 0;
    assert(refs.take(0) =~= Seq::<TableRef>::empty());
    while i < tables.len()
        invariant
            i <= tables.len(),
            c == config_items@,
            refs == nat_refs(nat_tables_of(c, kind)),
            refs.len() == tables.len(),
            forall|k: int|
                0 <= k < refs.len() ==> refs[k] == (TableRef {
                    chain: tables@[k].chain@,
                    deleted: tables@[k].deleted,
                }),
            first_missing_reference(c, refs.take(i as int)) is None,
        decreases tables.len() - i,
    {
        assert(refs.take(i as int + 1).drop_last() =~= refs.take(i as int));
        let table = &tables[i];
        assert(refs.take(i as int + 1).last() == refs[i as int]);
        match check_table(config_items, &table.chain, table.deleted) {
            Ok(_) => {},
            Err(e) => {
                proof {
                    lemma_first_missing_reference_prefix(c, refs, i as int + 1);
                }
                return Err(e);
            },
        }
        i = i + 1;
    }
    assert(refs.take(i as int) =~= refs);
    Ok(())
}

/// Follows the references of all tables: those of the filter tables, then
/// those of the source translation tables, then those of the destination
/// translation tables.
pub fn check_tables(config_items: &ConfigurationItems) -> (r: Result<(), CompileError>)
    ensures
        (match r {
            Ok(_) => first_missing_reference(config_items@, table_refs(config_items@)) is None,
            Err(e) => first_missing_reference(config_items@, table_refs(config_items@)) == Some(
                e@,
            ),
        }),
{
    let ghost c = config_items@;
    proof {
        lemma_first_missing_reference_concat(c, filter_refs(c.filters), nat_refs(c.snat));
        lemma_first_missing_reference_concat(
            c,
            filter_refs(c.filters) + nat_refs(c.snat),
            nat_refs(c.dnat),
        );
    }
    match check_filter_tables(config_items) {
        Ok(_) => {},
        Err(e) => {
            return Err(e);
        },
    }
    match check_nat_tables(config_items, NatKind::Source) {
        Ok(_) => {},
        Err(e) => {
            return Err(e);
        },
    }
    check_nat_tables(config_items, NatKind::Destination)
}

} // verus!
