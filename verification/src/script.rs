//! Building blocks of the ruleset script: the built-in protections, the
//! logging clauses with their counters, and the insertion of lines behind a
//! marker line.

use vstd::prelude::*;
use vstd::string::*;
use crate::model::{ConfigurationItems, ConfigurationView};
use crate::text::{
    push_line, push_lines, push_unique, push_unique_spec, str_eq, trim_spec, trimmed_is, views,
};

verus! {

/// Which of the built-in protections are in force.
#[derive(Clone, Copy, Debug, PartialEq, Eq, Structural)]
pub struct Defaults {
    /// New connections are rate limited by source address.
    pub syn_flood: bool,
    /// Control messages are rate limited by source address.
    pub message_limit: bool,
    /// Packets whose source is their own destination are dropped.
    pub src_eq_dst: bool,
    /// Established connections are accepted.
    pub ct_established: bool,
    /// Related connections are accepted.
    pub ct_related: bool,
    /// Invalid connections are dropped.
    pub ct_invalid: bool,
    /// Translated traffic is accepted in the chain it belongs to.
    pub allow_nat: bool,
    /// Impossible combinations of TCP flags are dropped at ingress.
    pub invalid_tcp_flags: bool,
    /// Connection requests with a tiny segment size are dropped at ingress.
    pub tcp_mss: bool,
}

/// The protections that a policy document leaves in force: each one that its
/// opt-out list does not name.
pub open spec fn defaults_of(c: ConfigurationView) -> Defaults {
    Defaults {
        syn_flood: !c.inactive_defaults.contains("SYNFlood"@),
        message_limit: !c.inactive_defaults.contains("ICMP"@),
        src_eq_dst: !c.inactive_defaults.contains("SRCEQDST"@),
        ct_established: !c.inactive_defaults.contains("CT-Established"@),
        ct_related: !c.inactive_defaults.contains("CT-Related"@),
        ct_invalid: !c.inactive_defaults.contains("CT-Invalid"@),
        allow_nat: !c.inactive_defaults.contains("AllowNAT"@),
        invalid_tcp_flags: !c.inactive_defaults.contains("InvalidTCPFlags"@),
        tcp_mss: !c.inactive_defaults.contains("TCPMSS"@),
    }
}

/// The protections that a policy document leaves in force.
pub fn active_defaults(config_items: &ConfigurationItems) -> (d: Defaults)
    ensures
        d == defaults_of(config_items@),
{
    Defaults {
        syn_flood: !config_items.opted_out("SYNFlood"),
        message_limit: !config_items.opted_out("ICMP"),
        src_eq_dst: !config_items.opted_out("SRCEQDST"),
        ct_established: !config_items.opted_out("CT-Established"),
        ct_related: !config_items.opted_out("CT-Related"),
        ct_invalid: !config_items.opted_out("CT-Invalid"),
        allow_nat: !config_items.opted_out("AllowNAT"),
        invalid_tcp_flags: !config_items.opted_out("InvalidTCPFlags"),
        tcp_mss: !config_items.opted_out("TCPMSS"),
    }
}

/// The logging mode in which dropped packets are counted.
pub open spec fn counter_mode() -> Seq<char> {
    "counter"@
}

/// The logging mode in which dropped packets are logged.
pub open spec fn log_mode() -> Seq<char> {
    "log"@
}

/// The name under which the drops of one kind in one chain are logged or
/// counted.
pub open spec fn log_id(logging: Seq<char>, chain: Seq<char>, name: Seq<char>) -> Seq<char> {
    logging + "_"@ + chain + "_"@ + name
}

/// The clause that logs or counts a drop: a counter reference in counter
/// mode, a log prefix in log mode, nothing in any other mode.
pub open spec fn log_clause(logging: Seq<char>, chain: Seq<char>, name: Seq<char>) -> Seq<char> {
    if logging == counter_mode() {
        "counter name "@ + log_id(logging, chain, name) + " "@
    } else if logging == log_mode() {
        "log prefix "@ + log_id(logging, chain, name) + " "@
    } else {
        Seq::empty()
    }
}

/// The counters once a drop of kind `name` in `chain` was written: in counter
/// mode its name is among them, once; in any other mode nothing changes.
pub open spec fn note_spec(
    counters: Seq<Seq<char>>,
    logging: Seq<char>,
    chain: Seq<char>,
    name: Seq<char>,
) -> Seq<Seq<char>> {
    if logging == counter_mode() {
        push_unique_spec(counters, log_id(logging, chain, name))
    } else {
        counters
    }
}

/// The counters once a drop of each of the kinds `names` in `chain` was
/// written, in that order.
pub open spec fn note_all(
    counters: Seq<Seq<char>>,
    logging: Seq<char>,
    chain: Seq<char>,
    names: Seq<Seq<char>>,
) -> Seq<Seq<char>>
    decreases names.len(),
{
    if names.len() == 0 {
        counters
    } else {
        note_spec(note_all(counters, logging, chain, names.drop_last()), logging, chain, names.last())
    }
}

/// The clause that logs or counts a drop at ingress.
pub open spec fn netdev_log_clause(logging: Seq<char>) -> Seq<char> {
    if logging == counter_mode() {
        "counter name counter_netdev_invalid_tcp "@
    } else if logging == log_mode() {
        "log prefix log_netdev_invalid_tcp "@
    } else {
        Seq::empty()
    }
}

/// The script with `block` put in behind every line that, without the
/// whitespace around it, is `marker`.
pub open spec fn insert_after(script: Seq<Seq<char>>, marker: Seq<char>, block: Seq<Seq<char>>) -> Seq<
    Seq<char>,
>
    decreases script.len(),
{
    if script.len() == 0 {
        Seq::empty()
    } else {
        insert_after(script.drop_last(), marker, block) + seq![script.last()] + (if trim_spec(
            script.last(),
        ) == marker {
            block
        } else {
            Seq::empty()
        })
    }
}

/// The line that opens the body of `chain`, without the whitespace around it.
pub open spec fn chain_opening(chain: Seq<char>) -> Seq<char> {
    "chain "@ + chain + " {"@
}

/// The line that accepts in a filter chain what a NAT rule translates.
pub open spec fn mirror_line(line: Seq<char>, limit: Seq<char>) -> Seq<char> {
    line + limit + " accept # allow nat rule"@
}

/// The script with the accept line of a NAT rule right behind every line
/// that opens the body of `chain`.
pub open spec fn add_natrule_to_filter_spec(
    script: Seq<Seq<char>>,
    chain: Seq<char>,
    line: Seq<char>,
    limit: Seq<char>,
) -> Seq<Seq<char>> {
    insert_after(script, chain_opening(chain), seq![mirror_line(line, limit)])
}

/// The marker line behind which the counters are declared.
pub open spec fn counters_marker() -> Seq<char> {
    "# Counters"@
}

/// The two lines that declare one counter.
pub open spec fn counter_declaration(counter: Seq<char>) -> Seq<Seq<char>> {
    seq!["  counter "@ + counter + " {"@, "  }"@]
}

/// The declarations of a list of counters, in order.
pub open spec fn counter_declarations(counters: Seq<Seq<char>>) -> Seq<Seq<char>>
    decreases counters.len(),
{
    if counters.len() == 0 {
        Seq::empty()
    } else {
        counter_declarations(counters.drop_last()) + counter_declaration(counters.last())
    }
}

/// The script with the declarations of `counters` right behind every marker
/// line.
pub open spec fn addcounters_spec(script: Seq<Seq<char>>, counters: Seq<Seq<char>>) -> Seq<
    Seq<char>,
> {
    insert_after(script, counters_marker(), counter_declarations(counters))
}

/// Noting `a` and then `b` is noting `a + b`.
pub proof fn lemma_note_all_concat(
    counters: Seq<Seq<char>>,
    logging: Seq<char>,
    chain: Seq<char>,
    a: Seq<Seq<char>>,
    b: Seq<Seq<char>>,
)
    ensures
        note_all(note_all(counters, logging, chain, a), logging, chain, b) == note_all(
            counters,
            logging,
            chain,
            a + b,
        ),
    decreases b.len(),
{
    if b.len() == 0 {
        assert(a + b =~= a);
    } else {
        lemma_note_all_concat(counters, logging, chain, a, b.drop_last());
        assert((a + b).drop_last() =~= a + b.drop_last());
        assert((a + b).last() == b.last());
    }
}

/// Noting one name is noting the list that holds it alone.
pub proof fn lemma_note_all_one(
    counters: Seq<Seq<char>>,
    logging: Seq<char>,
    chain: Seq<char>,
    name: Seq<char>,
)
    ensures
        note_all(counters, logging, chain, seq![name]) == note_spec(counters, logging, chain, name),
{
    assert(seq![name].drop_last() =~= Seq::<Seq<char>>::empty());
    assert(note_all(counters, logging, chain, seq![name].drop_last()) == counters);
}

/// Puts a copy of `block` into `script` behind every line that, without the
/// whitespace around it, is `marker`.
pub fn insert_after_marker(script: Vec<String>, marker: &str, block: &Vec<String>) -> (newscript:
    Vec<String>)
    ensures
        views(newscript@) == insert_after(views(script@), marker@, views(block@)),
{
    let ghost all = views(script@);
    let mut newscript: Vec<String> = Vec::new();
    let mut i: usize = 0;
    assert(views(newscript@) =~= Seq::<Seq<char>>::empty());
    assert(all.take(0) =~= Seq::<Seq<char>>::empty());
    while i < script.len()
        invariant
            i <= script.len(),
            all == views(script@),
            views(newscript@) == insert_after(all.take(i as int), marker@, views(block@)),
        decreases script.len() - i,
    {
        assert(all.take(i as int + 1).drop_last() =~= all.take(i as int));
        assert(all.take(i as int + 1).last() == script@[i as int]@);
        let ghost before = views(newscript@);
        push_line(&mut newscript, script[i].clone());
        assert(before.push(script@[i as int]@) =~= before + seq![script@[i as int]@]);
        if trimmed_is(script[i].as_str(), marker) {
            push_lines(&mut newscript, block);
        } else {
            assert(views(newscript@) + Seq::<Seq<char>>::empty() =~= views(newscript@));
        }
        i = i + 1;
    }
    assert(all.take(i as int) =~= all);
    newscript
}

/// Puts the line that accepts what a NAT rule translates right behind every
/// line that opens the body of `chain`.
pub fn add_natrule_to_filter(script: Vec<String>, chain: &String, line: &String, limit: &String) -> (newscript:
    Vec<String>)
    ensures
        views(newscript@) == add_natrule_to_filter_spec(views(script@), chain@, line@, limit@),
{
    let mut marker = String::from_str("chain ");
    marker.append(chain.as_str());
    marker.append(" {");
    let mut mirror = line.clone();
    mirror.append(limit.as_str());
    mirror.append(" accept # allow nat rule");
    let mut block: Vec<String> = Vec::new();
    block.push(mirror);
    assert(views(block@) =~= seq![mirror_line(line@, limit@)]);
    insert_after_marker(script, marker.as_str(), &block)
}

/// Puts the declarations of `counters` right behind every marker line.
pub fn addcounters(script: Vec<String>, counters: Vec<String>) -> (newscript: Vec<String>)
    ensures
        views(newscript@) == addcounters_spec(views(script@), views(counters@)),
{
    let ghost all = views(counters@);
    let mut block: Vec<String> = Vec::new();
    let mut i: usize = 0;
    assert(views(block@) =~= Seq::<Seq<char>>::empty());
    assert(all.take(0) =~= Seq::<Seq<char>>::empty());
    while i < counters.len()
        invariant
            i <= counters.len(),
            all == views(counters@),
            views(block@) == counter_declarations(all.take(i as int)),
        decreases counters.len() - i,
    {
        assert(all.take(i as int + 1).drop_last() =~= all.take(i as int));
        assert(all.take(i as int + 1).last() == counters@[i as int]@);
        let ghost before = views(block@);
        let mut open = String::from_str("  counter ");
        open.append(counters[i].as_str());
        open.append(" {");
        push_line(&mut block, open);
        push_line(&mut block, String::from_str("  }"));
        assert(before.push(open@).push("  }"@) =~= before + counter_declaration(
            counters@[i as int]@,
        ));
        i = i + 1;
    }
    assert(all.take(i as int) =~= all);
    insert_after_marker(script, "# Counters", &block)
}

/// The clause that logs or counts a drop of kind `name` in `chain`; in
/// counter mode the counter is noted in `counters`.
pub fn logcommand(counters: &mut Vec<String>, logging: &String, chain: &String, name: &str) -> (clause:
    String)
    ensures
        clause@ == log_clause(logging@, chain@, name@),
        views(final(counters)@) == note_spec(views(old(counters)@), logging@, chain@, name@),
{
    let mut idstring = logging.clone();
    idstring.append("_");
    idstring.append(chain.as_str());
    idstring.append("_");
    idstring.append(name);
    if str_eq(logging.as_str(), "counter") {
        push_unique(counters, idstring.as_str());
        let mut clause = String::from_str("counter name ");
        clause.append(idstring.as_str());
        clause.append(" ");
        return clause;
    }
    if str_eq(logging.as_str(), "log") {
        let mut clause = String::from_str("log prefix ");
        clause.append(idstring.as_str());
        clause.append(" ");
        return clause;
    }
    String::new()
}

/// The clause that logs or counts a drop at ingress.
pub fn netdev_logcommand(logging: &String) -> (clause: String)
    ensures
        clause@ == netdev_log_clause(logging@),
{
    if str_eq(logging.as_str(), "counter") {
        return String::from_str("counter name counter_netdev_invalid_tcp ");
    }
    if str_eq(logging.as_str(), "log") {
        return String::from_str("log prefix log_netdev_invalid_tcp ");
    }
    String::new()
}

} // verus!
