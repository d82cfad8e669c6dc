//! Character-level helpers on strings, stated over `Seq<char>`.

use vstd::prelude::*;
use vstd::string::*;

verus! {

/// The view of every string of a list.
pub open spec fn views(v: Seq<String>) -> Seq<Seq<char>> {
    Seq::new(v.len(), |i: int| v[i]@)
}

/// Whether `c` has the Unicode `White_Space` property.
pub open spec fn is_whitespace(c: char) -> bool {
    let u = c as u32;
    (0x09 <= u && u <= 0x0d) || u == 0x20 || u == 0x85 || u == 0xa0 || u == 0x1680 || (0x2000
        <= u && u <= 0x200a) || u == 0x2028 || u == 0x2029 || u == 0x202f || u == 0x205f || u
        == 0x3000
}

/// `s` without its leading whitespace.
pub open spec fn trim_start_spec(s: Seq<char>) -> Seq<char>
    decreases s.len(),
{
    if s.len() > 0 && is_whitespace(s[0]) {
        trim_start_spec(s.drop_first())
    } else {
        s
    }
}

/// `s` without its trailing whitespace.
pub open spec fn trim_end_spec(s: Seq<char>) -> Seq<char>
    decreases s.len(),
{
    if s.len() > 0 && is_whitespace(s.last()) {
        trim_end_spec(s.drop_last())
    } else {
        s
    }
}

/// `s` without leading and trailing whitespace.
pub open spec fn trim_spec(s: Seq<char>) -> Seq<char> {
    trim_end_spec(trim_start_spec(s))
}

/// Whether `pat` stands in `s` at index `i`.
pub open spec fn occurs_at(s: Seq<char>, pat: Seq<char>, i: int) -> bool {
    0 <= i && i + pat.len() <= s.len() && s.subrange(i, i + pat.len()) == pat
}

/// `s` without one trailing carriage return.
pub open spec fn strip_cr(s: Seq<char>) -> Seq<char> {
    if s.len() > 0 && s.last() == '\r' {
        s.drop_last()
    } else {
        s
    }
}

/// The lines of `rest`, where `cur` holds the characters of the current line
/// that were already passed.
pub open spec fn lines_from(rest: Seq<char>, cur: Seq<char>) -> Seq<Seq<char>>
    decreases rest.len(),
{
    if rest.len() == 0 {
        if cur.len() == 0 {
            Seq::empty()
        } else {
            seq![cur]
        }
    } else if rest[0] == '\n' {
        seq![strip_cr(cur)] + lines_from(rest.drop_first(), Seq::empty())
    } else {
        lines_from(rest.drop_first(), cur.push(rest[0]))
    }
}

/// The lines of a text: it is cut at every line feed, a carriage return right
/// before a line feed goes with it, and nothing follows a final line feed.
pub open spec fn lines_spec(s: Seq<char>) -> Seq<Seq<char>> {
    lines_from(s, Seq::empty())
}

/// The pieces of `rest` between occurrences of `sep`, where `cur` holds the
/// characters of the current piece that were already passed.
pub open spec fn pieces_from(rest: Seq<char>, cur: Seq<char>, sep: char) -> Seq<Seq<char>>
    decreases rest.len(),
{
    if rest.len() == 0 {
        seq![cur]
    } else if rest[0] == sep {
        seq![cur] + pieces_from(rest.drop_first(), Seq::empty(), sep)
    } else {
        pieces_from(rest.drop_first(), cur.push(rest[0]), sep)
    }
}

/// The pieces of `s` between occurrences of `sep`: one more than there are
/// separators, empty pieces included.
pub open spec fn split_spec(s: Seq<char>, sep: char) -> Seq<Seq<char>> {
    pieces_from(s, Seq::empty(), sep)
}

/// The words of `rest`, where `cur` holds the characters of the current word
/// that were already passed.
pub open spec fn words_from(rest: Seq<char>, cur: Seq<char>) -> Seq<Seq<char>>
    decreases rest.len(),
{
    if rest.len() == 0 {
        if cur.len() == 0 {
            Seq::empty()
        } else {
            seq![cur]
        }
    } else if is_whitespace(rest[0]) {
        if cur.len() == 0 {
            words_from(rest.drop_first(), Seq::empty())
        } else {
            seq![cur] + words_from(rest.drop_first(), Seq::empty())
        }
    } else {
        words_from(rest.drop_first(), cur.push(rest[0]))
    }
}

/// The maximal runs of characters of `s` that are not whitespace.
pub open spec fn words_spec(s: Seq<char>) -> Seq<Seq<char>> {
    words_from(s, Seq::empty())
}

/// The items of a list written one after the other with `sep` between them.
pub open spec fn join_spec(items: Seq<Seq<char>>, sep: Seq<char>) -> Seq<char>
    decreases items.len(),
{
    if items.len() == 0 {
        Seq::empty()
    } else if items.len() == 1 {
        items[0]
    } else {
        join_spec(items.drop_last(), sep) + sep + items.last()
    }
}

/// The decimal digit `d` as text.
pub open spec fn digit_spec(d: nat) -> Seq<char> {
    if d == 0 {
        "0"@
    } else if d == 1 {
        "1"@
    } else if d == 2 {
        "2"@
    } else if d == 3 {
        "3"@
    } else if d == 4 {
        "4"@
    } else if d == 5 {
        "5"@
    } else if d == 6 {
        "6"@
    } else if d == 7 {
        "7"@
    } else if d == 8 {
        "8"@
    } else {
        "9"@
    }
}

/// The decimal numeral of `n`, without leading zeros.
pub open spec fn decimal_spec(n: nat) -> Seq<char>
    decreases n,
{
    if n < 10 {
        digit_spec(n)
    } else {
        decimal_spec(n / 10) + digit_spec(n % 10)
    }
}

/// The list `items` with `item` added at its end unless it is in it already.
pub open spec fn push_unique_spec(items: Seq<Seq<char>>, item: Seq<char>) -> Seq<Seq<char>> {
    if items.contains(item) {
        items
    } else {
        items.push(item)
    }
}

/// The list `items` followed by those of `more` that it does not hold yet,
/// each once, in the order of their first occurrence.
pub open spec fn extend_unique_spec(items: Seq<Seq<char>>, more: Seq<Seq<char>>) -> Seq<
    Seq<char>,
>
    decreases more.len(),
{
    if more.len() == 0 {
        items
    } else {
        push_unique_spec(extend_unique_spec(items, more.drop_last()), more.last())
    }
}

/// The characters of `s`, in order.
pub fn chars_of(s: &str) -> (out: Vec<char>)
    ensures
        out@ == s@,
{
    let mut out: Vec<char> = Vec::new();
    for c in it: s.chars()
        invariant
            it.seq() == s@,
            out@ == it.seq().take(it.index() as int),
    {
        out.push(c);
    }
    out
}

/// Whether `c` is whitespace.
pub fn char_is_whitespace(c: char) -> (r: bool)
    ensures
        r == is_whitespace(c),
{
    let u: u32 = c as u32;
    (0x09 <= u && u <= 0x0d) || u == 0x20 || u == 0x85 || u == 0xa0 || u == 0x1680 || (0x2000
        <= u && u <= 0x200a) || u == 0x2028 || u == 0x2029 || u == 0x202f || u == 0x205f || u
        == 0x3000
}

/// The bounds of what is left of `cs` once leading and trailing whitespace is
/// taken away.
pub fn trim_bounds(cs: &Vec<char>) -> (r: (usize, usize))
    ensures
        r.0 <= r.1 <= cs.len(),
        cs@.subrange(r.0 as int, r.1 as int) == trim_spec(cs@),
{
    let n: usize = cs.len();
    let mut i: usize = 0;
    assert(cs@.subrange(0, n as int) =~= cs@);
    while i < n && char_is_whitespace(cs[i])
        invariant
            i <= n,
            n == cs.len(),
            trim_start_spec(cs@) == trim_start_spec(cs@.subrange(i as int, n as int)),
        decreases n - i,
    {
        assert(cs@.subrange(i as int, n as int).drop_first() =~= cs@.subrange(
            i as int + 1,
            n as int,
        ));
        i = i + 1;
    }
    let mut j: usize = n;
    while j > i && char_is_whitespace(cs[j - 1])
        invariant
            i <= j <= n,
            n == cs.len(),
            trim_start_spec(cs@) == cs@.subrange(i as int, n as int),
            trim_spec(cs@) == trim_end_spec(cs@.subrange(i as int, j as int)),
        decreases j - i,
    {
        assert(cs@.subrange(i as int, j as int).drop_last() =~= cs@.subrange(
            i as int,
            j as int - 1,
        ));
        j = j - 1;
    }
    (i, j)
}

/// `s` without leading and trailing whitespace.
pub fn trim(s: &str) -> (out: String)
    ensures
        out@ == trim_spec(s@),
{
    let cs = chars_of(s);
    let (i, j) = trim_bounds(&cs);
    String::from_str(s.substring_char(i, j))
}

/// Whether `s`, without leading and trailing whitespace, is `target`.
pub fn trimmed_is(s: &str, target: &str) -> (r: bool)
    ensures
        r == (trim_spec(s@) == target@),
{
    let cs = chars_of(s);
    let ts = chars_of(target);
    let (i, j) = trim_bounds(&cs);
    let ghost t = cs@.subrange(i as int, j as int);
    if j - i != ts.len() {
        assert(t.len() != ts@.len());
        return false;
    }
    let mut k: usize = 0;
    while k < ts.len()
        invariant
            k <= ts.len(),
            i <= j <= cs.len(),
            j - i == ts.len(),
            t == cs@.subrange(i as int, j as int),
            t == trim_spec(s@),
            ts@ == target@,
            t.take(k as int) == ts@.take(k as int),
        decreases ts.len() - k,
    {
        if cs[i + k] != ts[k] {
            assert(t[k as int] != ts@[k as int]);
            return false;
        }
        assert(t.take(k as int + 1) =~= t.take(k as int).push(t[k as int]));
        assert(ts@.take(k as int + 1) =~= ts@.take(k as int).push(ts@[k as int]));
        k = k + 1;
    }
    assert(t.take(k as int) =~= t);
    assert(ts@.take(k as int) =~= ts@);
    true
}

/// Whether `ps` stands in `cs` at index `i`.
fn chars_occur_at(cs: &Vec<char>, ps: &Vec<char>, i: usize) -> (r: bool)
    requires
        i + ps.len() <= cs.len(),
    ensures
        r == occurs_at(cs@, ps@, i as int),
{
    let ghost t = cs@.subrange(i as int, i + ps.len());
    let mut k: usize = 0;
    while k < ps.len()
        invariant
            k <= ps.len(),
            i + ps.len() <= cs.len(),
            t == cs@.subrange(i as int, i + ps.len()),
            t.take(k as int) == ps@.take(k as int),
        decreases ps.len() - k,
    {
        if cs[i + k] != ps[k] {
            assert(t[k as int] != ps@[k as int]);
            return false;
        }
        assert(t.take(k as int + 1) =~= t.take(k as int).push(t[k as int]));
        assert(ps@.take(k as int + 1) =~= ps@.take(k as int).push(ps@[k as int]));
        k = k + 1;
    }
    assert(t.take(k as int) =~= t);
    assert(ps@.take(k as int) =~= ps@);
    true
}

/// Whether `s` begins with `prefix`.
pub fn starts_with(s: &str, prefix: &str) -> (r: bool)
    ensures
        r == occurs_at(s@, prefix@, 0),
{
    let cs = chars_of(s);
    let ps = chars_of(prefix);
    if ps.len() > cs.len() {
        return false;
    }
    chars_occur_at(&cs, &ps, 0)
}

/// Whether `a` and `b` hold the same characters.
pub fn str_eq(a: &str, b: &str) -> (r: bool)
    ensures
        r == (a@ == b@),
{
    let cs = chars_of(a);
    let ps = chars_of(b);
    if ps.len() != cs.len() {
        return false;
    }
    assert(cs@.subrange(0, cs@.len() as int) =~= cs@);
    chars_occur_at(&cs, &ps, 0)
}

/// `s` from its character `from` on; nothing where `s` is shorter.
pub open spec fn suffix_spec(s: Seq<char>, from: int) -> Seq<char> {
    if 0 <= from <= s.len() {
        s.subrange(from, s.len() as int)
    } else {
        Seq::empty()
    }
}

/// `s` from its character `from` on; nothing where `s` is shorter.
pub fn suffix_from(s: &str, from: usize) -> (out: String)
    ensures
        out@ == suffix_spec(s@, from as int),
{
    let n: usize = s.unicode_len();
    if from <= n {
        String::from_str(s.substring_char(from, n))
    } else {
        String::new()
    }
}

/// Adds `line` at the end of `lines`.
pub fn push_line(lines: &mut Vec<String>, line: String)
    ensures
        views(final(lines)@) == views(old(lines)@).push(line@),
{
    lines.push(line);
    assert(views(lines@) =~= views(old(lines)@).push(line@));
}

/// Adds a copy of every line of `more` at the end of `lines`.
pub fn push_lines(lines: &mut Vec<String>, more: &Vec<String>)
    ensures
        views(final(lines)@) == views(old(lines)@) + views(more@),
{
    let mut i: usize = 0;
    assert(views(more@).take(0) =~= Seq::<Seq<char>>::empty());
    assert(views(lines@) + Seq::<Seq<char>>::empty() =~= views(lines@));
    while i < more.len()
        invariant
            i <= more.len(),
            views(lines@) == views(old(lines)@) + views(more@).take(i as int),
        decreases more.len() - i,
    {
        let ghost before = views(lines@);
        push_line(lines, more[i].clone());
        assert(views(more@).take(i as int + 1) =~= views(more@).take(i as int).push(more@[i as int]@));
        assert(before.push(more@[i as int]@) =~= views(old(lines)@) + views(more@).take(
            i as int + 1,
        ));
        i = i + 1;
    }
    assert(views(more@).take(i as int) =~= views(more@));
}

/// The lines of a text.
pub fn split_lines(s: &str) -> (out: Vec<String>)
    ensures
        views(out@) == lines_spec(s@),
{
    let cs = chars_of(s);
    let n: usize = cs.len();
    let mut out: Vec<String> = Vec::new();
    let mut start: usize = 0;
    let mut i: usize = 0;
    assert(views(out@) =~= Seq::<Seq<char>>::empty());
    assert(cs@.subrange(0, n as int) =~= s@);
    assert(cs@.subrange(0, 0) =~= Seq::<char>::empty());
    assert(Seq::<Seq<char>>::empty() + lines_from(s@, Seq::empty()) =~= lines_from(
        s@,
        Seq::empty(),
    ));
    while i < n
        invariant
            start <= i <= n,
            n == cs.len(),
            cs@ == s@,
            lines_spec(s@) == views(out@) + lines_from(
                cs@.subrange(i as int, n as int),
                cs@.subrange(start as int, i as int),
            ),
        decreases n - i,
    {
        let ghost rest = cs@.subrange(i as int, n as int);
        let ghost cur = cs@.subrange(start as int, i as int);
        assert(rest.drop_first() =~= cs@.subrange(i as int + 1, n as int));
        if cs[i] == '\n' {
            let end: usize = if i > start && cs[i - 1] == '\r' {
                i - 1
            } else {
                i
            };
            assert(cs@.subrange(start as int, end as int) =~= strip_cr(cur));
            let ghost before = views(out@);
            push_line(&mut out, String::from_str(s.substring_char(start, end)));
            assert(cs@.subrange(i as int + 1, i as int + 1) =~= Seq::<char>::empty());
            assert(before + (seq![strip_cr(cur)] + lines_from(rest.drop_first(), Seq::empty()))
                =~= before.push(strip_cr(cur)) + lines_from(rest.drop_first(), Seq::empty()));
            start = i + 1;
        } else {
            assert(cur.push(rest[0]) =~= cs@.subrange(start as int, i as int + 1));
        }
        i = i + 1;
    }
    if start < n {
        let ghost before = views(out@);
        let ghost cur = cs@.subrange(start as int, n as int);
        push_line(&mut out, String::from_str(s.substring_char(start, n)));
        assert(before + seq![cur] =~= before.push(cur));
    } else {
        assert(views(out@) + Seq::<Seq<char>>::empty() =~= views(out@));
    }
    out
}

/// The pieces of `s` between occurrences of `sep`.
pub fn split_on(s: &str, sep: char) -> (out: Vec<String>)
    ensures
        views(out@) == split_spec(s@, sep),
{
    let cs = chars_of(s);
    let n: usize = cs.len();
    let mut out: Vec<String> = Vec::new();
    let mut start: usize = 0;
    let mut i: usize = 0;
    assert(views(out@) =~= Seq::<Seq<char>>::empty());
    assert(cs@.subrange(0, n as int) =~= s@);
    assert(cs@.subrange(0, 0) =~= Seq::<char>::empty());
    assert(Seq::<Seq<char>>::empty() + pieces_from(s@, Seq::empty(), sep) =~= pieces_from(
        s@,
        Seq::empty(),
        sep,
    ));
    while i < n
        invariant
            start <= i <= n,
            n == cs.len(),
            cs@ == s@,
            split_spec(s@, sep) == views(out@) + pieces_from(
                cs@.subrange(i as int, n as int),
                cs@.subrange(start as int, i as int),
                sep,
            ),
        decreases n - i,
    {
        let ghost rest = cs@.subrange(i as int, n as int);
        let ghost cur = cs@.subrange(start as int, i as int);
        assert(rest.drop_first() =~= cs@.subrange(i as int + 1, n as int));
        if cs[i] == sep {
            let ghost before = views(out@);
            push_line(&mut out, String::from_str(s.substring_char(start, i)));
            assert(cs@.subrange(i as int + 1, i as int + 1) =~= Seq::<char>::empty());
            assert(before + (seq![cur] + pieces_from(rest.drop_first(), Seq::empty(), sep))
                =~= before.push(cur) + pieces_from(rest.drop_first(), Seq::empty(), sep));
            start = i + 1;
        } else {
            assert(cur.push(rest[0]) =~= cs@.subrange(start as int, i as int + 1));
        }
        i = i + 1;
    }
    let ghost before = views(out@);
    let ghost cur = cs@.subrange(start as int, n as int);
    push_line(&mut out, String::from_str(s.substring_char(start, n)));
    assert(before + seq![cur] =~= before.push(cur));
    out
}

/// The words of `s`: its maximal runs of characters that are not whitespace.
pub fn split_words(s: &str) -> (out: Vec<String>)
    ensures
        views(out@) == words_spec(s@),
{
    let cs = chars_of(s);
    let n: usize = cs.len();
    let mut out: Vec<String> = Vec::new();
    let mut start: usize = 0;
    let mut i: usize = 0;
    assert(views(out@) =~= Seq::<Seq<char>>::empty());
    assert(cs@.subrange(0, n as int) =~= s@);
    assert(cs@.subrange(0, 0) =~= Seq::<char>::empty());
    assert(Seq::<Seq<char>>::empty() + words_from(s@, Seq::empty()) =~= words_from(
        s@,
        Seq::empty(),
    ));
    while i < n
        invariant
            start <= i <= n,
            n == cs.len(),
            cs@ == s@,
            words_spec(s@) == views(out@) + words_from(
                cs@.subrange(i as int, n as int),
                cs@.subrange(start as int, i as int),
            ),
        decreases n - i,
    {
        let ghost rest = cs@.subrange(i as int, n as int);
        let ghost cur = cs@.subrange(start as int, i as int);
        assert(rest.drop_first() =~= cs@.subrange(i as int + 1, n as int));
        if char_is_whitespace(cs[i]) {
            assert(cs@.subrange(i as int + 1, i as int + 1) =~= Seq::<char>::empty());
            if i > start {
                let ghost before = views(out@);
                push_line(&mut out, String::from_str(s.substring_char(start, i)));
                assert(before + (seq![cur] + words_from(rest.drop_first(), Seq::empty()))
                    =~= before.push(cur) + words_from(rest.drop_first(), Seq::empty()));
            }
            start = i + 1;
        } else {
            assert(cur.push(rest[0]) =~= cs@.subrange(start as int, i as int + 1));
        }
        i = i + 1;
    }
    if start < n {
        let ghost before = views(out@);
        let ghost cur = cs@.subrange(start as int, n as int);
        push_line(&mut out, String::from_str(s.substring_char(start, n)));
        assert(before + seq![cur] =~= before.push(cur));
    } else {
        assert(views(out@) + Seq::<Seq<char>>::empty() =~= views(out@));
    }
    out
}

/// The items of `items` written one after the other with `sep` between them.
pub fn join(items: &Vec<String>, sep: &str) -> (out: String)
    ensures
        out@ == join_spec(views(items@), sep@),
{
    let mut out = String::new();
    let mut i: usize = 0;
    let ghost all = views(items@);
    assert(all.take(0) =~= Seq::<Seq<char>>::empty());
    while i < items.len()
        invariant
            i <= items.len(),
            all == views(items@),
            out@ == join_spec(all.take(i as int), sep@),
        decreases items.len() - i,
    {
        assert(all.take(i as int + 1).drop_last() =~= all.take(i as int));
        assert(all.take(i as int + 1).last() == items@[i as int]@);
        if i > 0 {
            out.append(sep);
        } else {
            assert(Seq::<char>::empty() + items@[i as int]@ =~= items@[i as int]@);
        }
        out.append(items[i].as_str());
        i = i + 1;
    }
    assert(all.take(i as int) =~= all);
    out
}

/// The decimal digit `d` as text.
fn digit(d: u16) -> (r: &'static str)
    requires
        d < 10,
    ensures
        r@ == digit_spec(d as nat),
{
    if d == 0 {
        "0"
    } else if d == 1 {
        "1"
    } else if d == 2 {
        "2"
    } else if d == 3 {
        "3"
    } else if d == 4 {
        "4"
    } else if d == 5 {
        "5"
    } else if d == 6 {
        "6"
    } else if d == 7 {
        "7"
    } else if d == 8 {
        "8"
    } else {
        "9"
    }
}

/// The decimal numeral of `n`.
pub fn decimal(n: u16) -> (out: String)
    ensures
        out@ == decimal_spec(n as nat),
    decreases n,
{
    if n < 10 {
        String::from_str(digit(n))
    } else {
        let mut out = decimal(n / 10);
        out.append(digit(n % 10));
        out
    }
}

/// Whether `item` is one of `items`.
pub fn list_contains(items: &Vec<String>, item: &str) -> (r: bool)
    ensures
        r == views(items@).contains(item@),
{
    let mut i: usize = 0;
    while i < items.len()
        invariant
            i <= items.len(),
            forall|k: int| 0 <= k < i ==> views(items@)[k] != item@,
        decreases items.len() - i,
    {
        if str_eq(items[i].as_str(), item) {
            assert(views(items@)[i as int] == item@);
            return true;
        }
        i = i + 1;
    }
    false
}

/// Adds `item` at the end of `items` unless it is in it already.
pub fn push_unique(items: &mut Vec<String>, item: &str)
    ensures
        views(final(items)@) == push_unique_spec(views(old(items)@), item@),
{
    if !list_contains(items, item) {
        push_line(items, String::from_str(item));
    }
}

/// Adds to `items` those of `more` that it does not hold yet, each once.
pub fn extend_unique(items: &mut Vec<String>, more: &Vec<String>)
    ensures
        views(final(items)@) == extend_unique_spec(views(old(items)@), views(more@)),
{
    let mut i: usize = 0;
    let ghost all = views(more@);
    assert(all.take(0) =~= Seq::<Seq<char>>::empty());
    while i < more.len()
        invariant
            i <= more.len(),
            all == views(more@),
            views(items@) == extend_unique_spec(views(old(items)@), all.take(i as int)),
        decreases more.len() - i,
    {
        assert(all.take(i as int + 1).drop_last() =~= all.take(i as int));
        assert(all.take(i as int + 1).last() == more@[i as int]@);
        push_unique(items, more[i].as_str());
        i = i + 1;
    }
    assert(all.take(i as int) =~= all);
}

/// Whether no item stands twice in `items`.
pub fn all_distinct(items: &Vec<String>) -> (r: bool)
    ensures
        r == views(items@).no_duplicates(),
{
    let ghost all = views(items@);
    let mut i: usize = 0;
    while i < items.len()
        invariant
            i <= items.len(),
            all == views(items@),
            forall|a: int, b: int| 0 <= a < b < i ==> all[a] != all[b],
        decreases items.len() - i,
    {
        let mut j: usize = 0;
        while j < i
            invariant
                j <= i < items.len(),
                all == views(items@),
                forall|a: int| 0 <= a < j ==> all[a] != all[i as int],
            decreases i - j,
        {
            if str_eq(items[j].as_str(), items[i].as_str()) {
                assert(all[j as int] == all[i as int]);
                return false;
            }
            j = j + 1;
        }
        i = i + 1;
    }
    assert forall|a: int, b: int| 0 <= a < all.len() && 0 <= b < all.len() && a != b implies all[a]
        != all[b] by {
        if a < b {
        } else {
            assert(all[b] != all[a]);
        }
    }
    true
}

} // verus!
