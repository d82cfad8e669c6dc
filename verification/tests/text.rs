use nftablesbuilder::text::{
    all_distinct, chars_of, decimal, extend_unique, join, list_contains, push_unique, split_lines,
    split_on, split_words, starts_with, str_eq, suffix_from, trim, trimmed_is,
};

fn strings(items: &[&str]) -> Vec<String> {
    items.iter().map(|s| String::from(*s)).collect()
}

#[test]
fn trim_takes_whitespace_from_both_ends() {
    assert_eq!(trim("  a b \n"), "a b");
    assert_eq!(trim("\t\r\nx"), "x");
    assert_eq!(trim("x"), "x");
    assert_eq!(trim(""), "");
    assert_eq!(trim("   "), "");
    assert_eq!(trim("\u{a0}x\u{3000}"), "x");
    assert_eq!(trim("\u{2003} é ü \u{85}"), "é ü");
}

#[test]
fn trim_agrees_with_the_standard_library() {
    for text in ["", " ", "a", " a", "a ", " a b ", "\n\n", "\u{1680}q\u{205f}", "  chain C {"] {
        assert_eq!(trim(text), text.trim());
    }
}

#[test]
fn trimmed_is_compares_what_is_left() {
    assert!(trimmed_is("  # Counters", "# Counters"));
    assert!(trimmed_is("# Counters\t", "# Counters"));
    assert!(!trimmed_is("  # Counter", "# Counters"));
    assert!(!trimmed_is("  # Counters x", "# Counters"));
    assert!(trimmed_is("   ", ""));
    assert!(!trimmed_is(" a ", ""));
}

#[test]
fn starts_with_and_suffix() {
    assert!(starts_with("ICMPv4 Type 8", "ICMPv4 Type "));
    assert!(!starts_with("ICMPv4 Type", "ICMPv4 Type "));
    assert!(starts_with("abc", ""));
    assert_eq!(suffix_from("ICMPv4 Type 8", 12), "8");
    assert_eq!(suffix_from("éa", 1), "a");
    assert_eq!(suffix_from("abc", 3), "");
    assert_eq!(suffix_from("abc", 4), "");
    assert_eq!(suffix_from("abc", 0), "abc");
}

#[test]
fn str_eq_and_chars() {
    assert!(str_eq("drop", "drop"));
    assert!(!str_eq("drop", "drop "));
    assert!(!str_eq("drop", "droq"));
    assert!(str_eq("", ""));
    assert_eq!(chars_of("aé"), vec!['a', 'é']);
}

#[test]
fn split_lines_cuts_at_line_feeds() {
    assert_eq!(split_lines("a\nb\r\nc"), strings(&["a", "b", "c"]));
    assert_eq!(split_lines("a\n"), strings(&["a"]));
    assert_eq!(split_lines(""), Vec::<String>::new());
    assert_eq!(split_lines("\n\n"), strings(&["", ""]));
    assert_eq!(split_lines("a\r"), strings(&["a\r"]));
    assert_eq!(split_lines("\r\n"), strings(&[""]));
    assert_eq!(split_lines("a\r\r\nb"), strings(&["a\r", "b"]));
}

#[test]
fn split_lines_agrees_with_the_standard_library() {
    for text in ["", "x", "x\n", "\nx", "a\r\nb\n\nc", "a\rb", "\r", "# one\n# two\n"] {
        let expected: Vec<String> = text.lines().map(String::from).collect();
        assert_eq!(split_lines(text), expected);
    }
}

#[test]
fn split_on_keeps_empty_pieces() {
    assert_eq!(split_on("a\nb", '\n'), strings(&["a", "b"]));
    assert_eq!(split_on("", '\n'), strings(&[""]));
    assert_eq!(split_on("a\n", '\n'), strings(&["a", ""]));
    assert_eq!(split_on("\n\n", '\n'), strings(&["", "", ""]));
    assert_eq!(split_on("OK", '\n'), strings(&["OK"]));
}

#[test]
fn split_words_drops_whitespace() {
    assert_eq!(
        split_words("systemctl  reload\tnftables"),
        strings(&["systemctl", "reload", "nftables"])
    );
    assert_eq!(split_words("  nft -f /etc/nftables.conf \n"), strings(&["nft", "-f", "/etc/nftables.conf"]));
    assert_eq!(split_words(""), Vec::<String>::new());
    assert_eq!(split_words("   "), Vec::<String>::new());
    assert_eq!(split_words("one"), strings(&["one"]));
}

#[test]
fn join_puts_the_separator_between() {
    assert_eq!(join(&strings(&[]), ", "), "");
    assert_eq!(join(&strings(&["a"]), ", "), "a");
    assert_eq!(join(&strings(&["a", "b", "c"]), ", "), "a, b, c");
    assert_eq!(join(&strings(&["", ""]), "-"), "-");
}

#[test]
fn decimal_writes_numerals() {
    assert_eq!(decimal(0), "0");
    assert_eq!(decimal(7), "7");
    assert_eq!(decimal(10), "10");
    assert_eq!(decimal(22), "22");
    assert_eq!(decimal(8080), "8080");
    assert_eq!(decimal(65535), "65535");
    for n in [1u16, 9, 99, 100, 101, 443, 1000, 40404] {
        assert_eq!(decimal(n), format!("{}", n));
    }
}

#[test]
fn unique_lists() {
    let mut items = strings(&["a", "b"]);
    assert!(list_contains(&items, "a"));
    assert!(!list_contains(&items, "c"));
    push_unique(&mut items, "a");
    assert_eq!(items, strings(&["a", "b"]));
    push_unique(&mut items, "c");
    assert_eq!(items, strings(&["a", "b", "c"]));
    extend_unique(&mut items, &strings(&["d", "a", "d", "e"]));
    assert_eq!(items, strings(&["a", "b", "c", "d", "e"]));
}

#[test]
fn lists_without_repetition() {
    assert!(all_distinct(&strings(&[])));
    assert!(all_distinct(&strings(&["a"])));
    assert!(all_distinct(&strings(&["a", "b", "A", "a "])));
    assert!(!all_distinct(&strings(&["a", "b", "a"])));
    assert!(!all_distinct(&strings(&["", ""])));
    assert!(!all_distinct(&strings(&["x", "y", "z", "z"])));
}
