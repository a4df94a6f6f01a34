use rwl::text::{
    chars_of, count_in, find, has_prefix, replace_all, split_lines, to_decimal, trimmed,
    without_prefixes, without_suffixes,
};

const SAMPLES: [&str; 14] = [
    "",
    "a",
    "\n",
    "a\n",
    "a\nb",
    "a\r\nb\r\n",
    "a\rb\r",
    "\r\n\r\n",
    "\n\nx\n\n",
    "  lead and trail \t\n",
    "## Iteration 1\nTimestamp: t\n\n## Iteration 2\n",
    "#### Iteration## Iteration",
    "\u{a0}\u{2003}x\u{3000}\u{85}",
    "aaaa",
];

#[test]
fn lines_are_those_of_the_standard_library() {
    for s in SAMPLES {
        let expected: Vec<String> = s.lines().map(|l| l.to_string()).collect();
        assert_eq!(split_lines(s), expected, "lines of {:?}", s);
    }
}

#[test]
fn last_line_keeps_its_carriage_return() {
    assert_eq!(split_lines("a\r\nb\r"), vec!["a".to_string(), "b\r".to_string()]);
    assert_eq!(split_lines("a\n\nb"), vec!["a".to_string(), "".to_string(), "b".to_string()]);
    assert_eq!(split_lines(""), Vec::<String>::new());
}

#[test]
fn trimming_is_that_of_the_standard_library() {
    for s in SAMPLES {
        assert_eq!(trimmed(s), s.trim(), "trim of {:?}", s);
    }
    assert_eq!(trimmed(" \t x y \r\n"), "x y");
    assert_eq!(trimmed("\u{200b}x"), "\u{200b}x");
}

#[test]
fn finding_is_that_of_the_standard_library() {
    let needles = ["", "a", "aa", "## Iteration", "\n", "b\r", "x", "Iteration#"];
    for s in SAMPLES {
        for n in needles {
            assert_eq!(find(s, n), s.contains(n), "{:?} in {:?}", n, s);
            assert_eq!(has_prefix(s, n), s.starts_with(n), "{:?} before {:?}", n, s);
        }
    }
    assert!(find("<promise>COMPLETE</promise>", "COMPLETE"));
    assert!(!find("<promise>complete</promise>", "COMPLETE"));
}

#[test]
fn counting_is_that_of_the_standard_library() {
    let needles = ["a", "aa", "## Iteration", "\n", "##"];
    for s in SAMPLES {
        for n in needles {
            let got = count_in(&chars_of(s), &chars_of(n));
            assert_eq!(got, s.matches(n).count(), "{:?} in {:?}", n, s);
        }
    }
    assert_eq!(count_in(&chars_of("aaaa"), &chars_of("aa")), 2);
    assert_eq!(count_in(&chars_of("aaa"), &chars_of("aa")), 1);
}

#[test]
fn replacing_is_that_of_the_standard_library() {
    let pairs = [("a", "bb"), ("aa", ""), ("{iteration}", "12"), ("\n", " "), ("##", "#")];
    for s in SAMPLES {
        for (from, to) in pairs {
            assert_eq!(replace_all(s, from, to), s.replace(from, to), "{:?} in {:?}", from, s);
        }
    }
    assert_eq!(replace_all("rwl: iteration {iteration}", "{iteration}", "3"), "rwl: iteration 3");
    assert_eq!(replace_all("{iteration}{iteration}", "{iteration}", "7"), "77");
    assert_eq!(replace_all("{iteratio", "{iteration}", "7"), "{iteratio");
}

#[test]
fn stripping_is_that_of_the_standard_library() {
    let cases = ["# Started:# Started: x", "# Started:", "x UTC UTC", " UTC", "UTC", "abab", ""];
    for s in cases {
        for p in ["# Started:", " UTC", "ab", "x"] {
            assert_eq!(without_prefixes(s, p), s.trim_start_matches(p), "{:?} off {:?}", p, s);
            assert_eq!(without_suffixes(s, p), s.trim_end_matches(p), "{:?} off {:?}", p, s);
        }
    }
}

#[test]
fn numbers_are_written_in_decimal() {
    assert_eq!(to_decimal(0), "0");
    assert_eq!(to_decimal(7), "7");
    assert_eq!(to_decimal(10), "10");
    assert_eq!(to_decimal(4294967295), "4294967295");
    assert_eq!(to_decimal(u64::MAX), u64::MAX.to_string());
    for n in [1u64, 9, 11, 99, 100, 101, 12345, 1000000] {
        assert_eq!(to_decimal(n), n.to_string());
    }
}

#[test]
fn characters_come_out_in_order() {
    assert_eq!(chars_of("a\u{e9}\u{4e2d}z"), vec!['a', '\u{e9}', '\u{4e2d}', 'z']);
    assert!(rwl::text::matches_at(&chars_of("hello"), &chars_of("llo"), 2));
    assert!(!rwl::text::matches_at(&chars_of("hello"), &chars_of("llo"), 3));
    assert!(rwl::text::space(' ') && rwl::text::space('\u{2028}') && !rwl::text::space('x'));
    for c in ['\t', '\n', '\u{b}', '\u{c}', '\r', ' ', '\u{85}', '\u{a0}', '\u{1680}', '\u{2000}',
        '\u{200a}', '\u{200b}', '\u{2028}', '\u{2029}', '\u{202f}', '\u{205f}', '\u{3000}', 'a',
        '\u{1f}', '\u{feff}']
    {
        assert_eq!(rwl::text::space(c), c.is_whitespace(), "{:?}", c);
    }
}

#[test]
fn white_space_is_that_of_the_standard_library_everywhere() {
    let mut c = 0u32;
    while c <= 0x10ffff {
        if let Some(ch) = char::from_u32(c) {
            assert_eq!(rwl::text::space(ch), ch.is_whitespace(), "U+{:04X}", c);
        }
        c += 1;
    }
}
