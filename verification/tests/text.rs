use char_sheet::pattern::{group, group_of};
use char_sheet::text::{
    append_chars, char_is_whitespace, chars_of, contains, find_line_end, has_prefix, join_text,
    occurs_at, parse_i32, replace, same_chars, same_text, slice_of, split, split_whitespace,
    string_of, string_of_range, trim,
};

fn chars(s: &str) -> Vec<char> {
    s.chars().collect()
}

fn texts(parts: Vec<Vec<char>>) -> Vec<String> {
    parts.iter().map(|p| p.iter().collect()).collect()
}

#[test]
fn characters_of_a_text_and_back() {
    assert_eq!(chars_of("héllo"), vec!['h', 'é', 'l', 'l', 'o']);
    assert_eq!(chars_of(""), Vec::<char>::new());
    assert_eq!(string_of(&chars("héllo wörld")), "héllo wörld");
    assert_eq!(string_of_range(&chars("héllo"), 1, 3), "él");
    assert_eq!(string_of_range(&chars("héllo"), 2, 2), "");
    assert_eq!(slice_of(&chars("abcdef"), 2, 5), chars("cde"));
    let mut out = chars("ab");
    append_chars(&mut out, &chars("cdef"), 1, 3);
    assert_eq!(out, chars("abde"));
    assert_eq!(join_text("ab", "cd"), "abcd");
    assert_eq!(join_text("", ""), "");
}

#[test]
fn searching() {
    let s = chars("abcabc");
    assert!(occurs_at(&s, &chars("bc"), 1));
    assert!(occurs_at(&s, &chars("bc"), 4));
    assert!(!occurs_at(&s, &chars("bc"), 5));
    assert!(!occurs_at(&s, &chars("bc"), 0));
    assert!(occurs_at(&s, &chars(""), 6));
    assert!(!occurs_at(&s, &chars(""), 7));
    assert!(contains(&s, &chars("cab")));
    assert!(contains(&s, &chars("abcabc")));
    assert!(contains(&s, &chars("")));
    assert!(!contains(&s, &chars("abcabca")));
    assert!(!contains(&s, &chars("ba")));
    assert!(contains(&chars("History or Religion"), &chars(" or ")));
    assert!(!contains(&chars("Performance"), &chars(" or ")));
    assert!(has_prefix(&chars("### Rage"), &chars("### ")));
    assert!(!has_prefix(&chars(" ### Rage"), &chars("### ")));
    assert!(!has_prefix(&chars("###"), &chars("### ")));
    assert!(same_chars(&chars("abc"), &chars("abc")));
    assert!(!same_chars(&chars("abc"), &chars("abd")));
    assert!(!same_chars(&chars("abc"), &chars("ab")));
    assert!(same_text("a5e", "a5e"));
    assert!(!same_text("a5e", "A5e"));
}

#[test]
fn splitting() {
    let split_text = |s: &str, sep: &str| texts(split(&chars(s), &chars(sep)));
    assert_eq!(split_text("a\n\nb\n\nc", "\n\n"), vec!["a", "b", "c"]);
    assert_eq!(split_text("a\n\n\nb", "\n\n"), vec!["a", "\nb"]);
    assert_eq!(split_text("a\n\n\n\nb", "\n\n"), vec!["a", "", "b"]);
    assert_eq!(split_text("", ","), vec![""]);
    assert_eq!(split_text(",", ","), vec!["", ""]);
    assert_eq!(split_text("a,b,", ","), vec!["a", "b", ""]);
    assert_eq!(split_text("abc", ","), vec!["abc"]);
    assert_eq!(split_text("abc", "abcd"), vec!["abc"]);
    assert_eq!(split_text("abc", ""), vec!["abc"]);
    assert_eq!(split_text("aaa", "aa"), vec!["", "a"]);
    for (s, sep) in [("a\n\n\nb", "\n\n"), ("x, y,z", ","), ("aaaa", "aa"), ("", "ab")] {
        let expected: Vec<String> = s.split(sep).map(|p| p.to_string()).collect();
        assert_eq!(split_text(s, sep), expected);
    }
}

#[test]
fn replacing() {
    let replace_text =
        |s: &str, from: &str, to: &str| string_of(&replace(&chars(s), &chars(from), &chars(to)));
    assert_eq!(replace_text("a\n \nb\n \nc", "\n \n", "\n\n"), "a\n\nb\n\nc");
    assert_eq!(replace_text("**_T_** x", "**_", "***"), "***T_** x");
    assert_eq!(replace_text("Strength,", ",", ""), "Strength");
    assert_eq!(replace_text("a and b and c", " and ", " "), "a b c");
    assert_eq!(replace_text("aaa", "aa", "b"), "ba");
    assert_eq!(replace_text("abc", "", "x"), "abc");
    assert_eq!(replace_text("", "a", "x"), "");
    assert_eq!(replace_text("abc", "abc", ""), "");
    for (s, from, to) in [("aaaa", "aa", "a"), ("x### y### ", "### ", ""), ("abab", "ab", "abab")] {
        assert_eq!(replace_text(s, from, to), s.replace(from, to));
    }
}

#[test]
fn trimming() {
    let trim_text = |s: &str| string_of(&trim(&chars(s)));
    assert_eq!(trim_text("  a b \t\n"), "a b");
    assert_eq!(trim_text("a"), "a");
    assert_eq!(trim_text(""), "");
    assert_eq!(trim_text(" \n\t "), "");
    assert_eq!(trim_text("\u{a0}x\u{3000}"), "x");
    assert_eq!(trim_text("_ x _"), "_ x _");
}

#[test]
fn white_space_is_what_the_standard_library_takes_for_it() {
    let mut seen = 0;
    for code in 0..=0x10ffffu32 {
        if let Some(c) = char::from_u32(code) {
            assert_eq!(char_is_whitespace(c), c.is_whitespace(), "U+{:04X}", code);
            if char_is_whitespace(c) {
                seen += 1;
            }
        }
    }
    assert_eq!(seen, 25);
    for c in ['\t', '\n', '\u{b}', '\u{c}', '\r', ' ', '\u{85}', '\u{a0}', '\u{3000}'] {
        assert!(char_is_whitespace(c));
        assert!(trim(&vec![c, 'x', c]) == vec!['x']);
        assert_eq!(split_whitespace(&vec!['a', c, 'b']).len(), 2);
    }
    for c in ['a', '_', '\u{8}', '\u{e}', '\u{180e}', '\u{200b}', '\u{feff}'] {
        assert!(!char_is_whitespace(c));
        assert_eq!(trim(&vec![c]).len(), 1);
    }
}

#[test]
fn numbers_read_as_the_standard_library_reads_them() {
    let alphabet = ['+', '-', '0', '1', '5', '9', ' ', 'a', '_', '\u{663}'];
    let mut texts: Vec<String> = vec![String::new()];
    let mut last: Vec<String> = vec![String::new()];
    for _ in 0..4 {
        let mut next = Vec::new();
        for text in &last {
            for c in alphabet {
                let mut longer = text.clone();
                longer.push(c);
                next.push(longer);
            }
        }
        texts.extend(next.iter().cloned());
        last = next;
    }
    for text in [
        "2147483647",
        "2147483648",
        "+2147483647",
        "+2147483648",
        "-2147483648",
        "-2147483649",
        "21474836470",
        "0000000000000000000002147483647",
        "-0000000000000000000002147483648",
        "99999999999999999999999999999999999999",
        "-99999999999999999999999999999999999999",
        "4294967296",
        "12 + your Constitution modifier",
        "1.5",
        "0x10",
        "\u{ff11}",
    ] {
        texts.push(text.to_string());
    }
    assert!(texts.len() > 11000);
    for text in &texts {
        assert_eq!(parse_i32(text), text.parse::<i32>().ok(), "{:?}", text);
    }
    assert_eq!(parse_i32("-12"), Some(-12));
    assert_eq!(parse_i32("+007"), Some(7));
    assert_eq!(parse_i32("-"), None);
}

#[test]
fn words() {
    let words = |s: &str| texts(split_whitespace(&chars(s)));
    assert_eq!(words("Strength, Constitution"), vec!["Strength,", "Constitution"]);
    assert_eq!(words("  a \t b\n\nc  "), vec!["a", "b", "c"]);
    assert_eq!(words(""), Vec::<String>::new());
    assert_eq!(words("   "), Vec::<String>::new());
    assert_eq!(words("abc"), vec!["abc"]);
}

#[test]
fn where_the_first_line_ends() {
    assert_eq!(find_line_end(&chars("ab\ncd\n")), 2);
    assert_eq!(find_line_end(&chars("\nab")), 0);
    assert_eq!(find_line_end(&chars("abc")), 3);
    assert_eq!(find_line_end(&chars("")), 0);
}

#[test]
fn groups_of_a_match() {
    let groups = vec![Some("whole".to_string()), None, Some("two".to_string())];
    assert_eq!(group(&groups, 0), "whole");
    assert_eq!(group(&groups, 1), "");
    assert_eq!(group(&groups, 2), "two");
    assert_eq!(group(&groups, 3), "");
    assert_eq!(group_of(&groups, 0), Some("whole".to_string()));
    assert_eq!(group_of(&groups, 1), None);
    assert_eq!(group_of(&groups, 3), None);
}
