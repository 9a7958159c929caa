//! Texts.

use zeron_core::host::order::text_before;
use zeron_core::text::{
    decimal, is_blank, join, replace, replace_first, split, split_once, split_words, trim,
    trim_end_slashes,
};

#[test]
fn white_space_is_that_of_unicode() {
    assert_eq!(trim("\u{a0}\u{2003} a b \t\n"), "a b");
    assert!(is_blank(" \u{3000}\r\n"));
    assert!(!is_blank("x"));
    assert_eq!(split_words(" a\u{2003}bc \n d"), ["a", "bc", "d"]);
}

#[test]
fn exactly_the_white_space_of_unicode_is_blank() {
    let listed: Vec<u32> = [0x20, 0x85, 0xa0, 0x1680, 0x2028, 0x2029, 0x202f, 0x205f, 0x3000]
        .into_iter()
        .chain(0x9..=0xd)
        .chain(0x2000..=0x200a)
        .collect();
    assert_eq!(listed.len(), 25);
    for code in 0..=0x10ffff {
        if let Some(c) = char::from_u32(code) {
            assert_eq!(is_blank(&c.to_string()), listed.contains(&code), "{code:x}");
        }
    }
}

#[test]
fn texts_are_split_and_joined() {
    assert_eq!(split("a,,b", ','), ["a", "", "b"]);
    assert_eq!(split("", ','), [""]);
    assert_eq!(split_once("k=v=w", '='), Some(("k".into(), "v=w".into())));
    assert_eq!(split_once("kv", '='), None);
    assert_eq!(join(&vec!["a".into(), "b".into()], ", "), "a, b");
    assert_eq!(trim_end_slashes("http://x//"), "http://x");
    assert_eq!(decimal(0), "0");
    assert_eq!(decimal(u64::MAX), "18446744073709551615");
}

#[test]
fn replacing_agrees_with_the_standard_library() {
    for (text, part, with) in [
        ("aXbXc", "X", "yy"),
        ("aaaa", "aa", "b"),
        ("aaa", "aa", "b"),
        ("none", "zz", "b"),
        ("añb", "", "-"),
        ("", "", "-"),
        ("same", "same", ""),
    ] {
        assert_eq!(replace(text, part, with), text.replace(part, with), "{text} {part} {with}");
        assert_eq!(replace_first(text, part, with), text.replacen(part, with, 1));
    }
}

#[test]
fn texts_are_ordered_as_the_standard_library_orders_them() {
    let texts = ["", "a", "ab", "b", "Z", "é", "zz", "\u{10ffff}", "\u{e000}"];
    for a in texts {
        for b in texts {
            assert_eq!(text_before(a, b), a < b, "{a:?} {b:?}");
        }
    }
}
