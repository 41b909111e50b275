use imap_session::path::{file_name, join, normalize};
use imap_session::text::{
    characters, decimal, lower, replace, same, space, split, trim, trim_of,
};

#[test]
fn white_space_is_what_unicode_says() {
    for n in 0..0x11_0000u32 {
        if let Some(c) = char::from_u32(n) {
            assert_eq!(space(c), c.is_whitespace(), "{:x}", n);
        }
    }
}

#[test]
fn text_comes_apart_into_characters() {
    assert_eq!(characters("a\u{e9}\u{1f600}"), vec!['a', '\u{e9}', '\u{1f600}']);
    assert!(same("\u{e9}b", "\u{e9}b"));
    assert!(!same("ab", "abc"));
    assert!(!same("ab", "ac"));
    assert!(same("", ""));
}

#[test]
fn white_space_is_trimmed_at_both_ends() {
    for s in ["", "  ", "a", " a b\r\n", "\u{3000}\u{a0}x\t", "\r\n"] {
        assert_eq!(trim(s), s.trim());
    }
}

#[test]
fn one_character_is_trimmed_at_both_ends() {
    for s in ["", "\"", "\"\"\"", "\"a\"", "\"\"a\"b\"", "a", "\" a\""] {
        assert_eq!(trim_of(s, '"'), s.trim_matches('"'));
    }
}

#[test]
fn text_is_split_and_joined_again() {
    for s in ["", " ", "a", "a b", " a  b ", "a\u{e9} b"] {
        let expected: Vec<String> = s.split(' ').map(|p| p.to_string()).collect();
        let pieces = split(s, ' ');
        assert_eq!(pieces, expected);
        assert_eq!(pieces.join(" "), s);
        assert!(pieces.iter().all(|p| !p.contains(' ')));
    }
}

#[test]
fn only_ascii_capitals_are_made_small() {
    assert_eq!(lower("NoOp AZ[@\u{c9}"), "noop az[@\u{c9}");
    assert_eq!(lower(&lower("LiSt")), "list");
}

#[test]
fn every_occurrence_is_replaced() {
    for (s, from, to) in [
        ("*a*", "*", ".*"),
        ("%/%", "%", "[^/]*"),
        ("aaa", "aa", "b"),
        ("INBOXINBOX/x", "INBOX", ""),
        ("INBO", "INBOX", ""),
        ("", "x", "y"),
    ] {
        assert_eq!(replace(s, from, to), s.replace(from, to));
    }
}

#[test]
fn numbers_are_written_in_decimal() {
    for n in [0, 1, 9, 10, 11, 99, 100, 1203, 65535, usize::MAX] {
        assert_eq!(decimal(n), format!("{}", n));
        assert_eq!(decimal(n).parse::<usize>().unwrap(), n);
    }
}

#[test]
fn paths_are_brought_into_normal_form() {
    for (path, expected) in [
        ("", "."),
        (".", "."),
        ("./.", "."),
        ("a/..", "."),
        ("..", ".."),
        ("../..", "../.."),
        ("a/../..", ".."),
        ("../a/..", ".."),
        ("/", "/"),
        ("//", "/"),
        ("/..", "/"),
        ("/../a", "/a"),
        ("/a/", "/a"),
        ("a//b/./c/", "a/b/c"),
        ("./a/b", "a/b"),
        ("/x/y/..", "/x"),
        ("a/../b", "b"),
        ("...", "..."),
        ("/a/.b", "/a/.b"),
    ] {
        assert_eq!(normalize(path), expected, "{:?}", path);
        assert_eq!(normalize(&normalize(path)), expected, "{:?}", path);
    }
}

#[test]
fn paths_are_joined() {
    for (base, name, expected) in [
        ("", "", "."),
        ("", "x", "x"),
        ("", "../up", "../up"),
        ("/", "", "/"),
        ("/", "x/y", "/x/y"),
        ("/", "../up", "/up"),
        ("maildir", "", "maildir"),
        ("maildir", ".", "maildir"),
        ("maildir", "x/", "maildir/x"),
        ("maildir/", "x", "maildir/x"),
        ("maildir", "..", "."),
        ("maildir", "../..", ".."),
        ("maildir", "/abs/./x", "/abs/x"),
        ("./a/b", "../up", "a/up"),
        ("/m", "a/../b", "/m/b"),
        ("/home/u//mail/", "x//y", "/home/u/mail/x/y"),
    ] {
        assert_eq!(join(base, name), expected, "{:?} {:?}", base, name);
        assert_eq!(join(&normalize(base), name), expected, "{:?} {:?}", base, name);
        assert_eq!(normalize(&join(base, name)), expected, "{:?} {:?}", base, name);
    }
}

#[test]
fn paths_end_in_a_name() {
    for path in ["", "/", ".", "..", "./.", "a/..", "../..", "/..", "a/../.."] {
        assert_eq!(file_name(path), None, "{:?}", path);
    }
    for (path, name) in [
        ("a", "a"),
        ("a/", "a"),
        ("a/b", "b"),
        ("/a", "a"),
        ("a/.", "a"),
        ("./a", "a"),
        ("a//", "a"),
        ("a/b/../c", "c"),
        ("a/./", "a"),
        ("/x/y/..", "x"),
        ("../x", "x"),
    ] {
        assert_eq!(file_name(path), Some(name.to_string()), "{:?}", path);
    }
    assert_eq!(file_name(&join("/m/..", "box")), Some("box".to_string()));
}
