use dotsync::text::{
    chain, chain3, contains, copy_texts, decimal, join, matches_at, quote, replace_all, same,
    slice, starts_with, to_chars,
};

fn chars(s: &str) -> Vec<char> {
    s.chars().collect()
}

#[test]
fn to_chars_lists_the_characters() {
    assert_eq!(to_chars("añ✓"), vec!['a', 'ñ', '✓']);
    assert_eq!(to_chars(""), Vec::<char>::new());
}

#[test]
fn contains_finds_a_needle_anywhere() {
    assert!(contains(&chars("abcabd"), &chars("abd")));
    assert!(contains(&chars("abc"), &chars("")));
    assert!(contains(&chars(""), &chars("")));
    assert!(contains(&chars("abc"), &chars("abc")));
    assert!(!contains(&chars("abc"), &chars("abcd")));
    assert!(!contains(&chars("abcabc"), &chars("cb")));
}

#[test]
fn matches_at_checks_one_offset() {
    assert!(matches_at(&chars("hello"), &chars("ll"), 2));
    assert!(!matches_at(&chars("hello"), &chars("ll"), 3));
    assert!(!matches_at(&chars("hello"), &chars("lo"), 4));
    assert!(matches_at(&chars("hello"), &chars(""), 5));
    assert!(!matches_at(&chars("hello"), &chars(""), 6));
}

#[test]
fn starts_with_checks_the_prefix() {
    assert!(starts_with(&chars("git@host"), &chars("git@")));
    assert!(!starts_with(&chars("git"), &chars("git@")));
    assert!(starts_with(&chars("x"), &chars("")));
}

#[test]
fn same_compares_texts() {
    assert!(same("default", "default"));
    assert!(!same("default", "defaults"));
    assert!(!same("a", "b"));
    assert!(same("", ""));
}

#[test]
fn slice_counts_characters() {
    assert_eq!(slice("añ✓b", 1, 3), "ñ✓");
    assert_eq!(slice("abc", 3, 3), "");
}

#[test]
fn chain_appends() {
    assert_eq!(chain("ab", "cd"), "abcd");
    assert_eq!(chain3("a", "", "c"), "ac");
}

#[test]
fn copy_texts_copies() {
    let v = vec!["a".to_string(), "b".to_string()];
    assert_eq!(copy_texts(&v), v);
}

#[test]
fn quote_wraps_in_double_quotes() {
    assert_eq!(quote("/tmp/x"), "\"/tmp/x\"");
}

#[test]
fn decimal_writes_numbers() {
    assert_eq!(decimal(0), "0");
    assert_eq!(decimal(7), "7");
    assert_eq!(decimal(10), "10");
    assert_eq!(decimal(405), "405");
    assert_eq!(decimal(usize::MAX), usize::MAX.to_string());
}

#[test]
fn join_separates_items() {
    let items = vec!["git".to_string(), "curl".to_string(), "vim".to_string()];
    assert_eq!(join(&items, " "), "git curl vim");
    assert_eq!(join(&vec!["one".to_string()], ", "), "one");
    assert_eq!(join(&Vec::new(), ", "), "");
    assert_eq!(join(&vec!["".to_string(), "".to_string()], "-"), "-");
}

#[test]
fn replace_all_replaces_every_occurrence() {
    assert_eq!(replace_all("sudo apt install -y", "sudo ", ""), "apt install -y");
    assert_eq!(replace_all("sudo a && sudo b", "sudo ", ""), "a && b");
    assert_eq!(replace_all("aaa", "aa", "b"), "ba");
    assert_eq!(replace_all("abc", "x", "y"), "abc");
    assert_eq!(replace_all("", "x", "y"), "");
}

#[test]
fn replace_all_agrees_with_the_standard_library() {
    for (text, pattern, with) in [
        ("ab", "", "-"),
        ("", "", "-"),
        ("<$>a <$>b <$>a", "<$>a", "1"),
        ("aaaa", "aa", "a"),
        ("abab", "ab", "abab"),
        ("xyz", "xyz", ""),
        ("naïve ✓ naïve", "ï", "i"),
    ] {
        assert_eq!(replace_all(text, pattern, with), text.replace(pattern, with));
    }
}
