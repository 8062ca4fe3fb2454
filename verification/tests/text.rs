use angy::text::{chars_of, push_decimal, replace, starts_with};

#[test]
fn replace_matches_std() {
    let cases = [
        ("/data/music/a.flac", "/data", "/mnt"),
        ("aaa", "aa", "b"),
        ("abcabc", "abc", ""),
        ("abc", "", "X"),
        ("", "", "X"),
        ("", "a", "b"),
        ("no match here", "zz", "y"),
        ("héllo wörld", "ö", "o"),
        ("xx", "xxx", "y"),
        ("abab", "ab", "abab"),
    ];
    for (s, from, to) in cases {
        assert_eq!(replace(s, from, to), s.replace(from, to), "{s:?} {from:?} {to:?}");
    }
}

#[test]
fn replace_exact_values() {
    assert_eq!(replace("/plex/Music/x.mp3", "/plex", "/srv"), "/srv/Music/x.mp3");
    assert_eq!(replace("abc", "", "-"), "-a-b-c-");
    assert_eq!(replace("aaaa", "aa", "a"), "aa");
}

#[test]
fn replace_by_itself_changes_nothing() {
    for (s, f) in [("banana", "an"), ("banana", ""), ("", "x"), ("aaa", "aa")] {
        assert_eq!(replace(s, f, f), s);
    }
}

#[test]
fn replace_absent_changes_nothing() {
    assert_eq!(replace("hello", "xyz", "Q"), "hello");
}

#[test]
fn starts_with_cases() {
    assert!(starts_with("https://x", "https://"));
    assert!(starts_with("abc", ""));
    assert!(!starts_with("ab", "abc"));
    assert!(!starts_with("http:/", "http://"));
}

#[test]
fn chars_of_cases() {
    assert_eq!(chars_of("aé"), vec!['a', 'é']);
    assert_eq!(chars_of(""), Vec::<char>::new());
}

#[test]
fn decimal_rendering() {
    for n in [0u64, 7, 10, 99, 100, 1234567890, u64::MAX] {
        let mut s = String::from("#");
        push_decimal(&mut s, n);
        assert_eq!(s, format!("#{n}"));
    }
}

#[test]
fn decimal_injective_on_samples() {
    let mut seen = std::collections::HashSet::new();
    for n in 0u64..2000 {
        let mut s = String::new();
        push_decimal(&mut s, n);
        assert!(seen.insert(s));
    }
}
