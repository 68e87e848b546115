use souris_dw::text::{lines_of, replace_chars, words_of};
use souris_dw::utils::unicode::{normalize_for_compare, normalize_nfc, normalize_nfd, safe_string, safe_string_lossy, strip_bom};
use souris_dw::SourisError;

fn chars(s: &str) -> Vec<char> {
    s.chars().collect()
}

fn text(v: &[char]) -> String {
    v.iter().collect()
}

#[test]
fn replace_matches_std() {
    for (s, from, to) in [("aaa", "aa", "b"), ("a/b/c", "/", "-"), ("abc", "", "x"), ("", "", "x"), ("xyz", "q", "r"), ("ab", "abc", "")] {
        assert_eq!(text(&replace_chars(&chars(s), &chars(from), &chars(to))), s.replace(from, to), "{s} {from} {to}");
    }
}

#[test]
fn lines_match_std() {
    for s in ["", "a", "a\n", "a\r\nb\n\nc", "x\r", "\n\n", "a\rb\n"] {
        let got: Vec<String> = lines_of(&chars(s)).iter().map(|l| text(l)).collect();
        let want: Vec<String> = s.lines().map(|l| l.to_string()).collect();
        assert_eq!(got, want, "{s:?}");
    }
}

#[test]
fn words_match_std() {
    for s in ["", "  ", "ffmpeg version 6.1 Copyright", "\ta\u{3000}b  c "] {
        let got: Vec<String> = words_of(&chars(s)).iter().map(|w| text(w)).collect();
        let want: Vec<String> = s.split_whitespace().map(|w| w.to_string()).collect();
        assert_eq!(got, want, "{s:?}");
    }
}

#[test]
fn unicode_helpers() {
    assert_eq!(normalize_nfc("e\u{301}"), "\u{e9}");
    assert_eq!(normalize_nfd("\u{e9}"), "e\u{301}");
    assert_eq!(normalize_nfc("plain"), "plain");
    assert_eq!(normalize_for_compare("Cafe\u{301}"), "caf\u{e9}");
    assert_eq!(strip_bom("\u{feff}abc"), "abc");
    assert_eq!(strip_bom("abc"), "abc");
    assert_eq!(safe_string("h\u{e9}".as_bytes()).unwrap(), "h\u{e9}");
    match safe_string(&[0x66, 0xff]) {
        Err(SourisError::UnicodeError(m)) => assert!(m.starts_with("Invalid UTF-8: ")),
        _ => panic!("not UTF-8"),
    }
    assert_eq!(safe_string_lossy(&[0x61, 0xff]), "a\u{fffd}");
}
