use livesearch::matcher::Matcher;
use livesearch::scan::{contains_nul, scan_file};

fn matcher(pattern: &str) -> Matcher {
    Matcher::compile(&pattern.to_string()).expect("pattern should compile")
}

fn scan(pattern: &str, path: &str, bytes: &[u8]) -> Vec<(String, u64, String)> {
    let m = matcher(pattern);
    let evs = scan_file(&m, &path.to_string(), &bytes.to_vec());
    evs.into_iter().map(|e| (e.path, e.line, e.text)).collect()
}

#[test]
fn fixture_tree_matches() {
    let a = scan("o", "fixtures/a.txt", b"hello\nworld\n");
    assert_eq!(
        a,
        vec![
            ("fixtures/a.txt".to_string(), 1, "hello".to_string()),
            ("fixtures/a.txt".to_string(), 2, "world".to_string()),
        ]
    );
    let b = scan("o", "fixtures/b.txt", b"goodbye\n");
    assert_eq!(b, vec![("fixtures/b.txt".to_string(), 1, "goodbye".to_string())]);
}

#[test]
fn exact_set_of_matching_lines() {
    let evs = scan("a", "f", b"abc\nxyz\nna\nqqq\n");
    assert_eq!(
        evs,
        vec![("f".to_string(), 1, "abc".to_string()), ("f".to_string(), 3, "na".to_string())]
    );
}

#[test]
fn line_order_is_ascending() {
    let evs = scan("e", "f", b"one\ntwo\nthree\nfour\nfive\n");
    let lines: Vec<u64> = evs.iter().map(|e| e.1).collect();
    assert_eq!(lines, vec![1, 3, 5]);
    for w in lines.windows(2) {
        assert!(w[0] < w[1]);
    }
}

#[test]
fn nul_byte_suppresses_whole_file() {
    assert!(contains_nul(&b"hello\0world".to_vec()));
    assert!(!contains_nul(&b"hello world".to_vec()));
    // textual lines precede the NUL, yet nothing is reported
    let evs = scan("o", "f", b"hello\nworld\n\0junk\n");
    assert_eq!(evs, vec![]);
}

#[test]
fn trailing_line_without_newline_counts() {
    let evs = scan("two", "f", b"one\ntwo");
    assert_eq!(evs, vec![("f".to_string(), 2, "two".to_string())]);
}

#[test]
fn empty_file_yields_nothing() {
    let evs = scan("o", "f", b"");
    assert_eq!(evs, vec![]);
}

#[test]
fn anchors_are_line_oriented() {
    let evs = scan("^w", "f", b"hello\nworld\n");
    assert_eq!(evs, vec![("f".to_string(), 2, "world".to_string())]);
    let none = scan("O", "f", b"hello\nworld\n");
    assert_eq!(none, vec![]);
}

#[test]
fn invalid_bytes_decode_lossily() {
    let evs = scan("o", "f", &[b'f', 0xFF, b'o', b'\n']);
    assert_eq!(evs.len(), 1);
    assert_eq!(evs[0].1, 1);
    assert_eq!(evs[0].2, "f\u{FFFD}o");
}

#[test]
fn invalid_pattern_is_rejected() {
    assert!(Matcher::compile(&"[".to_string()).is_none());
    assert!(Matcher::compile(&"o".to_string()).is_some());
    // the empty pattern is a valid regex; policy handles it before compiling
    assert!(Matcher::compile(&String::new()).is_some());
}
