use std::path::Path;
use hadron_core::float_bits::{le_bits, lt_bits};
use hadron_core::pairs::{get_value, insert_pair};
use hadron_core::paths::{components_of, extension_of, file_name_of, paths_equal, starts_with_path};
use hadron_core::text::{
    field_after_colon, find_str, lines_of, parse_bool, parse_u16, parse_u64, pieces_of,
    split_trimmed, str_contains, str_ends_with, str_starts_with, trim_str, u64_to_string,
    words_of,
};

fn strings(v: &[&str]) -> Vec<String> {
    v.iter().map(|s| s.to_string()).collect()
}

#[test]
fn lines_match_str_lines() {
    for text in ["", "a", "a\n", "\n", "a\r\nb\r", "a\n\nb\n", "x\r\n\r\n", "\r"] {
        let expected: Vec<String> = text.lines().map(|l| l.to_string()).collect();
        assert_eq!(lines_of(text), expected, "{:?}", text);
    }
}

#[test]
fn words_match_split_whitespace() {
    for text in ["", "  a  b\tc\n", "one", " \u{3000}x\u{a0}y ", "\n\n"] {
        let expected: Vec<String> = text.split_whitespace().map(|l| l.to_string()).collect();
        assert_eq!(words_of(text), expected, "{:?}", text);
    }
}

#[test]
fn pieces_and_fields() {
    for text in ["", "a,b", ",,", "a, b ,c"] {
        let expected: Vec<String> = text.split(',').map(|l| l.to_string()).collect();
        assert_eq!(pieces_of(text, ','), expected);
        let trimmed: Vec<String> = text.split(',').map(|l| l.trim().to_string()).collect();
        assert_eq!(split_trimmed(text, ','), trimmed);
    }
    for text in ["no colon", "a:b", "a:b:c", ":", "k: v "] {
        let expected = text.split(':').nth(1).map(|s| s.to_string());
        assert_eq!(field_after_colon(text), expected, "{:?}", text);
    }
}

#[test]
fn searching() {
    assert_eq!(find_str("hello world", "o"), Some(4));
    assert_eq!(find_str("hello", ""), Some(0));
    assert_eq!(find_str("hello", "z"), None);
    assert_eq!(find_str("héllo wörld", "w"), Some(6));
    assert!(str_contains("abc", "bc"));
    assert!(str_starts_with("abc", "ab"));
    assert!(str_ends_with("abc", "bc"));
    assert!(!str_ends_with("abc", "abcd"));
    assert_eq!(trim_str("\t x y \n"), "x y");
}

#[test]
fn numbers() {
    assert_eq!(parse_u64("18446744073709551615"), Some(u64::MAX));
    assert_eq!(parse_u64("18446744073709551616"), None);
    assert_eq!(parse_u64("+12"), Some(12));
    assert_eq!(parse_u64("-1"), None);
    assert_eq!(parse_u64(""), None);
    assert_eq!(parse_u64("1 2"), None);
    assert_eq!(parse_u16("65535"), Some(65535));
    assert_eq!(parse_u16("65536"), None);
    assert_eq!(parse_bool("true"), Some(true));
    assert_eq!(parse_bool("True"), None);
    assert_eq!(u64_to_string(0), "0");
    assert_eq!(u64_to_string(1234567890), "1234567890");
}

#[test]
fn paths_behave_like_std_paths() {
    for p in ["/a/b/c.txt", "a//b/./c", "/", "", ".", "./x", "../y", "dir/", "/x/.."] {
        let expected: Vec<String> = Path::new(p).components().map(|c| c.as_os_str().to_string_lossy().to_string()).collect();
        let got: Vec<String> = components_of(p).into_iter().map(|c| c.into_iter().collect()).collect();
        assert_eq!(got, expected, "{:?}", p);
        assert_eq!(file_name_of(p), Path::new(p).file_name().map(|f| f.to_string_lossy().to_string()), "{:?}", p);
        assert_eq!(extension_of(p), Path::new(p).extension().map(|f| f.to_string_lossy().to_string()), "{:?}", p);
    }
    for (a, b) in [("/media/x", "/media"), ("/mediax", "/media"), ("a/b", "a/"), ("/a", "a")] {
        assert_eq!(starts_with_path(a, b), Path::new(a).starts_with(b), "{} {}", a, b);
    }
    assert!(paths_equal("/a/b/", "/a//b"));
    assert!(!paths_equal("/a/b", "/a/c"));
    assert_eq!(extension_of(".bashrc"), None);
    assert_eq!(extension_of("archive.tar.gz"), Some("gz".to_string()));
}

#[test]
fn key_value_pairs() {
    let mut v: Vec<(String, String)> = Vec::new();
    insert_pair(&mut v, "a".to_string(), "1".to_string());
    insert_pair(&mut v, "b".to_string(), "2".to_string());
    insert_pair(&mut v, "a".to_string(), "3".to_string());
    assert_eq!(v.len(), 2);
    assert_eq!(get_value(&v, "a"), Some(&"3".to_string()));
    assert_eq!(get_value(&v, "c"), None);
    let _ = strings(&[]);
}

#[test]
fn float_bit_comparisons() {
    let b = |x: f64| x.to_bits();
    assert!(le_bits(b(1.0), b(2.0)));
    assert!(le_bits(b(-3.0), b(-2.5)));
    assert!(le_bits(b(-0.0), b(0.0)));
    assert!(le_bits(b(0.0), b(-0.0)));
    assert!(!le_bits(b(f64::NAN), b(1.0)));
    assert!(lt_bits(b(7.0), b(7.0000001)));
    assert!(!lt_bits(b(7.0), b(7.0)));
    assert!(!lt_bits(b(-0.0), b(0.0)));
    assert!(lt_bits(b(f64::NEG_INFINITY), b(-1e300)));
}
