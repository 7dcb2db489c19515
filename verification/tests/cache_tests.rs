use load_feedback::cache::{accepts, member_text, value_in, CacheEntry, CacheSource};
use serde_json::Value;

fn map_entry(body: &str) -> CacheEntry {
    CacheEntry { raw_value: body.as_bytes().to_vec(), written_at: 7, source: CacheSource::ClusterMap }
}

fn scalar_entry(body: &[u8]) -> CacheEntry {
    CacheEntry { raw_value: body.to_vec(), written_at: 7, source: CacheSource::Scalar }
}

#[test]
fn scalar_accepts_any_utf8() {
    assert!(accepts(CacheSource::Scalar, b"load:27"));
    assert!(accepts(CacheSource::Scalar, b""));
    assert!(accepts(CacheSource::Scalar, "gr\u{fc}n".as_bytes()));
    assert!(accepts(CacheSource::Scalar, b"{not json"));
}

#[test]
fn scalar_rejects_bytes_that_are_not_utf8() {
    assert!(!accepts(CacheSource::Scalar, &[0xff, 0xfe]));
    assert!(!accepts(CacheSource::Scalar, &[b'a', 0xc3]));
}

#[test]
fn map_accepts_json_objects_only() {
    assert!(accepts(CacheSource::ClusterMap, b"{}"));
    assert!(accepts(CacheSource::ClusterMap, br#"{"ngsa-memory/ngsa": "rate=5"}"#));
    assert!(accepts(CacheSource::ClusterMap, br#" {"a": 1, "b": [true, null]} "#));
    assert!(!accepts(CacheSource::ClusterMap, br#"["a/b"]"#));
    assert!(!accepts(CacheSource::ClusterMap, br#""text""#));
    assert!(!accepts(CacheSource::ClusterMap, b"27"));
    assert!(!accepts(CacheSource::ClusterMap, b"null"));
}

#[test]
fn map_rejects_what_is_not_json() {
    assert!(!accepts(CacheSource::ClusterMap, b""));
    assert!(!accepts(CacheSource::ClusterMap, b"load:27"));
    assert!(!accepts(CacheSource::ClusterMap, br#"{"a": "b""#));
    assert!(!accepts(CacheSource::ClusterMap, br#"{"a": "b"} trailing"#));
    assert!(!accepts(CacheSource::ClusterMap, &[b'{', b'}', 0xff]));
}

#[test]
fn scalar_value_is_the_body() {
    assert_eq!(scalar_entry(b"load:27").scalar(), Some("load:27".to_string()));
    assert_eq!(scalar_entry(b"").scalar(), Some(String::new()));
    assert_eq!(scalar_entry(&[0xff]).scalar(), None);
}

#[test]
fn lookup_finds_text_members() {
    let entry = map_entry(r#"{"ngsa-memory/ngsa": "rate=5", "other/svc": "rate=9"}"#);
    assert_eq!(entry.lookup("ngsa-memory/ngsa"), Some("rate=5".to_string()));
    assert_eq!(entry.lookup("other/svc"), Some("rate=9".to_string()));
}

#[test]
fn lookup_of_absent_key_finds_nothing() {
    let entry = map_entry(r#"{"ngsa-memory/ngsa": "rate=5"}"#);
    assert_eq!(entry.lookup("ngsa/ngsa-memory"), None);
    assert_eq!(entry.lookup("ngsa-memory"), None);
}

#[test]
fn lookup_of_empty_key_finds_nothing() {
    let entry = map_entry(r#"{"": "hidden", "a/b": "shown"}"#);
    assert_eq!(entry.lookup(""), None);
    assert_eq!(entry.lookup("a/b"), Some("shown".to_string()));
}

#[test]
fn lookup_of_member_that_is_no_text_finds_nothing() {
    let entry = map_entry(r#"{"a/b": 5, "c/d": null, "e/f": {"g": "h"}, "i/j": ["k"], "l/m": true}"#);
    assert_eq!(entry.lookup("a/b"), None);
    assert_eq!(entry.lookup("c/d"), None);
    assert_eq!(entry.lookup("e/f"), None);
    assert_eq!(entry.lookup("i/j"), None);
    assert_eq!(entry.lookup("l/m"), None);
}

#[test]
fn lookup_in_a_body_that_is_no_object_finds_nothing() {
    assert_eq!(map_entry("not json").lookup("a/b"), None);
    assert_eq!(map_entry(r#"["a/b"]"#).lookup("a/b"), None);
    assert_eq!(map_entry(r#""a/b""#).lookup("a/b"), None);
    let broken = CacheEntry {
        raw_value: vec![0xff],
        written_at: 0,
        source: CacheSource::ClusterMap,
    };
    assert_eq!(broken.lookup("a/b"), None);
}

#[test]
fn lookup_unescapes_json_text() {
    let entry = map_entry("{\"a\\/b\": \"tab\\there \u{e4}\"}");
    assert_eq!(entry.lookup("a/b"), Some("tab\there \u{e4}".to_string()));
}

#[test]
fn last_of_repeated_keys_wins() {
    let entry = map_entry(r#"{"a/b": "first", "a/b": "second"}"#);
    assert_eq!(entry.lookup("a/b"), Some("second".to_string()));
}

#[test]
fn value_follows_the_source() {
    assert_eq!(scalar_entry(b"load:27").value("any/key"), Some("load:27".to_string()));
    assert_eq!(scalar_entry(b"load:27").value(""), Some("load:27".to_string()));
    let entry = map_entry(r#"{"a/b": "x"}"#);
    assert_eq!(entry.value("a/b"), Some("x".to_string()));
    assert_eq!(entry.value("b/a"), None);
    assert_eq!(entry.value(""), None);
}

#[test]
fn member_text_reads_objects_only() {
    let document: Value = serde_json::from_str(r#"{"a/b": "x", "c/d": 4, "": "hidden"}"#).unwrap();
    assert_eq!(member_text(&document, "a/b"), Some("x".to_string()));
    assert_eq!(member_text(&document, "c/d"), None);
    assert_eq!(member_text(&document, "e/f"), None);
    assert_eq!(member_text(&document, ""), None);
    assert_eq!(member_text(&Value::String("a/b".to_string()), "a/b"), None);
    assert_eq!(member_text(&Value::Null, "a/b"), None);
    assert_eq!(member_text(&Value::Array(vec![Value::String("a/b".to_string())]), "a/b"), None);
}

#[test]
fn value_in_a_body_follows_the_source() {
    assert_eq!(value_in(CacheSource::Scalar, b"load:27", "a/b"), Some("load:27".to_string()));
    assert_eq!(value_in(CacheSource::Scalar, &[0xff], "a/b"), None);
    let body = br#"{"a/b": "x"}"#;
    assert_eq!(value_in(CacheSource::ClusterMap, body, "a/b"), Some("x".to_string()));
    assert_eq!(value_in(CacheSource::ClusterMap, body, "b/a"), None);
    assert_eq!(value_in(CacheSource::ClusterMap, body, ""), None);
    assert_eq!(value_in(CacheSource::ClusterMap, b"load:27", "a/b"), None);
    assert_eq!(
        value_in(CacheSource::Scalar, body, "a/b"),
        Some(r#"{"a/b": "x"}"#.to_string())
    );
}
