use containerd_mcp::extract::{extract_bool, extract_string, extract_u32, parse_string_list, parse_string_map};
use containerd_mcp::json::{Json, JsonNumber};

fn string(s: &str) -> Json {
    Json::Str(s.to_string())
}

fn document(members: Vec<(&str, Json)>) -> Json {
    Json::Object(members.into_iter().map(|(k, v)| (k.to_string(), v)).collect())
}

#[test]
fn get_finds_member() {
    let doc = document(vec![("a", string("x")), ("b", Json::Bool(true))]);
    assert_eq!(doc.get("a").and_then(|v| v.as_str()), Some("x"));
    assert_eq!(doc.get("b").and_then(|v| v.as_bool()), Some(true));
    assert!(doc.get("c").is_none());
}

#[test]
fn get_prefers_later_member() {
    let doc = document(vec![("a", string("first")), ("a", string("second"))]);
    assert_eq!(doc.get("a").and_then(|v| v.as_str()), Some("second"));
}

#[test]
fn get_on_non_object_is_absent() {
    assert!(string("a").get("a").is_none());
    assert!(Json::Array(vec![string("a")]).get("a").is_none());
}

#[test]
fn extract_string_rejects_other_shapes() {
    let doc = document(vec![("name", Json::Number(JsonNumber::PosInt(3)))]);
    assert_eq!(extract_string(&doc, "name"), None);
    assert_eq!(extract_string(&doc, "missing"), None);
}

#[test]
fn extract_u32_takes_only_what_fits_32_bits() {
    let doc = document(vec![
        ("small", Json::Number(JsonNumber::PosInt(7))),
        ("large", Json::Number(JsonNumber::PosInt(4294967296 + 5))),
        ("negative", Json::Number(JsonNumber::NegInt(-1))),
        ("real", Json::Number(JsonNumber::Float(0x3ff8000000000000))),
    ]);
    assert_eq!(extract_u32(&doc, "small"), Some(7));
    assert_eq!(extract_u32(&doc, "large"), None);
    assert_eq!(extract_u32(&doc, "negative"), None);
    assert_eq!(extract_u32(&doc, "real"), None);
}

#[test]
fn extract_bool_takes_only_booleans() {
    let doc = document(vec![("tty", Json::Bool(true)), ("stdin", string("true"))]);
    assert_eq!(extract_bool(&doc, "tty"), Some(true));
    assert_eq!(extract_bool(&doc, "stdin"), None);
}

#[test]
fn string_list_needs_every_element_a_string() {
    let good = Json::Array(vec![string("sh"), string("-c")]);
    assert_eq!(parse_string_list(&good), Some(vec!["sh".to_string(), "-c".to_string()]));
    let bad = Json::Array(vec![string("sh"), Json::Null]);
    assert_eq!(parse_string_list(&bad), None);
    assert_eq!(parse_string_list(&string("sh")), None);
    assert_eq!(parse_string_list(&Json::Array(vec![])), Some(vec![]));
}

#[test]
fn string_map_needs_every_member_a_string() {
    let good = document(vec![("a", string("1")), ("b", string("2"))]);
    let m = parse_string_map(&good).unwrap();
    assert_eq!(m.len(), 2);
    assert_eq!(m.get("a").map(|s| s.as_str()), Some("1"));
    assert_eq!(m.get("b").map(|s| s.as_str()), Some("2"));
    let bad = document(vec![("a", string("1")), ("b", Json::Bool(false))]);
    assert!(parse_string_map(&bad).is_none());
    assert!(parse_string_map(&Json::Array(vec![])).is_none());
}

#[test]
fn string_map_judges_the_later_of_two_members() {
    let doc = document(vec![("a", Json::Null), ("a", string("kept"))]);
    let m = parse_string_map(&doc).unwrap();
    assert_eq!(m.len(), 1);
    assert_eq!(m.get("a").map(|s| s.as_str()), Some("kept"));
    let doc = document(vec![("a", string("lost")), ("a", Json::Null)]);
    assert!(parse_string_map(&doc).is_none());
}

#[test]
fn clone_keeps_the_document() {
    let doc = document(vec![("a", Json::Array(vec![string("x"), Json::Null]))]);
    let copy = doc.clone();
    assert_eq!(format!("{:?}", copy), format!("{:?}", doc));
}
