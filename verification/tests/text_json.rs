use ubike_setter::json::Json;
use ubike_setter::text::{
    chars_of, i64_text, join, parse_i64, parse_usize, replace, string_of, trim_str, u64_text,
};

fn cs(s: &str) -> Vec<char> {
    s.chars().collect()
}

fn from_value(v: &serde_json::Value) -> Json {
    match v {
        serde_json::Value::Null => Json::Null,
        serde_json::Value::Bool(b) => Json::Bool(*b),
        serde_json::Value::Number(n) => Json::Number(n.to_string()),
        serde_json::Value::String(s) => Json::Str(s.clone()),
        serde_json::Value::Array(a) => Json::Array(a.iter().map(from_value).collect()),
        serde_json::Value::Object(m) => {
            Json::Object(m.iter().map(|(k, v)| (k.clone(), from_value(v))).collect())
        }
    }
}

#[test]
fn trim_removes_unicode_space() {
    assert_eq!(trim_str("  \u{3000}台北車站\t\n"), "台北車站");
    assert_eq!(trim_str("   "), "");
    assert_eq!(trim_str("a b"), "a b");
}

#[test]
fn parse_usize_follows_std() {
    for s in ["0", "12", "+7", "007", "", "+", "-1", "1a", "18446744073709551616", "18446744073709551615"] {
        assert_eq!(parse_usize(&cs(s)), s.parse::<usize>().ok(), "{s}");
    }
}

#[test]
fn parse_i64_follows_std() {
    for s in ["0", "-12", "+7", "-", "+", "", "9223372036854775807", "9223372036854775808", "-9223372036854775808", "-9223372036854775809", "3.0", "1e3"] {
        assert_eq!(parse_i64(&cs(s)), s.parse::<i64>().ok(), "{s}");
    }
}

#[test]
fn decimal_text() {
    assert_eq!(string_of(&u64_text(0)), "0");
    assert_eq!(string_of(&u64_text(18446744073709551615)), "18446744073709551615");
    assert_eq!(string_of(&i64_text(-42)), "-42");
    assert_eq!(string_of(&i64_text(i64::MIN)), i64::MIN.to_string());
}

#[test]
fn replace_follows_std() {
    for (s, p, r) in [("YouBike2.0_捷運站", "YouBike2.0_", ""), ("aaaa", "aa", "b"), ("abcabc", "c", "xy"), ("short", "longer pattern", "")] {
        assert_eq!(string_of(&replace(&cs(s), &cs(p), &cs(r))), s.replace(p, r));
    }
}

#[test]
fn join_follows_std() {
    let parts = vec!["a".to_string(), "b".to_string(), "c".to_string()];
    assert_eq!(join(&parts, "、"), "a、b、c");
    assert_eq!(join(&Vec::new(), "、"), "");
    assert_eq!(string_of(&chars_of("手環")), "手環");
}

#[test]
fn json_get_and_as_str() {
    let v: serde_json::Value = serde_json::from_str(r#"{"a":"x","b":1}"#).unwrap();
    let j = from_value(&v);
    assert_eq!(j.get("a").and_then(|x| x.as_str()).map(|s| s.as_str()), Some("x"));
    assert!(j.get("b").unwrap().as_str().is_none());
    assert!(j.get("c").is_none());
    assert!(Json::Str("a".into()).get("a").is_none());
}
