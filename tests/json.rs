use ataraxia::json::{same_text, Json};
use ataraxia::models::VoiceChannel;

#[test]
fn parse_and_read_fields() {
    let j = Json::parse(r#"{"a":"x","n":42,"big":18446744073709551616,"neg":-1,"f":1.5}"#).unwrap();
    assert_eq!(j.str_field("a"), Some("x".to_string()));
    assert_eq!(j.str_field("n"), None);
    assert_eq!(j.get("n").and_then(|v| v.as_u64()), Some(42));
    assert_eq!(j.get("big").and_then(|v| v.as_u64()), None);
    assert_eq!(j.get("neg").and_then(|v| v.as_u64()), None);
    assert_eq!(j.get("f").and_then(|v| v.as_u64()), None);
    assert!(j.get("missing").is_none());
}

#[test]
fn not_json_is_none() {
    assert!(Json::parse("{").is_none());
    assert!(Json::parse("").is_none());
}

#[test]
fn take_fields_by_value() {
    let j = Json::parse(r#"{"data":{"k":1},"clear":["Icon"],"x":true}"#).unwrap();
    let (data, clear) = j.take2("data", "clear");
    assert!(matches!(data, Some(Json::Object(_))));
    assert!(matches!(clear, Some(Json::Array(ref a)) if a.len() == 1));
    let k = Json::parse(r#"{"v":null}"#).unwrap();
    assert!(matches!(k.take("v"), Some(Json::Null)));
}

#[test]
fn encode_is_compact_with_sorted_keys() {
    let j = Json::Object(vec![
        ("b".to_string(), Json::UInt(1)),
        ("a".to_string(), Json::Array(vec![Json::Bool(true), Json::Null, Json::Str("s".to_string())])),
    ]);
    assert_eq!(j.to_text(), r#"{"a":[true,null,"s"],"b":1}"#);
}

#[test]
fn text_equality() {
    assert!(same_text("abc", "abc"));
    assert!(!same_text("abc", "abd"));
}

#[test]
fn voice_channel_token() {
    let j = Json::parse(r#"{"token":"vt"}"#).unwrap();
    assert_eq!(VoiceChannel::from_json(&j).map(|v| v.token), Some("vt".to_string()));
    assert!(VoiceChannel::from_json(&Json::parse("{}").unwrap()).is_none());
}
