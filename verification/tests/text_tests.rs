use rs_imessage::error::RsImessageError;
use rs_imessage::json::{JsonNumber, JsonValue};
use rs_imessage::text::{
    contains_char, contains_str, i64_text, replace_str, str_eq, strip_prefix, trim, u64_text,
};

#[test]
fn number_texts() {
    assert_eq!(u64_text(0), "0");
    assert_eq!(u64_text(18_446_744_073_709_551_615), "18446744073709551615");
    assert_eq!(i64_text(-42), "-42");
    assert_eq!(i64_text(i64::MIN), "-9223372036854775808");
}

#[test]
fn text_searches() {
    assert!(contains_str("System status: disabled.", "disabled"));
    assert!(!contains_str("abc", "abcd"));
    assert!(contains_str("abc", ""));
    assert!(contains_char("a;b", ';'));
    assert!(str_eq("x", "x"));
    assert!(!str_eq("x", "y"));
}

#[test]
fn replace_trim_strip() {
    assert_eq!(replace_str("a-b-c", "-", "+"), "a+b+c");
    assert_eq!(replace_str("aaa", "aa", "b"), "ba");
    assert_eq!(trim("  hi \n"), "hi");
    assert_eq!(trim("   "), "");
    assert_eq!(strip_prefix("Bearer x", "Bearer "), Some("x".to_string()));
    assert_eq!(strip_prefix("Basic x", "Bearer "), None);
}

#[test]
fn json_lookups() {
    let v = JsonValue::Object(vec![
        ("a".to_string(), JsonValue::Number(JsonNumber::PosInt(5))),
        ("b".to_string(), JsonValue::Bool(true)),
        ("c".to_string(), JsonValue::String("s".to_string())),
        ("d".to_string(), JsonValue::Number(JsonNumber::PosInt(u64::MAX))),
    ]);
    assert_eq!(v.get("a").and_then(|x| x.as_u64()), Some(5));
    assert_eq!(v.get("a").and_then(|x| x.as_i64()), Some(5));
    assert_eq!(v.get("b").and_then(|x| x.as_bool()), Some(true));
    assert_eq!(v.get("c").and_then(|x| x.as_str()), Some("s"));
    assert_eq!(v.get("d").and_then(|x| x.as_i64()), None);
    assert_eq!(v.get("z"), None);
    assert_eq!(JsonValue::Null.get("a"), None);
    assert_eq!(JsonValue::Number(JsonNumber::NegInt(-3)).as_u64(), None);
}

#[test]
fn error_messages() {
    assert_eq!(RsImessageError::Database("x".to_string()).message(), "database: x");
    assert_eq!(RsImessageError::Io("x".to_string()).message(), "io: x");
    assert_eq!(RsImessageError::Json("x".to_string()).message(), "json: x");
    assert_eq!(RsImessageError::Watch("x".to_string()).message(), "watch: x");
    assert_eq!(RsImessageError::Rpc("x".to_string()).message(), "rpc: x");
    assert_eq!(RsImessageError::PrivateApi("x".to_string()).message(), "private-api: x");
    assert_eq!(RsImessageError::Other("x".to_string()).message(), "x");
}

#[test]
fn trim_agrees_with_std_on_every_white_space() {
    for c in (0u32..0x3100).chain([0xfeff, 0x180e, 0x200b]).filter_map(char::from_u32) {
        let t = format!("{c}x{c}");
        assert_eq!(trim(&t), t.trim(), "char {:#x}", c as u32);
    }
}
