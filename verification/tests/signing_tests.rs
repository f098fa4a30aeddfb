use base64::Engine;
use hmac::Mac;
use notify_dispatch::jsonio::json_quote;
use notify_dispatch::signing::{dingding_signature, feishu_signature};
use notify_dispatch::sms::{canonical_query_string, sms_string_to_sign, sort_unique_params};

fn hmac_sha256_b64(key: &str, msg: &str) -> String {
    let mut mac = hmac::Hmac::<sha2::Sha256>::new_from_slice(key.as_bytes()).unwrap();
    mac.update(msg.as_bytes());
    base64::engine::general_purpose::STANDARD.encode(mac.finalize().into_bytes())
}

fn pairs(items: &[(&str, &str)]) -> Vec<(String, String)> {
    items.iter().map(|(k, v)| (k.to_string(), v.to_string())).collect()
}

#[test]
fn dingding_signature_matches_hmac_sha256() {
    let t: i64 = 1234567890123;
    let sig = dingding_signature(t, "s");
    let expected = urlencoding::encode(&hmac_sha256_b64("s", "1234567890123\ns")).into_owned();
    assert_eq!(sig, expected);
}

#[test]
fn dingding_signature_is_deterministic() {
    let a = dingding_signature(1700000000000, "secret");
    let b = dingding_signature(1700000000000, "secret");
    assert_eq!(a, b);
}

#[test]
fn dingding_signature_changes_with_timestamp() {
    let a = dingding_signature(1700000000000, "secret");
    let b = dingding_signature(1700000000001, "secret");
    assert_ne!(a, b);
}

#[test]
fn feishu_signature_matches_hmac_sha256() {
    let t: i64 = 1234567890;
    let sig = feishu_signature(t, "s");
    assert_eq!(sig, hmac_sha256_b64("s", "1234567890\ns"));
}

#[test]
fn canonical_query_string_sorts_by_key() {
    let q = canonical_query_string(&pairs(&[("A", "1"), ("B", "2")]));
    assert_eq!(q.as_str(), "A=1&B=2");
    let q2 = canonical_query_string(&pairs(&[("B", "2"), ("A", "1")]));
    assert_eq!(q2.as_str(), "A=1&B=2");
}

#[test]
fn canonical_query_string_percent_encodes() {
    let q = canonical_query_string(&pairs(&[("k y", "v&1"), ("a~b", "x/y")]));
    assert_eq!(q.as_str(), "a~b=x%2Fy&k%20y=v%261");
}

#[test]
fn canonical_query_string_empty() {
    let q = canonical_query_string(&pairs(&[]));
    assert_eq!(q.as_str(), "");
    let sts = sms_string_to_sign(&pairs(&[]));
    assert_eq!(sts.as_str(), "POST&%2F&");
}

#[test]
fn string_to_sign_encodes_the_query() {
    let sts = sms_string_to_sign(&pairs(&[("A", "1"), ("B", "2")]));
    assert_eq!(sts.as_str(), "POST&%2F&A%3D1%26B%3D2");
}

#[test]
fn sort_unique_params_later_value_wins() {
    let sorted = sort_unique_params(&pairs(&[("k", "old"), ("a", "1"), ("k", "new")]));
    let view: Vec<(&str, &str)> =
        sorted.iter().map(|(k, v)| (k.as_str(), v.as_str())).collect();
    assert_eq!(view, vec![("a", "1"), ("k", "new")]);
}

#[test]
fn json_quote_escapes() {
    assert_eq!(json_quote("hello").as_str(), "\"hello\"");
    assert_eq!(json_quote("a\"b\\c\nd").as_str(), "\"a\\\"b\\\\c\\nd\"");
    assert_eq!(json_quote("\u{8}\t\u{c}\r").as_str(), "\"\\b\\t\\f\\r\"");
    assert_eq!(json_quote("\u{1}\u{1f}").as_str(), "\"\\u0001\\u001f\"");
    assert_eq!(json_quote("中文").as_str(), "\"中文\"");
}

#[test]
fn json_quote_matches_serde_json() {
    for s in ["plain", "with \"quotes\" and \\slashes\\", "line\nbreak\ttab", "中文 ok"] {
        let ours = json_quote(s);
        let theirs = serde_json::Value::String(s.to_string()).to_string();
        assert_eq!(ours, theirs);
    }
}
