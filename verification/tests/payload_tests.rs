use notify_dispatch::config::{DingdingConfig, FeishuConfig};
use notify_dispatch::dingding::{
    dingding_prepare, dingding_webhook_url, dingding_wire_body, negotiate_dingding,
    DingdingMessage,
};
use notify_dispatch::error::NotifyError;
use notify_dispatch::feishu::{
    feishu_prepare, feishu_webhook_url, feishu_wire_body, negotiate_feishu, FeishuMessage,
};
use notify_dispatch::models::{DingdingMessageType, FeishuMessageType};
use notify_dispatch::payload::{extract_incoming, MessageBody};

use base64::Engine;
use hmac::Mac;

fn hmac_sha256_b64(key: &str, msg: &str) -> String {
    let mut mac = hmac::Hmac::<sha2::Sha256>::new_from_slice(key.as_bytes()).unwrap();
    mac.update(msg.as_bytes());
    base64::engine::general_purpose::STANDARD.encode(mac.finalize().into_bytes())
}

fn feishu_msg(body: &str) -> Result<FeishuMessage, NotifyError> {
    negotiate_feishu(body, extract_incoming(body, "text"))
}

fn dingding_msg(body: &str) -> Result<DingdingMessage, NotifyError> {
    negotiate_dingding(body, extract_incoming(body, "content"))
}

#[test]
fn feishu_plain_text_falls_back() {
    let m = feishu_msg("hello").unwrap();
    assert_eq!(m.msg_type, FeishuMessageType::Text);
    match &m.body {
        MessageBody::Text(t) => assert_eq!(t.as_str(), "hello"),
        MessageBody::Blob(_) => panic!("expected a text payload"),
    }
    assert_eq!(
        feishu_wire_body(&m).as_str(),
        "{\"msg_type\":\"text\",\"content\":{\"text\":\"hello\"}}"
    );
}

#[test]
fn dingding_plain_text_falls_back() {
    let m = dingding_msg("hello").unwrap();
    assert_eq!(m.msg_type, DingdingMessageType::Text);
    match &m.body {
        MessageBody::Text(t) => assert_eq!(t.as_str(), "hello"),
        MessageBody::Blob(_) => panic!("expected a text payload"),
    }
    assert_eq!(
        dingding_wire_body(&m).as_str(),
        "{\"msgtype\":\"text\",\"text\":{\"content\":\"hello\"}}"
    );
}

#[test]
fn feishu_top_level_text_field() {
    let m = feishu_msg("{\"msg_type\":\"text\",\"text\":\"hi\"}").unwrap();
    match &m.body {
        MessageBody::Text(t) => assert_eq!(t.as_str(), "hi"),
        MessageBody::Blob(_) => panic!("expected a text payload"),
    }
}

#[test]
fn feishu_nested_text_has_priority() {
    let m =
        feishu_msg("{\"msg_type\":\"text\",\"content\":{\"text\":\"inner\"},\"text\":\"outer\"}")
            .unwrap();
    match &m.body {
        MessageBody::Text(t) => assert_eq!(t.as_str(), "inner"),
        MessageBody::Blob(_) => panic!("expected a text payload"),
    }
}

#[test]
fn dingding_nested_text_uses_content_key() {
    let m = dingding_msg("{\"msg_type\":\"text\",\"content\":{\"content\":\"inner\"}}").unwrap();
    match &m.body {
        MessageBody::Text(t) => assert_eq!(t.as_str(), "inner"),
        MessageBody::Blob(_) => panic!("expected a text payload"),
    }
}

#[test]
fn missing_discriminator_defaults_to_text() {
    let m = feishu_msg("{\"text\":\"hi\"}").unwrap();
    assert_eq!(m.msg_type, FeishuMessageType::Text);
    match &m.body {
        MessageBody::Text(t) => assert_eq!(t.as_str(), "hi"),
        MessageBody::Blob(_) => panic!("expected a text payload"),
    }
}

#[test]
fn unknown_discriminator_is_hard_error() {
    match feishu_msg("{\"msg_type\":\"bogus\"}") {
        Err(NotifyError::Config(m)) => {
            assert_eq!(m.as_str(), "Invalid Feishu message type: bogus")
        },
        _ => panic!("expected a configuration error"),
    }
    match dingding_msg("{\"msg_type\":\"bogus\"}") {
        Err(NotifyError::Config(m)) => {
            assert_eq!(m.as_str(), "Invalid Dingding message type: bogus")
        },
        _ => panic!("expected a configuration error"),
    }
}

#[test]
fn feishu_post_forwards_content_blob() {
    let m = feishu_msg("{\"msg_type\":\"post\",\"content\":{\"a\":1}}").unwrap();
    assert_eq!(m.msg_type, FeishuMessageType::Post);
    match &m.body {
        MessageBody::Blob(b) => assert_eq!(b.as_str(), "{\"a\":1}"),
        MessageBody::Text(_) => panic!("expected a blob payload"),
    }
    assert_eq!(
        feishu_wire_body(&m).as_str(),
        "{\"msg_type\":\"post\",\"content\":{\"a\":1}}"
    );
}

#[test]
fn feishu_interactive_uses_card_blob() {
    let m = feishu_msg("{\"msg_type\":\"interactive\",\"card\":{\"k\":\"v\"}}").unwrap();
    assert_eq!(
        feishu_wire_body(&m).as_str(),
        "{\"msg_type\":\"interactive\",\"card\":{\"k\":\"v\"}}"
    );
}

#[test]
fn missing_blob_defaults_to_empty_object() {
    let m = feishu_msg("{\"msg_type\":\"image\"}").unwrap();
    assert_eq!(
        feishu_wire_body(&m).as_str(),
        "{\"msg_type\":\"image\",\"content\":{}}"
    );
    let d = dingding_msg("{\"msg_type\":\"markdown\"}").unwrap();
    assert_eq!(
        dingding_wire_body(&d).as_str(),
        "{\"msgtype\":\"markdown\",\"markdown\":{}}"
    );
}

#[test]
fn dingding_payload_key_equals_type_name() {
    let m = dingding_msg("{\"msg_type\":\"actionCard\",\"content\":{\"title\":\"t\"}}").unwrap();
    assert_eq!(
        dingding_wire_body(&m).as_str(),
        "{\"msgtype\":\"actionCard\",\"actionCard\":{\"title\":\"t\"}}"
    );
}

#[test]
fn text_escaping_reaches_the_wire() {
    let m = feishu_msg("say \"hi\"\nplease").unwrap();
    assert_eq!(
        feishu_wire_body(&m).as_str(),
        "{\"msg_type\":\"text\",\"content\":{\"text\":\"say \\\"hi\\\"\\nplease\"}}"
    );
}

#[test]
fn feishu_url_unsigned_without_secret() {
    let cfg = FeishuConfig { webhook: String::from("https://feishu.example/hook"), secret: None };
    assert_eq!(feishu_webhook_url(&cfg, 1000).as_str(), "https://feishu.example/hook");
}

#[test]
fn feishu_url_signed_with_secret() {
    let cfg = FeishuConfig {
        webhook: String::from("https://feishu.example/hook"),
        secret: Some(String::from("s")),
    };
    let sig = hmac_sha256_b64("s", "1234567890\ns");
    let expected = format!(
        "https://feishu.example/hook?timestamp=1234567890&sign=\"{}\"",
        sig
    );
    assert_eq!(feishu_webhook_url(&cfg, 1234567890).as_str(), expected);
}

#[test]
fn dingding_url_signed_and_encoded() {
    let cfg = DingdingConfig {
        webhook: String::from("https://ding.example/robot?access_token=abc"),
        secret: Some(String::from("s")),
    };
    let sig = urlencoding::encode(&hmac_sha256_b64("s", "1234567890123\ns")).into_owned();
    let expected = format!(
        "https://ding.example/robot?access_token=abc&timestamp=1234567890123&sign={}",
        sig
    );
    assert_eq!(dingding_webhook_url(&cfg, 1234567890123).as_str(), expected);
}

#[test]
fn prepare_bundles_url_and_body() {
    let cfg = FeishuConfig { webhook: String::from("https://feishu.example/hook"), secret: None };
    let w = feishu_prepare(&cfg, "hello", 1).unwrap();
    assert_eq!(w.url.as_str(), "https://feishu.example/hook");
    assert_eq!(
        w.body.as_str(),
        "{\"msg_type\":\"text\",\"content\":{\"text\":\"hello\"}}"
    );
    let dcfg =
        DingdingConfig { webhook: String::from("https://ding.example/robot"), secret: None };
    let d = dingding_prepare(&dcfg, "{\"msg_type\":\"bogus\"}", 1);
    assert!(matches!(d, Err(NotifyError::Config(_))));
}
