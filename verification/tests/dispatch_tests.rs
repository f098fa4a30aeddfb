use notify_dispatch::config::{
    DingdingConfig, EmailConfig, FeishuConfig, NotifyServiceConfig, SmsConfig,
};
use notify_dispatch::dispatch::{dispatch, CallMoment, NotificationHandlerContext, OutboundRequest};
use notify_dispatch::error::{NotifyError, NOTIFY_CONFIG_ERROR};
use notify_dispatch::models::{ChannelType, Notification};
use notify_dispatch::normalize::normalize_message;

use base64::Engine;
use hmac::Mac;

fn empty_config() -> NotifyServiceConfig {
    NotifyServiceConfig { email: None, sms: None, feishu: None, dingding: None, wechat: None }
}

fn notification(channel: ChannelType, body: &str) -> Notification {
    Notification {
        from: String::new(),
        to: String::from("someone"),
        subject: String::new(),
        body: String::from(body),
        channel,
    }
}

fn moment() -> CallMoment {
    CallMoment {
        unix_seconds: 1700000000,
        unix_millis: 1700000000123,
        iso_utc: String::from("2023-11-14T22:13:20Z"),
        nonce: String::from("fixed-nonce"),
    }
}

#[test]
fn dispatch_without_config_is_config_error_for_every_supported_channel() {
    let ctx = NotificationHandlerContext::new(empty_config());
    for (channel, expected) in [
        (ChannelType::Email, "Email sender not configured"),
        (ChannelType::Sms, "SMS sender not configured"),
        (ChannelType::ImFeishu, "Feishu sender not configured"),
        (ChannelType::ImDingding, "Dingding sender not configured"),
    ] {
        match dispatch(&ctx, &notification(channel, "hello")) {
            Err(e) => {
                assert_eq!(e.code(), NOTIFY_CONFIG_ERROR);
                match e {
                    NotifyError::Config(m) => assert_eq!(m.as_str(), expected),
                    _ => panic!("expected a configuration error"),
                }
            },
            Ok(_) => panic!("expected an error for an unconfigured channel"),
        }
    }
}

#[test]
fn dispatch_unsupported_channel_is_config_error_even_when_configured() {
    let cfg = NotifyServiceConfig {
        email: Some(EmailConfig {
            smtp_server: String::from("smtp.example.com"),
            smtp_user: String::from("user@example.com"),
            smtp_pass: String::from("pw"),
            smtp_port: 587,
        }),
        sms: None,
        feishu: None,
        dingding: None,
        wechat: None,
    };
    let ctx = NotificationHandlerContext::new(cfg);
    for (channel, expected) in [
        (ChannelType::ImWechat, "Unsupported channel type: im_wechat"),
        (ChannelType::Push, "Unsupported channel type: push"),
        (ChannelType::SiteMessage, "Unsupported channel type: site_message"),
    ] {
        match dispatch(&ctx, &notification(channel, "x")) {
            Err(NotifyError::Config(m)) => assert_eq!(m.as_str(), expected),
            _ => panic!("expected a configuration error"),
        }
    }
}

#[test]
fn email_dispatch_defaults_empty_sender_to_smtp_user() {
    let cfg = NotifyServiceConfig {
        email: Some(EmailConfig {
            smtp_server: String::from("smtp.example.com"),
            smtp_user: String::from("user@example.com"),
            smtp_pass: String::from("pw"),
            smtp_port: 587,
        }),
        sms: None,
        feishu: None,
        dingding: None,
        wechat: None,
    };
    let ctx = NotificationHandlerContext::new(cfg);
    let mut n = notification(ChannelType::Email, "body");
    n.to = String::from("rcpt@example.com");
    n.subject = String::from("subj");
    match ctx.prepare(&n, &moment()).unwrap() {
        OutboundRequest::Smtp(m) => {
            assert_eq!(m.from.as_str(), "user@example.com");
            assert_eq!(m.to.as_str(), "rcpt@example.com");
            assert_eq!(m.subject.as_str(), "subj");
            assert_eq!(m.body.as_str(), "body");
        },
        _ => panic!("expected an SMTP request"),
    }
    n.from = String::from("given@example.com");
    match ctx.prepare(&n, &moment()).unwrap() {
        OutboundRequest::Smtp(m) => assert_eq!(m.from.as_str(), "given@example.com"),
        _ => panic!("expected an SMTP request"),
    }
}

#[test]
fn sms_dispatch_builds_a_signed_form() {
    let cfg = NotifyServiceConfig {
        email: None,
        sms: Some(SmsConfig {
            endpoint: String::from("https://sms.example.com/"),
            access_key_id: String::from("AKID"),
            access_key_secret: String::from("testsecret"),
            sign_name: String::from("Brand"),
            template_code: None,
            region_id: String::from("cn-hangzhou"),
        }),
        feishu: None,
        dingding: None,
        wechat: None,
    };
    let ctx = NotificationHandlerContext::new(cfg);
    let mut n = notification(ChannelType::Sms, "{\"code\":\"1234\"}");
    n.to = String::from("+8613800000000");
    let at = moment();
    let form = match ctx.prepare(&n, &at).unwrap() {
        OutboundRequest::HttpForm(f) => f,
        _ => panic!("expected a form request"),
    };
    assert_eq!(form.endpoint.as_str(), "https://sms.example.com/");
    assert_eq!(form.form.len(), 13);
    let get = |k: &str| {
        form.form
            .iter()
            .find(|(key, _)| key == k)
            .map(|(_, v)| v.clone())
            .unwrap()
    };
    assert_eq!(get("Action").as_str(), "SendSms");
    assert_eq!(get("Version").as_str(), "2017-05-25");
    assert_eq!(get("RegionId").as_str(), "cn-hangzhou");
    assert_eq!(get("PhoneNumbers").as_str(), "+8613800000000");
    assert_eq!(get("SignName").as_str(), "Brand");
    assert_eq!(get("TemplateCode").as_str(), "SMS_123456789");
    assert_eq!(get("TemplateParam").as_str(), "{\"code\":\"1234\"}");
    assert_eq!(get("AccessKeyId").as_str(), "AKID");
    assert_eq!(get("SignatureMethod").as_str(), "HMAC-SHA1");
    assert_eq!(get("SignatureVersion").as_str(), "1.0");
    assert_eq!(get("SignatureNonce").as_str(), "fixed-nonce");
    assert_eq!(get("Timestamp").as_str(), "2023-11-14T22:13:20Z");

    // Recompute the signature by the documented rule and compare.
    let mut params: Vec<(String, String)> = form.form[..12]
        .iter()
        .map(|(k, v)| (k.clone(), v.clone()))
        .collect();
    params.sort_by(|a, b| a.0.cmp(&b.0));
    let canonical = params
        .iter()
        .map(|(k, v)| {
            format!("{}={}", urlencoding::encode(k), urlencoding::encode(v))
        })
        .collect::<Vec<_>>()
        .join("&");
    let sts = format!("POST&%2F&{}", urlencoding::encode(&canonical));
    let mut mac = hmac::Hmac::<sha1::Sha1>::new_from_slice(b"testsecret&").unwrap();
    mac.update(sts.as_bytes());
    let expected = base64::engine::general_purpose::STANDARD.encode(mac.finalize().into_bytes());
    assert_eq!(form.form[12].0.as_str(), "Signature");
    assert_eq!(form.form[12].1, expected);
}

#[test]
fn webhook_dispatch_prepares_url_and_body() {
    let cfg = NotifyServiceConfig {
        email: None,
        sms: None,
        feishu: Some(FeishuConfig {
            webhook: String::from("https://feishu.example/hook"),
            secret: None,
        }),
        dingding: Some(DingdingConfig {
            webhook: String::from("https://ding.example/robot"),
            secret: None,
        }),
        wechat: None,
    };
    let ctx = NotificationHandlerContext::new(cfg);
    match ctx.prepare(&notification(ChannelType::ImFeishu, "hello"), &moment()).unwrap() {
        OutboundRequest::HttpJson(w) => {
            assert_eq!(w.url.as_str(), "https://feishu.example/hook");
            assert_eq!(
                w.body.as_str(),
                "{\"msg_type\":\"text\",\"content\":{\"text\":\"hello\"}}"
            );
        },
        _ => panic!("expected a webhook request"),
    }
    match ctx.prepare(&notification(ChannelType::ImDingding, "hello"), &moment()).unwrap() {
        OutboundRequest::HttpJson(w) => {
            assert_eq!(w.url.as_str(), "https://ding.example/robot");
            assert_eq!(
                w.body.as_str(),
                "{\"msgtype\":\"text\",\"text\":{\"content\":\"hello\"}}"
            );
        },
        _ => panic!("expected a webhook request"),
    }
}

#[test]
fn dispatch_draws_its_own_clock_and_nonce() {
    let cfg = NotifyServiceConfig {
        email: None,
        sms: None,
        feishu: Some(FeishuConfig {
            webhook: String::from("https://feishu.example/hook"),
            secret: None,
        }),
        dingding: None,
        wechat: None,
    };
    let ctx = NotificationHandlerContext::new(cfg);
    match dispatch(&ctx, &notification(ChannelType::ImFeishu, "hello")).unwrap() {
        OutboundRequest::HttpJson(w) => {
            assert_eq!(w.url.as_str(), "https://feishu.example/hook");
            assert_eq!(
                w.body.as_str(),
                "{\"msg_type\":\"text\",\"content\":{\"text\":\"hello\"}}"
            );
        },
        _ => panic!("expected a webhook request"),
    }
}

#[test]
fn error_codes_are_distinct_and_fixed() {
    let cases = [
        (NotifyError::Smtp(String::new()), 5001),
        (NotifyError::EmailAddress(String::new()), 4001),
        (NotifyError::EmailBuild(String::new()), 5002),
        (NotifyError::Http(String::new()), 5003),
        (NotifyError::Config(String::new()), 5004),
        (NotifyError::Send(String::new()), 5005),
    ];
    for (e, code) in cases {
        assert_eq!(e.code(), code);
    }
}

#[test]
fn envelope_shape_normalizes_sms_payload() {
    let r = normalize_message("{\"channel\":\"sms\",\"payload\":{\"to\":\"+1\",\"param\":\"{}\"}}")
        .unwrap();
    assert_eq!(r.channel, ChannelType::Sms);
    assert_eq!(r.to.as_str(), "+1");
    assert_eq!(r.body.as_str(), "{}");
    assert_eq!(r.from.as_str(), "");
    assert_eq!(r.subject.as_str(), "");
}

#[test]
fn direct_shape_round_trips_through_serialization() {
    let n = Notification {
        from: String::from("a@x.com"),
        to: String::from("b@x.com"),
        subject: String::from("subj"),
        body: String::from("body text"),
        channel: ChannelType::Email,
    };
    let mut m = serde_json::Map::new();
    m.insert("from".to_string(), serde_json::Value::String(n.from.clone()));
    m.insert("to".to_string(), serde_json::Value::String(n.to.clone()));
    m.insert("subject".to_string(), serde_json::Value::String(n.subject.clone()));
    m.insert("body".to_string(), serde_json::Value::String(n.body.clone()));
    m.insert(
        "channel".to_string(),
        serde_json::Value::String(n.channel.as_str().to_string()),
    );
    let wire = serde_json::Value::Object(m).to_string();
    let back = normalize_message(&wire).unwrap();
    assert!(back == n);
}

#[test]
fn envelope_email_requires_its_fields_and_defaults_from() {
    let r = normalize_message(
        "{\"channel\":\"email\",\"payload\":{\"to\":\"t@x\",\"subject\":\"s\",\"body\":\"b\"}}",
    )
    .unwrap();
    assert_eq!(r.from.as_str(), "noreply@example.com");
    assert_eq!(r.to.as_str(), "t@x");
    match normalize_message("{\"channel\":\"email\",\"payload\":{\"to\":\"t@x\",\"body\":\"b\"}}") {
        Err(NotifyError::Config(m)) => {
            assert_eq!(m.as_str(), "missing or invalid 'subject' field in payload")
        },
        _ => panic!("expected a configuration error"),
    }
}

#[test]
fn envelope_im_takes_text_or_body() {
    let r = normalize_message("{\"channel\":\"im_feishu\",\"payload\":{\"text\":\"hi\"}}").unwrap();
    assert_eq!(r.body.as_str(), "hi");
    assert_eq!(r.channel, ChannelType::ImFeishu);
    let r2 =
        normalize_message("{\"channel\":\"im_dingding\",\"payload\":{\"body\":\"yo\"}}").unwrap();
    assert_eq!(r2.body.as_str(), "yo");
    match normalize_message("{\"channel\":\"im_feishu\",\"payload\":{}}") {
        Err(NotifyError::Config(m)) => {
            assert_eq!(m.as_str(), "missing or invalid 'body' field in payload")
        },
        _ => panic!("expected a configuration error"),
    }
}

#[test]
fn normalize_rejects_bad_channel_and_missing_payload() {
    match normalize_message("{\"payload\":{}}") {
        Err(NotifyError::Config(m)) => {
            assert_eq!(m.as_str(), "missing or invalid 'channel' field")
        },
        _ => panic!("expected a configuration error"),
    }
    match normalize_message("{\"channel\":\"bogus\"}") {
        Err(NotifyError::Config(m)) => {
            assert_eq!(m.as_str(), "missing or invalid 'channel' field")
        },
        _ => panic!("expected a configuration error"),
    }
    match normalize_message("{\"channel\":\"sms\"}") {
        Err(NotifyError::Config(m)) => assert_eq!(m.as_str(), "missing 'payload' field"),
        _ => panic!("expected a configuration error"),
    }
    match normalize_message("not json at all") {
        Err(NotifyError::Config(m)) => {
            assert_eq!(m.as_str(), "missing or invalid 'channel' field")
        },
        _ => panic!("expected a configuration error"),
    }
    match normalize_message("{\"channel\":\"push\",\"payload\":{}}") {
        Err(NotifyError::Config(m)) => {
            assert_eq!(m.as_str(), "Unsupported channel type: push")
        },
        _ => panic!("expected a configuration error"),
    }
}

#[test]
fn null_payload_counts_as_present_with_no_fields() {
    match normalize_message("{\"channel\":\"sms\",\"payload\":null}") {
        Err(NotifyError::Config(m)) => {
            assert_eq!(m.as_str(), "missing or invalid 'to' field in payload")
        },
        _ => panic!("expected a configuration error"),
    }
    match normalize_message("{\"channel\":\"email\",\"payload\":null}") {
        Err(NotifyError::Config(m)) => {
            assert_eq!(m.as_str(), "missing or invalid 'to' field in payload")
        },
        _ => panic!("expected a configuration error"),
    }
}
