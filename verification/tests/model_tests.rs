use notify_dispatch::channels::list_channels;
use notify_dispatch::config::{default_region_id, default_smtp_port};
use notify_dispatch::models::{
    ChannelType, DingdingMessageType, FeishuMessageType, Notification, SendNotificationRequest,
};
use notify_dispatch::strutil::{contains_char, i64_to_string, str_eq, str_lt, u64_to_string};

#[test]
fn channel_from_str_known_tags() {
    assert_eq!(ChannelType::from_str("email"), Some(ChannelType::Email));
    assert_eq!(ChannelType::from_str("sms"), Some(ChannelType::Sms));
    assert_eq!(ChannelType::from_str("im_feishu"), Some(ChannelType::ImFeishu));
    assert_eq!(ChannelType::from_str("im_dingding"), Some(ChannelType::ImDingding));
    assert_eq!(ChannelType::from_str("im_wechat"), Some(ChannelType::ImWechat));
    assert_eq!(ChannelType::from_str("push"), Some(ChannelType::Push));
    assert_eq!(ChannelType::from_str("site_message"), Some(ChannelType::SiteMessage));
    assert_eq!(ChannelType::from_str("bogus"), None);
    assert_eq!(ChannelType::from_str(""), None);
}

#[test]
fn channel_as_str_round_trips() {
    let tags = [
        ChannelType::Email,
        ChannelType::Sms,
        ChannelType::ImFeishu,
        ChannelType::ImDingding,
        ChannelType::ImWechat,
        ChannelType::Push,
        ChannelType::SiteMessage,
    ];
    for t in tags {
        assert_eq!(ChannelType::from_str(t.as_str()), Some(t));
    }
}

#[test]
fn channel_supported_flags() {
    assert!(ChannelType::Email.supported());
    assert!(ChannelType::Sms.supported());
    assert!(ChannelType::ImFeishu.supported());
    assert!(ChannelType::ImDingding.supported());
    assert!(!ChannelType::ImWechat.supported());
    assert!(!ChannelType::Push.supported());
    assert!(!ChannelType::SiteMessage.supported());
}

#[test]
fn feishu_type_from_str_cases() {
    assert_eq!(FeishuMessageType::from_str("text"), Some(FeishuMessageType::Text));
    assert_eq!(FeishuMessageType::from_str("post"), Some(FeishuMessageType::Post));
    assert_eq!(FeishuMessageType::from_str("image"), Some(FeishuMessageType::Image));
    assert_eq!(FeishuMessageType::from_str("file"), Some(FeishuMessageType::File));
    assert_eq!(FeishuMessageType::from_str("audio"), Some(FeishuMessageType::Audio));
    assert_eq!(FeishuMessageType::from_str("media"), Some(FeishuMessageType::Media));
    assert_eq!(FeishuMessageType::from_str("sticker"), Some(FeishuMessageType::Sticker));
    assert_eq!(FeishuMessageType::from_str("interactive"), Some(FeishuMessageType::Interactive));
    assert_eq!(FeishuMessageType::from_str("share_chat"), Some(FeishuMessageType::ShareChat));
    assert_eq!(FeishuMessageType::from_str("sharechat"), Some(FeishuMessageType::ShareChat));
    assert_eq!(FeishuMessageType::from_str("share_user"), Some(FeishuMessageType::ShareUser));
    assert_eq!(FeishuMessageType::from_str("shareuser"), Some(FeishuMessageType::ShareUser));
    assert_eq!(FeishuMessageType::from_str("system"), Some(FeishuMessageType::System));
    assert_eq!(FeishuMessageType::from_str("bogus"), None);
    assert_eq!(FeishuMessageType::from_str("TEXT"), None);
    assert_eq!(FeishuMessageType::from_str("Post"), None);
}

#[test]
fn dingding_type_from_str_cases() {
    assert_eq!(DingdingMessageType::from_str("text"), Some(DingdingMessageType::Text));
    assert_eq!(DingdingMessageType::from_str("markdown"), Some(DingdingMessageType::Markdown));
    assert_eq!(DingdingMessageType::from_str("link"), Some(DingdingMessageType::Link));
    assert_eq!(DingdingMessageType::from_str("actionCard"), Some(DingdingMessageType::ActionCard));
    assert_eq!(DingdingMessageType::from_str("actioncard"), Some(DingdingMessageType::ActionCard));
    assert_eq!(DingdingMessageType::from_str("action_card"), Some(DingdingMessageType::ActionCard));
    assert_eq!(DingdingMessageType::from_str("feedCard"), Some(DingdingMessageType::FeedCard));
    assert_eq!(DingdingMessageType::from_str("feedcard"), Some(DingdingMessageType::FeedCard));
    assert_eq!(DingdingMessageType::from_str("feed_card"), Some(DingdingMessageType::FeedCard));
    assert_eq!(DingdingMessageType::from_str("image"), Some(DingdingMessageType::Image));
    assert_eq!(DingdingMessageType::from_str("file"), Some(DingdingMessageType::File));
    assert_eq!(DingdingMessageType::from_str("audio"), Some(DingdingMessageType::Audio));
    assert_eq!(DingdingMessageType::from_str("video"), Some(DingdingMessageType::Video));
    assert_eq!(DingdingMessageType::from_str("bogus"), None);
    assert_eq!(DingdingMessageType::from_str("Markdown"), None);
}

#[test]
fn message_type_wire_names() {
    assert_eq!(FeishuMessageType::ShareChat.as_str(), "share_chat");
    assert_eq!(FeishuMessageType::Interactive.as_str(), "interactive");
    assert_eq!(DingdingMessageType::ActionCard.as_str(), "actionCard");
    assert_eq!(DingdingMessageType::FeedCard.as_str(), "feedCard");
}

#[test]
fn channel_directory_has_seven_fixed_entries() {
    let list = list_channels();
    assert_eq!(list.len(), 7);
    let expected = [
        ("email", "邮件", true),
        ("sms", "短信", true),
        ("im_feishu", "飞书", true),
        ("im_dingding", "钉钉", true),
        ("im_wechat", "企业微信", false),
        ("push", "推送通知", false),
        ("site_message", "站内消息", false),
    ];
    for (info, (channel, name, supported)) in list.iter().zip(expected.iter()) {
        assert_eq!(info.channel.as_str(), *channel);
        assert_eq!(info.name.as_str(), *name);
        assert_eq!(info.supported, *supported);
    }
}

#[test]
fn config_defaults() {
    assert_eq!(default_smtp_port(), 587);
    assert_eq!(default_region_id().as_str(), "cn-hangzhou");
}

#[test]
fn request_into_notification_moves_fields() {
    let req = SendNotificationRequest {
        from: String::from("a@x.com"),
        to: String::from("b@x.com"),
        subject: String::from("hi"),
        body: String::from("text"),
        channel: ChannelType::Email,
    };
    let n = req.into_notification();
    assert_eq!(n.from, "a@x.com");
    assert_eq!(n.to, "b@x.com");
    assert_eq!(n.subject, "hi");
    assert_eq!(n.body, "text");
    assert_eq!(n.channel, ChannelType::Email);
}

#[test]
fn notification_equality_is_field_wise() {
    let a = Notification {
        from: String::from("f"),
        to: String::from("t"),
        subject: String::from("s"),
        body: String::from("b"),
        channel: ChannelType::Sms,
    };
    let b = a.clone();
    assert!(a == b);
    let c = Notification { body: String::from("other"), ..a.clone() };
    assert!(a != c);
}

#[test]
fn decimal_rendering() {
    assert_eq!(u64_to_string(0).as_str(), "0");
    assert_eq!(u64_to_string(7).as_str(), "7");
    assert_eq!(u64_to_string(10).as_str(), "10");
    assert_eq!(u64_to_string(1234567890).as_str(), "1234567890");
    assert_eq!(u64_to_string(u64::MAX).as_str(), "18446744073709551615");
    assert_eq!(i64_to_string(0).as_str(), "0");
    assert_eq!(i64_to_string(-5).as_str(), "-5");
    assert_eq!(i64_to_string(i64::MAX).as_str(), "9223372036854775807");
    assert_eq!(i64_to_string(i64::MIN).as_str(), "-9223372036854775808");
}

#[test]
fn string_helpers() {
    assert!(str_eq("abc", "abc"));
    assert!(!str_eq("abc", "abd"));
    assert!(!str_eq("abc", "ab"));
    assert!(str_lt("A", "B"));
    assert!(str_lt("Action", "Version"));
    assert!(!str_lt("b", "a"));
    assert!(str_lt("ab", "abc"));
    assert!(contains_char("a?b", '?'));
    assert!(!contains_char("ab", '?'));
}
