//! The value types the dispatcher works on: the channel tags, the
//! notification record, and the closed message sub-type sets of the two IM
//! channels.

use vstd::prelude::*;
use crate::strutil::str_eq;

verus! {

/// The closed set of delivery channels. Only the first four have adapters;
/// the rest are recognized but unsupported.
#[derive(Debug, Clone, Copy, PartialEq, Eq, Structural, Hash)]
pub enum ChannelType {
    /// Email over SMTP.
    Email,
    /// SMS through a signed gateway.
    Sms,
    /// Feishu webhook.
    ImFeishu,
    /// Dingding webhook.
    ImDingding,
    /// Enterprise chat push; recognized but unsupported.
    ImWechat,
    /// Generic push notifications; recognized but unsupported.
    Push,
    /// In-app messages; recognized but unsupported.
    SiteMessage,
}

/// The wire name of each channel tag.
pub open spec fn spec_channel_str(c: ChannelType) -> Seq<char> {
    match c {
        ChannelType::Email => "email"@,
        ChannelType::Sms => "sms"@,
        ChannelType::ImFeishu => "im_feishu"@,
        ChannelType::ImDingding => "im_dingding"@,
        ChannelType::ImWechat => "im_wechat"@,
        ChannelType::Push => "push"@,
        ChannelType::SiteMessage => "site_message"@,
    }
}

/// The channel tag named by a wire string, if any.
pub open spec fn spec_channel_from_str(s: Seq<char>) -> Option<ChannelType> {
    if s == "email"@ {
        Some(ChannelType::Email)
    } else if s == "sms"@ {
        Some(ChannelType::Sms)
    } else if s == "im_feishu"@ {
        Some(ChannelType::ImFeishu)
    } else if s == "im_dingding"@ {
        Some(ChannelType::ImDingding)
    } else if s == "im_wechat"@ {
        Some(ChannelType::ImWechat)
    } else if s == "push"@ {
        Some(ChannelType::Push)
    } else if s == "site_message"@ {
        Some(ChannelType::SiteMessage)
    } else {
        None
    }
}

/// Whether an adapter exists for the channel.
pub open spec fn spec_channel_supported(c: ChannelType) -> bool {
    match c {
        ChannelType::Email => true,
        ChannelType::Sms => true,
        ChannelType::ImFeishu => true,
        ChannelType::ImDingding => true,
        ChannelType::ImWechat => false,
        ChannelType::Push => false,
        ChannelType::SiteMessage => false,
    }
}

impl ChannelType {
    /// The wire name of this channel tag.
    pub fn as_str(&self) -> (r: &'static str)
        ensures
            r@ == spec_channel_str(*self),
    {
        match self {
            ChannelType::Email => "email",
            ChannelType::Sms => "sms",
            ChannelType::ImFeishu => "im_feishu",
            ChannelType::ImDingding => "im_dingding",
            ChannelType::ImWechat => "im_wechat",
            ChannelType::Push => "push",
            ChannelType::SiteMessage => "site_message",
        }
    }

    /// The channel tag named by a wire string, if any.
    pub fn from_str(s: &str) -> (r: Option<ChannelType>)
        ensures
            r == spec_channel_from_str(s@),
    {
        if str_eq(s, "email") {
            Some(ChannelType::Email)
        } else if str_eq(s, "sms") {
            Some(ChannelType::Sms)
        } else if str_eq(s, "im_feishu") {
            Some(ChannelType::ImFeishu)
        } else if str_eq(s, "im_dingding") {
            Some(ChannelType::ImDingding)
        } else if str_eq(s, "im_wechat") {
            Some(ChannelType::ImWechat)
        } else if str_eq(s, "push") {
            Some(ChannelType::Push)
        } else if str_eq(s, "site_message") {
            Some(ChannelType::SiteMessage)
        } else {
            None
        }
    }

    /// Whether an adapter exists for the channel.
    pub fn supported(&self) -> (r: bool)
        ensures
            r == spec_channel_supported(*self),
    {
        match self {
            ChannelType::Email => true,
            ChannelType::Sms => true,
            ChannelType::ImFeishu => true,
            ChannelType::ImDingding => true,
            ChannelType::ImWechat => false,
            ChannelType::Push => false,
            ChannelType::SiteMessage => false,
        }
    }
}

/// The immutable notification record: sender, recipient, subject, body and
/// channel tag. The body is opaque here; its grammar is channel-dependent.
#[derive(Debug, Clone)]
pub struct Notification {
    /// Sender; used by the email channel.
    pub from: String,
    /// Recipient; used by the email and SMS channels.
    pub to: String,
    /// Subject; used by the email channel.
    pub subject: String,
    /// Message content.
    pub body: String,
    /// Delivery channel.
    pub channel: ChannelType,
}

impl PartialEq for Notification {
    fn eq(&self, other: &Notification) -> (r: bool) {
        str_eq(self.from.as_str(), other.from.as_str()) && str_eq(
            self.to.as_str(),
            other.to.as_str(),
        ) && str_eq(self.subject.as_str(), other.subject.as_str()) && str_eq(
            self.body.as_str(),
            other.body.as_str(),
        ) && self.channel == other.channel
    }
}

impl vstd::std_specs::cmp::PartialEqSpecImpl for Notification {
    open spec fn obeys_eq_spec() -> bool {
        true
    }

    open spec fn eq_spec(&self, other: &Notification) -> bool {
        self.from@ == other.from@ && self.to@ == other.to@ && self.subject@ == other.subject@
            && self.body@ == other.body@ && self.channel == other.channel
    }
}

/// The body of one HTTP request asking for a notification to be sent.
/// `from` and `subject` may be absent on the wire and default to empty.
#[derive(Debug, Clone)]
pub struct SendNotificationRequest {
    /// Sender; used by the email channel, may be empty.
    pub from: String,
    /// Recipient.
    pub to: String,
    /// Subject; may be empty.
    pub subject: String,
    /// Message content.
    pub body: String,
    /// Delivery channel.
    pub channel: ChannelType,
}

impl SendNotificationRequest {
    /// The notification record this request asks to dispatch.
    pub fn into_notification(self) -> (n: Notification)
        ensures
            n.from@ == self.from@,
            n.to@ == self.to@,
            n.subject@ == self.subject@,
            n.body@ == self.body@,
            n.channel == self.channel,
    {
        Notification {
            from: self.from,
            to: self.to,
            subject: self.subject,
            body: self.body,
            channel: self.channel,
        }
    }
}

/// The closed set of Feishu message sub-types, carried in the structured
/// body under the `msg_type` discriminator.
#[derive(Debug, Clone, Copy, PartialEq, Eq, Structural, Hash)]
pub enum FeishuMessageType {
    /// Plain text.
    Text,
    /// Rich text.
    Post,
    /// Image.
    Image,
    /// File.
    File,
    /// Audio.
    Audio,
    /// Video.
    Media,
    /// Sticker.
    Sticker,
    /// Interactive card.
    Interactive,
    /// Group card share.
    ShareChat,
    /// User card share.
    ShareUser,
    /// System message.
    System,
}

/// The wire name of each Feishu sub-type.
pub open spec fn spec_feishu_type_str(t: FeishuMessageType) -> Seq<char> {
    match t {
        FeishuMessageType::Text => "text"@,
        FeishuMessageType::Post => "post"@,
        FeishuMessageType::Image => "image"@,
        FeishuMessageType::File => "file"@,
        FeishuMessageType::Audio => "audio"@,
        FeishuMessageType::Media => "media"@,
        FeishuMessageType::Sticker => "sticker"@,
        FeishuMessageType::Interactive => "interactive"@,
        FeishuMessageType::ShareChat => "share_chat"@,
        FeishuMessageType::ShareUser => "share_user"@,
        FeishuMessageType::System => "system"@,
    }
}

/// The Feishu sub-type named by a discriminator string, if any. The match
/// is case-sensitive; each of the two share sub-types also accepts a
/// spelling without the underscore.
pub open spec fn spec_feishu_type_from_str(s: Seq<char>) -> Option<FeishuMessageType> {
    if s == "text"@ {
        Some(FeishuMessageType::Text)
    } else if s == "post"@ {
        Some(FeishuMessageType::Post)
    } else if s == "image"@ {
        Some(FeishuMessageType::Image)
    } else if s == "file"@ {
        Some(FeishuMessageType::File)
    } else if s == "audio"@ {
        Some(FeishuMessageType::Audio)
    } else if s == "media"@ {
        Some(FeishuMessageType::Media)
    } else if s == "sticker"@ {
        Some(FeishuMessageType::Sticker)
    } else if s == "interactive"@ {
        Some(FeishuMessageType::Interactive)
    } else if s == "share_chat"@ || s == "sharechat"@ {
        Some(FeishuMessageType::ShareChat)
    } else if s == "share_user"@ || s == "shareuser"@ {
        Some(FeishuMessageType::ShareUser)
    } else if s == "system"@ {
        Some(FeishuMessageType::System)
    } else {
        None
    }
}

impl FeishuMessageType {
    /// The Feishu sub-type named by a discriminator string, if any.
    pub fn from_str(s: &str) -> (r: Option<FeishuMessageType>)
        ensures
            r == spec_feishu_type_from_str(s@),
    {
        if str_eq(s, "text") {
            Some(FeishuMessageType::Text)
        } else if str_eq(s, "post") {
            Some(FeishuMessageType::Post)
        } else if str_eq(s, "image") {
            Some(FeishuMessageType::Image)
        } else if str_eq(s, "file") {
            Some(FeishuMessageType::File)
        } else if str_eq(s, "audio") {
            Some(FeishuMessageType::Audio)
        } else if str_eq(s, "media") {
            Some(FeishuMessageType::Media)
        } else if str_eq(s, "sticker") {
            Some(FeishuMessageType::Sticker)
        } else if str_eq(s, "interactive") {
            Some(FeishuMessageType::Interactive)
        } else if str_eq(s, "share_chat") || str_eq(s, "sharechat") {
            Some(FeishuMessageType::ShareChat)
        } else if str_eq(s, "share_user") || str_eq(s, "shareuser") {
            Some(FeishuMessageType::ShareUser)
        } else if str_eq(s, "system") {
            Some(FeishuMessageType::System)
        } else {
            None
        }
    }

    /// The wire name of this sub-type.
    pub fn as_str(&self) -> (r: &'static str)
        ensures
            r@ == spec_feishu_type_str(*self),
    {
        match self {
            FeishuMessageType::Text => "text",
            FeishuMessageType::Post => "post",
            FeishuMessageType::Image => "image",
            FeishuMessageType::File => "file",
            FeishuMessageType::Audio => "audio",
            FeishuMessageType::Media => "media",
            FeishuMessageType::Sticker => "sticker",
            FeishuMessageType::Interactive => "interactive",
            FeishuMessageType::ShareChat => "share_chat",
            FeishuMessageType::ShareUser => "share_user",
            FeishuMessageType::System => "system",
        }
    }
}

/// The closed set of Dingding message sub-types, carried in the structured
/// body under the `msg_type` discriminator.
#[derive(Debug, Clone, Copy, PartialEq, Eq, Structural, Hash)]
pub enum DingdingMessageType {
    /// Plain text.
    Text,
    /// Markdown rich text.
    Markdown,
    /// Link message.
    Link,
    /// Interactive card.
    ActionCard,
    /// Feed card.
    FeedCard,
    /// Image.
    Image,
    /// File.
    File,
    /// Audio.
    Audio,
    /// Video.
    Video,
}

/// The wire name of each Dingding sub-type.
pub open spec fn spec_dingding_type_str(t: DingdingMessageType) -> Seq<char> {
    match t {
        DingdingMessageType::Text => "text"@,
        DingdingMessageType::Markdown => "markdown"@,
        DingdingMessageType::Link => "link"@,
        DingdingMessageType::ActionCard => "actionCard"@,
        DingdingMessageType::FeedCard => "feedCard"@,
        DingdingMessageType::Image => "image"@,
        DingdingMessageType::File => "file"@,
        DingdingMessageType::Audio => "audio"@,
        DingdingMessageType::Video => "video"@,
    }
}

/// The Dingding sub-type named by a discriminator string, if any. The
/// match is case-sensitive; the two card sub-types also accept a spelling
/// with an underscore.
pub open spec fn spec_dingding_type_from_str(s: Seq<char>) -> Option<DingdingMessageType> {
    if s == "text"@ {
        Some(DingdingMessageType::Text)
    } else if s == "markdown"@ {
        Some(DingdingMessageType::Markdown)
    } else if s == "link"@ {
        Some(DingdingMessageType::Link)
    } else if s == "actionCard"@ || s == "actioncard"@ || s == "action_card"@ {
        Some(DingdingMessageType::ActionCard)
    } else if s == "feedCard"@ || s == "feedcard"@ || s == "feed_card"@ {
        Some(DingdingMessageType::FeedCard)
    } else if s == "image"@ {
        Some(DingdingMessageType::Image)
    } else if s == "file"@ {
        Some(DingdingMessageType::File)
    } else if s == "audio"@ {
        Some(DingdingMessageType::Audio)
    } else if s == "video"@ {
        Some(DingdingMessageType::Video)
    } else {
        None
    }
}

impl DingdingMessageType {
    /// The Dingding sub-type named by a discriminator string, if any.
    pub fn from_str(s: &str) -> (r: Option<DingdingMessageType>)
        ensures
            r == spec_dingding_type_from_str(s@),
    {
        if str_eq(s, "text") {
            Some(DingdingMessageType::Text)
        } else if str_eq(s, "markdown") {
            Some(DingdingMessageType::Markdown)
        } else if str_eq(s, "link") {
            Some(DingdingMessageType::Link)
        } else if str_eq(s, "actionCard") || str_eq(s, "actioncard") || str_eq(s, "action_card") {
            Some(DingdingMessageType::ActionCard)
        } else if str_eq(s, "feedCard") || str_eq(s, "feedcard") || str_eq(s, "feed_card") {
            Some(DingdingMessageType::FeedCard)
        } else if str_eq(s, "image") {
            Some(DingdingMessageType::Image)
        } else if str_eq(s, "file") {
            Some(DingdingMessageType::File)
        } else if str_eq(s, "audio") {
            Some(DingdingMessageType::Audio)
        } else if str_eq(s, "video") {
            Some(DingdingMessageType::Video)
        } else {
            None
        }
    }

    /// The wire name of this sub-type.
    pub fn as_str(&self) -> (r: &'static str)
        ensures
            r@ == spec_dingding_type_str(*self),
    {
        match self {
            DingdingMessageType::Text => "text",
            DingdingMessageType::Markdown => "markdown",
            DingdingMessageType::Link => "link",
            DingdingMessageType::ActionCard => "actionCard",
            DingdingMessageType::FeedCard => "feedCard",
            DingdingMessageType::Image => "image",
            DingdingMessageType::File => "file",
            DingdingMessageType::Audio => "audio",
            DingdingMessageType::Video => "video",
        }
    }
}

} // verus!
