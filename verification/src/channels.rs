//! The static channel directory exposed at the HTTP boundary: seven
//! entries, one per channel tag, each with its wire name, display name and
//! support flag.

use vstd::prelude::*;
use crate::models::{ChannelType, spec_channel_str, spec_channel_supported};

verus! {

/// One entry of the channel directory.
#[derive(Debug, Clone)]
pub struct ChannelInfo {
    /// The channel's wire name.
    pub channel: String,
    /// The channel's display name.
    pub name: String,
    /// Whether an adapter exists for the channel.
    pub supported: bool,
}

/// The display name of each channel tag.
pub open spec fn spec_channel_name(c: ChannelType) -> Seq<char> {
    match c {
        ChannelType::Email => "邮件"@,
        ChannelType::Sms => "短信"@,
        ChannelType::ImFeishu => "飞书"@,
        ChannelType::ImDingding => "钉钉"@,
        ChannelType::ImWechat => "企业微信"@,
        ChannelType::Push => "推送通知"@,
        ChannelType::SiteMessage => "站内消息"@,
    }
}

/// The order in which the directory lists the channels.
pub open spec fn spec_channel_order() -> Seq<ChannelType> {
    seq![
        ChannelType::Email,
        ChannelType::Sms,
        ChannelType::ImFeishu,
        ChannelType::ImDingding,
        ChannelType::ImWechat,
        ChannelType::Push,
        ChannelType::SiteMessage,
    ]
}

fn channel_info(c: ChannelType, name: &str) -> (r: ChannelInfo)
    requires
        name@ == spec_channel_name(c),
    ensures
        r.channel@ == spec_channel_str(c),
        r.name@ == spec_channel_name(c),
        r.supported == spec_channel_supported(c),
{
    ChannelInfo { channel: String::from_str(c.as_str()), name: String::from_str(name), supported: c.supported() }
}

/// The channel directory: seven entries in a fixed order, one per channel
/// tag, each carrying the tag's wire name, display name and support flag.
pub fn list_channels() -> (r: Vec<ChannelInfo>)
    ensures
        r@.len() == spec_channel_order().len(),
        forall|i: int|
            0 <= i < r@.len() ==> {
                &&& (#[trigger] r@[i]).channel@ == spec_channel_str(spec_channel_order()[i])
                &&& r@[i].name@ == spec_channel_name(spec_channel_order()[i])
                &&& r@[i].supported == spec_channel_supported(spec_channel_order()[i])
            },
{
    let mut v: Vec<ChannelInfo> = Vec::new();
    v.push(channel_info(ChannelType::Email, "邮件"));
    v.push(channel_info(ChannelType::Sms, "短信"));
    v.push(channel_info(ChannelType::ImFeishu, "飞书"));
    v.push(channel_info(ChannelType::ImDingding, "钉钉"));
    v.push(channel_info(ChannelType::ImWechat, "企业微信"));
    v.push(channel_info(ChannelType::Push, "推送通知"));
    v.push(channel_info(ChannelType::SiteMessage, "站内消息"));
    v
}

} // verus!
