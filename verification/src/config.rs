//! Per-channel configuration blocks. Each block is optional: absence of a
//! block disables its channel. A block is loaded once at process start and
//! never mutated.

use vstd::prelude::*;

verus! {

/// SMTP email configuration.
#[derive(Debug, Clone)]
pub struct EmailConfig {
    /// SMTP server address.
    pub smtp_server: String,
    /// SMTP account; also the default sender address.
    pub smtp_user: String,
    /// SMTP password.
    pub smtp_pass: String,
    /// SMTP port.
    pub smtp_port: u16,
}

/// The SMTP port used when the configuration names none.
pub fn default_smtp_port() -> (p: u16)
    ensures
        p == 587,
{
    587
}

/// SMS gateway configuration.
#[derive(Debug, Clone)]
pub struct SmsConfig {
    /// Gateway endpoint.
    pub endpoint: String,
    /// Access key identifier.
    pub access_key_id: String,
    /// Access key secret; the signing key is this secret followed by `&`.
    pub access_key_secret: String,
    /// Signature display name sent with each message.
    pub sign_name: String,
    /// Default template code, if any.
    pub template_code: Option<String>,
    /// Region identifier.
    pub region_id: String,
}

/// The region identifier used when the configuration names none.
pub fn default_region_id() -> (r: String)
    ensures
        r@ == "cn-hangzhou"@,
{
    String::from_str("cn-hangzhou")
}

/// Feishu webhook configuration.
#[derive(Debug, Clone)]
pub struct FeishuConfig {
    /// Webhook URL.
    pub webhook: String,
    /// Signing secret; signing is skipped when absent.
    pub secret: Option<String>,
}

/// Dingding webhook configuration.
#[derive(Debug, Clone)]
pub struct DingdingConfig {
    /// Webhook URL.
    pub webhook: String,
    /// Signing secret; signing is skipped when absent.
    pub secret: Option<String>,
}

/// Enterprise chat webhook configuration. The channel is recognized but
/// has no adapter; the block is carried for completeness.
#[derive(Debug, Clone)]
pub struct WechatConfig {
    /// Webhook URL.
    pub webhook: String,
}

/// The notification service configuration: one optional block per channel.
#[derive(Debug, Clone)]
pub struct NotifyServiceConfig {
    /// Email block; absence disables the channel.
    pub email: Option<EmailConfig>,
    /// SMS block; absence disables the channel.
    pub sms: Option<SmsConfig>,
    /// Feishu block; absence disables the channel.
    pub feishu: Option<FeishuConfig>,
    /// Dingding block; absence disables the channel.
    pub dingding: Option<DingdingConfig>,
    /// Enterprise chat block; carried but never used by an adapter.
    pub wechat: Option<WechatConfig>,
}

} // verus!
