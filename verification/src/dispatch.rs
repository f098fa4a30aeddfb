//! The dispatch context: one optional adapter configuration per channel,
//! the routing of a notification to its channel, channel-specific
//! defaulting, and the uniform error mapping.
//!
//! Dispatching here prepares the outbound exchange — the signed URL and
//! body of a webhook call, the signed form of an SMS call, the message of
//! an SMTP submission — and the caller performs the single network
//! exchange. A channel with no configured block fails with a configuration
//! error; a channel with no adapter fails with one regardless of
//! configuration.

use vstd::prelude::*;
use crate::config::{DingdingConfig, EmailConfig, FeishuConfig, NotifyServiceConfig, SmsConfig};
use crate::dingding::{dingding_negotiation_matches, dingding_prepare, spec_dingding_url, DingdingMessage, spec_dingding_wire};
use crate::error::NotifyError;
use crate::feishu::{feishu_negotiation_matches, feishu_prepare, spec_feishu_url, FeishuMessage, spec_feishu_wire};
use crate::models::{ChannelType, Notification, spec_channel_str, spec_channel_supported};
use crate::payload::{IncomingFields, WebhookRequest, extracted_matches};
use crate::sms::{sms_params_match, sms_prepare, spec_sms_signature, SmsRequest};

verus! {

/// Relies on `chrono::Utc::now().timestamp()`: the clock's seconds since
/// the epoch; nothing is assumed of the value.
#[verifier::external_body]
pub(crate) fn now_unix_seconds() -> (t: i64) {
    chrono::Utc::now().timestamp()
}

/// Relies on `chrono::Utc::now().timestamp_millis()`: the clock's
/// milliseconds since the epoch; nothing is assumed of the value.
#[verifier::external_body]
pub(crate) fn now_unix_millis() -> (t: i64) {
    chrono::Utc::now().timestamp_millis()
}

/// Relies on `chrono`'s formatter: the current UTC time rendered as
/// `YYYY-MM-DDTHH:MM:SSZ`; nothing is assumed of the value.
#[verifier::external_body]
pub(crate) fn now_iso8601_utc() -> (t: String) {
    chrono::Utc::now().format("%Y-%m-%dT%H:%M:%SZ").to_string()
}

/// Relies on `uuid::Uuid::new_v4`: a fresh random identifier in its
/// hyphenated rendering; nothing is assumed of the value.
#[verifier::external_body]
pub(crate) fn new_nonce() -> (r: String) {
    uuid::Uuid::new_v4().to_string()
}

/// The per-call inputs an adapter draws from the environment: the clock in
/// the three forms the adapters use, and a fresh nonce.
#[derive(Debug, Clone)]
pub struct CallMoment {
    /// Seconds since the epoch.
    pub unix_seconds: i64,
    /// Milliseconds since the epoch.
    pub unix_millis: i64,
    /// The moment rendered as `YYYY-MM-DDTHH:MM:SSZ`.
    pub iso_utc: String,
    /// A fresh random nonce.
    pub nonce: String,
}

impl CallMoment {
    /// Reads the clock and draws a fresh nonce.
    pub fn now() -> CallMoment {
        CallMoment {
            unix_seconds: now_unix_seconds(),
            unix_millis: now_unix_millis(),
            iso_utc: now_iso8601_utc(),
            nonce: new_nonce(),
        }
    }
}

/// The message of an SMTP submission, fully defaulted.
#[derive(Debug, Clone)]
pub struct EmailRequest {
    /// Sender address.
    pub from: String,
    /// Recipient address.
    pub to: String,
    /// Subject line.
    pub subject: String,
    /// Message body.
    pub body: String,
}

/// One prepared outbound exchange, ready for its transport.
#[derive(Debug, Clone)]
pub enum OutboundRequest {
    /// An SMTP submission.
    Smtp(EmailRequest),
    /// An HTTP POST of a form to the SMS gateway.
    HttpForm(SmsRequest),
    /// An HTTP POST of a JSON body to a webhook.
    HttpJson(WebhookRequest),
}

/// The dispatch context: at most one adapter configuration per channel,
/// populated once at startup. A channel's adapter exists exactly when its
/// block is present.
#[derive(Debug)]
pub struct NotificationHandlerContext {
    /// Email block; absence disables the channel.
    pub email: Option<EmailConfig>,
    /// SMS block; absence disables the channel.
    pub sms: Option<SmsConfig>,
    /// Feishu block; absence disables the channel.
    pub feishu: Option<FeishuConfig>,
    /// Dingding block; absence disables the channel.
    pub dingding: Option<DingdingConfig>,
}

/// The sender the email channel uses when the notification's `from` is
/// empty: the configured SMTP account.
pub open spec fn spec_email_from(cfg: EmailConfig, from: Seq<char>) -> Seq<char> {
    if from.len() == 0 {
        cfg.smtp_user@
    } else {
        from
    }
}

/// How one dispatch result relates to the context, the notification and
/// the per-call inputs. Per channel: with no configured block, a
/// configuration error naming the channel; with one, the prepared
/// exchange — the defaulted SMTP message, the signed SMS form, or the
/// signed webhook call of the negotiated body. A channel without an
/// adapter is a configuration error regardless of configuration.
pub open spec fn dispatch_matches(
    ctx: NotificationHandlerContext,
    n: Notification,
    at: CallMoment,
    r: Result<OutboundRequest, NotifyError>,
) -> bool {
    match n.channel {
        ChannelType::Email => match ctx.email {
            None => {
                &&& r matches Err(e)
                &&& e matches NotifyError::Config(m)
                &&& m@ == "Email sender not configured"@
            },
            Some(cfg) => {
                &&& r matches Ok(o)
                &&& o matches OutboundRequest::Smtp(m)
                &&& m.from@ == spec_email_from(cfg, n.from@)
                &&& m.to@ == n.to@
                &&& m.subject@ == n.subject@
                &&& m.body@ == n.body@
            },
        },
        ChannelType::Sms => match ctx.sms {
            None => {
                &&& r matches Err(e)
                &&& e matches NotifyError::Config(m)
                &&& m@ == "SMS sender not configured"@
            },
            Some(cfg) => {
                &&& r matches Ok(o)
                &&& o matches OutboundRequest::HttpForm(f)
                &&& f.endpoint@ == cfg.endpoint@
                &&& f.form@.len() == 13
                &&& sms_params_match(cfg, n.to@, n.body@, at.nonce@, at.iso_utc@, f.form@.take(12))
                &&& f.form@[12].0@ == "Signature"@
                &&& f.form@[12].1@ == spec_sms_signature(cfg.access_key_secret@, f.form@.take(12))
            },
        },
        ChannelType::ImFeishu => match ctx.feishu {
            None => {
                &&& r matches Err(e)
                &&& e matches NotifyError::Config(m)
                &&& m@ == "Feishu sender not configured"@
            },
            Some(cfg) => match r {
                Ok(o) => {
                    &&& o matches OutboundRequest::HttpJson(w)
                    &&& w.url@ == spec_feishu_url(cfg, at.unix_seconds as int)
                    &&& exists|f: Option<IncomingFields>, m: FeishuMessage|
                        extracted_matches(n.body@, "text"@, f) && feishu_negotiation_matches(
                            n.body@,
                            f,
                            Ok(m),
                        ) && w.body@ == spec_feishu_wire(m)
                },
                Err(e) => exists|f: Option<IncomingFields>|
                    extracted_matches(n.body@, "text"@, f) && feishu_negotiation_matches(
                        n.body@,
                        f,
                        Err(e),
                    ),
            },
        },
        ChannelType::ImDingding => match ctx.dingding {
            None => {
                &&& r matches Err(e)
                &&& e matches NotifyError::Config(m)
                &&& m@ == "Dingding sender not configured"@
            },
            Some(cfg) => match r {
                Ok(o) => {
                    &&& o matches OutboundRequest::HttpJson(w)
                    &&& w.url@ == spec_dingding_url(cfg, at.unix_millis as int)
                    &&& exists|f: Option<IncomingFields>, m: DingdingMessage|
                        extracted_matches(n.body@, "content"@, f) && dingding_negotiation_matches(
                            n.body@,
                            f,
                            Ok(m),
                        ) && w.body@ == spec_dingding_wire(m)
                },
                Err(e) => exists|f: Option<IncomingFields>|
                    extracted_matches(n.body@, "content"@, f) && dingding_negotiation_matches(
                        n.body@,
                        f,
                        Err(e),
                    ),
            },
        },
        _ => {
            &&& r matches Err(e)
            &&& e matches NotifyError::Config(m)
            &&& m@ == "Unsupported channel type: "@ + spec_channel_str(n.channel)
        },
    }
}

impl NotificationHandlerContext {
    /// Builds the context from the service configuration: each channel's
    /// adapter exists exactly when its block is present.
    pub fn new(config: NotifyServiceConfig) -> (s: NotificationHandlerContext)
        ensures
            s.email == config.email,
            s.sms == config.sms,
            s.feishu == config.feishu,
            s.dingding == config.dingding,
    {
        NotificationHandlerContext {
            email: config.email,
            sms: config.sms,
            feishu: config.feishu,
            dingding: config.dingding,
        }
    }

    /// Routes one notification to its channel's adapter and prepares the
    /// outbound exchange, with the per-call inputs given by the caller.
    /// Fails with a configuration error — never a panic — when the
    /// channel's block is absent or the channel has no adapter.
    pub fn prepare(&self, n: &Notification, at: &CallMoment) -> (r: Result<
        OutboundRequest,
        NotifyError,
    >)
        ensures
            dispatch_matches(*self, *n, *at, r),
    {
        match n.channel {
            ChannelType::Email => match &self.email {
                None => Err(
                    NotifyError::Config(String::from_str("Email sender not configured")),
                ),
                Some(cfg) => {
                    let from = if n.from.as_str().is_empty() {
                        cfg.smtp_user.clone()
                    } else {
                        n.from.clone()
                    };
                    Ok(
                        OutboundRequest::Smtp(
                            EmailRequest {
                                from,
                                to: n.to.clone(),
                                subject: n.subject.clone(),
                                body: n.body.clone(),
                            },
                        ),
                    )
                },
            },
            ChannelType::Sms => match &self.sms {
                None => Err(NotifyError::Config(String::from_str("SMS sender not configured"))),
                Some(cfg) => Ok(
                    OutboundRequest::HttpForm(
                        sms_prepare(
                            cfg,
                            n.to.as_str(),
                            n.body.as_str(),
                            at.nonce.as_str(),
                            at.iso_utc.as_str(),
                        ),
                    ),
                ),
            },
            ChannelType::ImFeishu => match &self.feishu {
                None => Err(
                    NotifyError::Config(String::from_str("Feishu sender not configured")),
                ),
                Some(cfg) => match feishu_prepare(cfg, n.body.as_str(), at.unix_seconds) {
                    Ok(w) => Ok(OutboundRequest::HttpJson(w)),
                    Err(e) => Err(e),
                },
            },
            ChannelType::ImDingding => match &self.dingding {
                None => Err(
                    NotifyError::Config(String::from_str("Dingding sender not configured")),
                ),
                Some(cfg) => match dingding_prepare(cfg, n.body.as_str(), at.unix_millis) {
                    Ok(w) => Ok(OutboundRequest::HttpJson(w)),
                    Err(e) => Err(e),
                },
            },
            _ => {
                let msg = String::from_str("Unsupported channel type: ").concat(
                    n.channel.as_str(),
                );
                Err(NotifyError::Config(msg))
            },
        }
    }

    /// As `prepare`, reading the clock and drawing a fresh nonce for the
    /// per-call inputs.
    pub fn prepare_now(&self, n: &Notification) -> (r: Result<OutboundRequest, NotifyError>)
        ensures
            exists|at: CallMoment| dispatch_matches(*self, *n, at, r),
    {
        let at = CallMoment::now();
        let r = self.prepare(n, &at);
        proof {
            assert(dispatch_matches(*self, *n, at, r));
        }
        r
    }
}

/// Routes one notification through the context: the single entry point of
/// the dispatch layer. Fails with a configuration error, never a panic,
/// when the notification's channel has no configured adapter.
pub fn dispatch(ctx: &NotificationHandlerContext, n: &Notification) -> (r: Result<
    OutboundRequest,
    NotifyError,
>)
    ensures
        exists|at: CallMoment| dispatch_matches(*ctx, *n, at, r),
{
    ctx.prepare_now(n)
}

/// With no configured block for a supported channel, and for every channel
/// without an adapter, dispatch fails with a configuration error and with
/// nothing else.
pub proof fn lemma_dispatch_unconfigured_is_config_error(
    ctx: NotificationHandlerContext,
    n: Notification,
    at: CallMoment,
    r: Result<OutboundRequest, NotifyError>,
)
    requires
        dispatch_matches(ctx, n, at, r),
        match n.channel {
            ChannelType::Email => ctx.email is None,
            ChannelType::Sms => ctx.sms is None,
            ChannelType::ImFeishu => ctx.feishu is None,
            ChannelType::ImDingding => ctx.dingding is None,
            _ => true,
        },
    ensures
        r matches Err(e) && e matches NotifyError::Config(m),
{
}

/// A channel without an adapter fails with a configuration error whatever
/// the configuration holds.
pub proof fn lemma_dispatch_unsupported_is_config_error(
    ctx: NotificationHandlerContext,
    n: Notification,
    at: CallMoment,
    r: Result<OutboundRequest, NotifyError>,
)
    requires
        dispatch_matches(ctx, n, at, r),
        !spec_channel_supported(n.channel),
    ensures
        r matches Err(e) && e matches NotifyError::Config(m) && m@ == "Unsupported channel type: "@
            + spec_channel_str(n.channel),
{
}

} // verus!
