//! The Feishu webhook adapter: payload negotiation, the outbound wire
//! body, and the signed webhook URL.
//!
//! The outbound envelope is `{"msg_type":...,"content":...}`, with the
//! blob placed under `card` for the interactive sub-type. When a secret is
//! configured, `timestamp` and `sign` query parameters are appended to the
//! webhook URL; the signature is base64 of an HMAC-SHA256 and is wrapped
//! in literal quote characters in the URL.

use vstd::prelude::*;
use crate::config::FeishuConfig;
use crate::error::NotifyError;
use crate::jsonio::{json_string, json_quote};
use crate::models::{FeishuMessageType, spec_feishu_type_str, spec_feishu_type_from_str};
use crate::payload::{
    DiscriminatorField, IncomingFields, MessageBody, WebhookRequest, extracted_matches,
    spec_blob_or_empty, spec_query_sep, spec_text_resolution, blob_or_empty, extract_incoming,
};
use crate::signing::{spec_feishu_signature, feishu_signature};
use crate::strutil::{int_dec_str, i64_to_string, contains_char};

verus! {

/// A negotiated Feishu message: a sub-type and the payload it carries.
#[derive(Debug, Clone)]
pub struct FeishuMessage {
    /// The message sub-type.
    pub msg_type: FeishuMessageType,
    /// The payload: resolved text for the text sub-type, a forwarded blob
    /// for every other sub-type.
    pub body: MessageBody,
}

/// The sub-type a structured body negotiates to: text when the
/// discriminator is absent, the named sub-type when it names one, and no
/// sub-type (a hard parse error) otherwise.
pub open spec fn spec_feishu_subtype(f: IncomingFields) -> Option<FeishuMessageType> {
    match f.msg_type {
        DiscriminatorField::Absent => Some(FeishuMessageType::Text),
        DiscriminatorField::Name(s) => spec_feishu_type_from_str(s@),
        DiscriminatorField::Malformed => None,
    }
}

/// The message of the configuration error an unrecognized discriminator
/// raises.
pub open spec fn spec_feishu_bad_type_msg(d: DiscriminatorField) -> Seq<char> {
    match d {
        DiscriminatorField::Name(s) => "Invalid Feishu message type: "@ + s@,
        _ => "Invalid Feishu message type"@,
    }
}

/// How a Feishu negotiation result relates to the raw body and its
/// structured form: a non-object body falls back to a plain-text message
/// of the raw body; an unrecognized discriminator is a configuration
/// error; the text sub-type resolves its text by priority; every other
/// sub-type forwards its blob (the `card` blob for the interactive
/// sub-type, the `content` blob otherwise), defaulting to an empty object.
pub open spec fn feishu_negotiation_matches(
    raw: Seq<char>,
    fields: Option<IncomingFields>,
    r: Result<FeishuMessage, NotifyError>,
) -> bool {
    match fields {
        None => {
            &&& r matches Ok(m)
            &&& m.msg_type == FeishuMessageType::Text
            &&& m.body matches MessageBody::Text(t)
            &&& t@ == raw
        },
        Some(f) => match spec_feishu_subtype(f) {
            None => {
                &&& r matches Err(e)
                &&& e matches NotifyError::Config(msg)
                &&& msg@ == spec_feishu_bad_type_msg(f.msg_type)
            },
            Some(FeishuMessageType::Text) => {
                &&& r matches Ok(m)
                &&& m.msg_type == FeishuMessageType::Text
                &&& m.body matches MessageBody::Text(t)
                &&& t@ == spec_text_resolution(f, raw)
            },
            Some(FeishuMessageType::Interactive) => {
                &&& r matches Ok(m)
                &&& m.msg_type == FeishuMessageType::Interactive
                &&& m.body matches MessageBody::Blob(b)
                &&& b@ == spec_blob_or_empty(f.card)
            },
            Some(ty) => {
                &&& r matches Ok(m)
                &&& m.msg_type == ty
                &&& m.body matches MessageBody::Blob(b)
                &&& b@ == spec_blob_or_empty(f.content)
            },
        },
    }
}

/// Negotiates a Feishu message from the raw body and its structured form,
/// if the body had one.
pub fn negotiate_feishu(raw: &str, fields: Option<IncomingFields>) -> (r: Result<
    FeishuMessage,
    NotifyError,
>)
    ensures
        feishu_negotiation_matches(raw@, fields, r),
{
    match fields {
        None => Ok(
            FeishuMessage {
                msg_type: FeishuMessageType::Text,
                body: MessageBody::Text(String::from_str(raw)),
            },
        ),
        Some(f) => {
            let IncomingFields { msg_type, content, card, nested_text, top_text } = f;
            let ty = match &msg_type {
                DiscriminatorField::Absent => FeishuMessageType::Text,
                DiscriminatorField::Name(s) => match FeishuMessageType::from_str(s.as_str()) {
                    Some(t) => t,
                    None => {
                        return Err(
                            NotifyError::Config(
                                String::from_str("Invalid Feishu message type: ").concat(
                                    s.as_str(),
                                ),
                            ),
                        );
                    },
                },
                DiscriminatorField::Malformed => {
                    return Err(
                        NotifyError::Config(String::from_str("Invalid Feishu message type")),
                    );
                },
            };
            match ty {
                FeishuMessageType::Text => {
                    let text = match nested_text {
                        Some(t) => t,
                        None => match top_text {
                            Some(t) => t,
                            None => String::from_str(raw),
                        },
                    };
                    Ok(FeishuMessage { msg_type: FeishuMessageType::Text, body: MessageBody::Text(text) })
                },
                FeishuMessageType::Interactive => Ok(
                    FeishuMessage {
                        msg_type: FeishuMessageType::Interactive,
                        body: MessageBody::Blob(blob_or_empty(card)),
                    },
                ),
                _ => Ok(FeishuMessage { msg_type: ty, body: MessageBody::Blob(blob_or_empty(content)) }),
            }
        },
    }
}

/// The key the payload stands under in the outbound envelope: `card` for
/// the interactive sub-type, `content` otherwise.
pub open spec fn spec_feishu_payload_key(t: FeishuMessageType) -> Seq<char> {
    if t == FeishuMessageType::Interactive {
        "card"@
    } else {
        "content"@
    }
}

/// The JSON text of the payload: `{"text":...}` for resolved text, the
/// blob itself otherwise.
pub open spec fn spec_feishu_payload(m: FeishuMessage) -> Seq<char> {
    match m.body {
        MessageBody::Text(t) => "{\"text\":"@ + json_string(t@) + "}"@,
        MessageBody::Blob(b) => b@,
    }
}

/// The outbound Feishu envelope:
/// `{"msg_type":"<type>","<key>":<payload>}`.
pub open spec fn spec_feishu_wire(m: FeishuMessage) -> Seq<char> {
    "{\"msg_type\":\""@ + spec_feishu_type_str(m.msg_type) + "\",\""@ + spec_feishu_payload_key(
        m.msg_type,
    ) + "\":"@ + spec_feishu_payload(m) + "}"@
}

/// Renders the outbound JSON body of a negotiated Feishu message.
pub fn feishu_wire_body(m: &FeishuMessage) -> (r: String)
    ensures
        r@ == spec_feishu_wire(*m),
{
    let mut s = String::from_str("{\"msg_type\":\"");
    s.append(m.msg_type.as_str());
    s.append("\",\"");
    if m.msg_type == FeishuMessageType::Interactive {
        s.append("card");
    } else {
        s.append("content");
    }
    s.append("\":");
    match &m.body {
        MessageBody::Text(t) => {
            s.append("{\"text\":");
            let q = json_quote(t.as_str());
            s.append(q.as_str());
            s.append("}");
        },
        MessageBody::Blob(b) => {
            s.append(b.as_str());
        },
    }
    s.append("}");
    proof {
        assert(s@ =~= spec_feishu_wire(*m));
    }
    s
}

/// The URL a Feishu call posts to: the webhook itself without a secret;
/// with one, `timestamp` (seconds) and `sign` query parameters are
/// appended, the signature wrapped in literal quote characters.
pub open spec fn spec_feishu_url(cfg: FeishuConfig, ts_seconds: int) -> Seq<char> {
    match cfg.secret {
        None => cfg.webhook@,
        Some(sec) => cfg.webhook@ + spec_query_sep(cfg.webhook@) + "timestamp="@ + int_dec_str(
            ts_seconds,
        ) + "&sign=\""@ + spec_feishu_signature(ts_seconds, sec@) + "\""@,
    }
}

/// Builds the Feishu webhook URL for one timestamp, signing when a secret
/// is configured.
pub fn feishu_webhook_url(cfg: &FeishuConfig, ts_seconds: i64) -> (u: String)
    ensures
        u@ == spec_feishu_url(*cfg, ts_seconds as int),
{
    match &cfg.secret {
        None => cfg.webhook.clone(),
        Some(sec) => {
            let mut u = cfg.webhook.clone();
            if contains_char(cfg.webhook.as_str(), '?') {
                u.append("&");
            } else {
                u.append("?");
            }
            u.append("timestamp=");
            let ts = i64_to_string(ts_seconds);
            u.append(ts.as_str());
            u.append("&sign=\"");
            let sig = feishu_signature(ts_seconds, sec.as_str());
            u.append(sig.as_str());
            u.append("\"");
            proof {
                assert(u@ =~= spec_feishu_url(*cfg, ts_seconds as int));
            }
            u
        },
    }
}

/// Prepares one Feishu call: negotiates the body's structured form, and on
/// success returns the signed URL and the outbound envelope of the
/// negotiated message.
pub fn feishu_prepare(cfg: &FeishuConfig, body: &str, ts_seconds: i64) -> (r: Result<
    WebhookRequest,
    NotifyError,
>)
    ensures
        match r {
            Ok(w) => w.url@ == spec_feishu_url(*cfg, ts_seconds as int) && exists|
                f: Option<IncomingFields>,
                m: FeishuMessage,
            |
                extracted_matches(body@, "text"@, f) && feishu_negotiation_matches(body@, f, Ok(m))
                    && w.body@ == spec_feishu_wire(m),
            Err(e) => exists|f: Option<IncomingFields>|
                extracted_matches(body@, "text"@, f) && feishu_negotiation_matches(
                    body@,
                    f,
                    Err(e),
                ),
        },
{
    let fields = extract_incoming(body, "text");
    let ghost gf = fields;
    let m = match negotiate_feishu(body, fields) {
        Ok(m) => m,
        Err(e) => {
            proof {
                assert(extracted_matches(body@, "text"@, gf) && feishu_negotiation_matches(
                    body@,
                    gf,
                    Err(e),
                ));
            }
            return Err(e);
        },
    };
    let wire = feishu_wire_body(&m);
    let url = feishu_webhook_url(cfg, ts_seconds);
    let r = WebhookRequest { url, body: wire };
    proof {
        assert(extracted_matches(body@, "text"@, gf) && feishu_negotiation_matches(
            body@,
            gf,
            Ok(m),
        ) && r.body@ == spec_feishu_wire(m));
    }
    Ok(r)
}

} // verus!
