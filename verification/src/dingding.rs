//! The Dingding webhook adapter: payload negotiation, the outbound wire
//! body, and the signed webhook URL.
//!
//! The outbound envelope is `{"msgtype":...}` with the payload under a key
//! equal to the sub-type's wire name; the text payload is
//! `{"content":...}`. When a secret is configured, `timestamp`
//! (milliseconds) and `sign` query parameters are appended to the webhook
//! URL; the signature is base64 of an HMAC-SHA256, percent-encoded.

use vstd::prelude::*;
use crate::config::DingdingConfig;
use crate::error::NotifyError;
use crate::jsonio::{json_string, json_quote};
use crate::models::{DingdingMessageType, spec_dingding_type_str, spec_dingding_type_from_str};
use crate::payload::{
    DiscriminatorField, IncomingFields, MessageBody, WebhookRequest, extracted_matches,
    spec_blob_or_empty, spec_query_sep, spec_text_resolution, blob_or_empty, extract_incoming,
};
use crate::signing::{spec_dingding_signature, dingding_signature};
use crate::strutil::{int_dec_str, i64_to_string, contains_char};

verus! {

/// A negotiated Dingding message: a sub-type and the payload it carries.
#[derive(Debug, Clone)]
pub struct DingdingMessage {
    /// The message sub-type.
    pub msg_type: DingdingMessageType,
    /// The payload: resolved text for the text sub-type, a forwarded blob
    /// for every other sub-type.
    pub body: MessageBody,
}

/// The sub-type a structured body negotiates to: text when the
/// discriminator is absent, the named sub-type when it names one, and no
/// sub-type (a hard parse error) otherwise.
pub open spec fn spec_dingding_subtype(f: IncomingFields) -> Option<DingdingMessageType> {
    match f.msg_type {
        DiscriminatorField::Absent => Some(DingdingMessageType::Text),
        DiscriminatorField::Name(s) => spec_dingding_type_from_str(s@),
        DiscriminatorField::Malformed => None,
    }
}

/// The message of the configuration error an unrecognized discriminator
/// raises.
pub open spec fn spec_dingding_bad_type_msg(d: DiscriminatorField) -> Seq<char> {
    match d {
        DiscriminatorField::Name(s) => "Invalid Dingding message type: "@ + s@,
        _ => "Invalid Dingding message type"@,
    }
}

/// How a Dingding negotiation result relates to the raw body and its
/// structured form: a non-object body falls back to a plain-text message
/// of the raw body; an unrecognized discriminator is a configuration
/// error; the text sub-type resolves its text by priority; every other
/// sub-type forwards its `content` blob, defaulting to an empty object.
pub open spec fn dingding_negotiation_matches(
    raw: Seq<char>,
    fields: Option<IncomingFields>,
    r: Result<DingdingMessage, NotifyError>,
) -> bool {
    match fields {
        None => {
            &&& r matches Ok(m)
            &&& m.msg_type == DingdingMessageType::Text
            &&& m.body matches MessageBody::Text(t)
            &&& t@ == raw
        },
        Some(f) => match spec_dingding_subtype(f) {
            None => {
                &&& r matches Err(e)
                &&& e matches NotifyError::Config(msg)
                &&& msg@ == spec_dingding_bad_type_msg(f.msg_type)
            },
            Some(DingdingMessageType::Text) => {
                &&& r matches Ok(m)
                &&& m.msg_type == DingdingMessageType::Text
                &&& m.body matches MessageBody::Text(t)
                &&& t@ == spec_text_resolution(f, raw)
            },
            Some(ty) => {
                &&& r matches Ok(m)
                &&& m.msg_type == ty
                &&& m.body matches MessageBody::Blob(b)
                &&& b@ == spec_blob_or_empty(f.content)
            },
        },
    }
}

/// Negotiates a Dingding message from the raw body and its structured
/// form, if the body had one.
pub fn negotiate_dingding(raw: &str, fields: Option<IncomingFields>) -> (r: Result<
    DingdingMessage,
    NotifyError,
>)
    ensures
        dingding_negotiation_matches(raw@, fields, r),
{
    match fields {
        None => Ok(
            DingdingMessage {
                msg_type: DingdingMessageType::Text,
                body: MessageBody::Text(String::from_str(raw)),
            },
        ),
        Some(f) => {
            let IncomingFields { msg_type, content, card: _, nested_text, top_text } = f;
            let ty = match &msg_type {
                DiscriminatorField::Absent => DingdingMessageType::Text,
                DiscriminatorField::Name(s) => match DingdingMessageType::from_str(s.as_str()) {
                    Some(t) => t,
                    None => {
                        return Err(
                            NotifyError::Config(
                                String::from_str("Invalid Dingding message type: ").concat(
                                    s.as_str(),
                                ),
                            ),
                        );
                    },
                },
                DiscriminatorField::Malformed => {
                    return Err(
                        NotifyError::Config(String::from_str("Invalid Dingding message type")),
                    );
                },
            };
            match ty {
                DingdingMessageType::Text => {
                    let text = match nested_text {
                        Some(t) => t,
                        None => match top_text {
                            Some(t) => t,
                            None => String::from_str(raw),
                        },
                    };
                    Ok(
                        DingdingMessage {
                            msg_type: DingdingMessageType::Text,
                            body: MessageBody::Text(text),
                        },
                    )
                },
                _ => Ok(
                    DingdingMessage { msg_type: ty, body: MessageBody::Blob(blob_or_empty(content)) },
                ),
            }
        },
    }
}

/// The JSON text of the payload: `{"content":...}` for resolved text, the
/// blob itself otherwise.
pub open spec fn spec_dingding_payload(m: DingdingMessage) -> Seq<char> {
    match m.body {
        MessageBody::Text(t) => "{\"content\":"@ + json_string(t@) + "}"@,
        MessageBody::Blob(b) => b@,
    }
}

/// The outbound Dingding envelope:
/// `{"msgtype":"<type>","<type>":<payload>}` — the payload key equals the
/// sub-type's wire name.
pub open spec fn spec_dingding_wire(m: DingdingMessage) -> Seq<char> {
    "{\"msgtype\":\""@ + spec_dingding_type_str(m.msg_type) + "\",\""@ + spec_dingding_type_str(
        m.msg_type,
    ) + "\":"@ + spec_dingding_payload(m) + "}"@
}

/// Renders the outbound JSON body of a negotiated Dingding message.
pub fn dingding_wire_body(m: &DingdingMessage) -> (r: String)
    ensures
        r@ == spec_dingding_wire(*m),
{
    let mut s = String::from_str("{\"msgtype\":\"");
    s.append(m.msg_type.as_str());
    s.append("\",\"");
    s.append(m.msg_type.as_str());
    s.append("\":");
    match &m.body {
        MessageBody::Text(t) => {
            s.append("{\"content\":");
            let q = json_quote(t.as_str());
            s.append(q.as_str());
            s.append("}");
        },
        MessageBody::Blob(b) => {
            s.append(b.as_str());
        },
    }
    s.append("}");
    proof {
        assert(s@ =~= spec_dingding_wire(*m));
    }
    s
}

/// The URL a Dingding call posts to: the webhook itself without a secret;
/// with one, `timestamp` (milliseconds) and `sign` query parameters are
/// appended, the signature percent-encoded.
pub open spec fn spec_dingding_url(cfg: DingdingConfig, ts_millis: int) -> Seq<char> {
    match cfg.secret {
        None => cfg.webhook@,
        Some(sec) => cfg.webhook@ + spec_query_sep(cfg.webhook@) + "timestamp="@ + int_dec_str(
            ts_millis,
        ) + "&sign="@ + spec_dingding_signature(ts_millis, sec@),
    }
}

/// Builds the Dingding webhook URL for one timestamp, signing when a
/// secret is configured.
pub fn dingding_webhook_url(cfg: &DingdingConfig, ts_millis: i64) -> (u: String)
    ensures
        u@ == spec_dingding_url(*cfg, ts_millis as int),
{
    match &cfg.secret {
        None => cfg.webhook.clone(),
        Some(sec) => {
            let mut u = cfg.webhook.clone();
            if contains_char(cfg.webhook.as_str(), '?') {
                u.append("&");
            } else {
                u.append("?");
            }
            u.append("timestamp=");
            let ts = i64_to_string(ts_millis);
            u.append(ts.as_str());
            u.append("&sign=");
            let sig = dingding_signature(ts_millis, sec.as_str());
            u.append(sig.as_str());
            proof {
                assert(u@ =~= spec_dingding_url(*cfg, ts_millis as int));
            }
            u
        },
    }
}

/// Prepares one Dingding call: negotiates the body's structured form, and
/// on success returns the signed URL and the outbound envelope of the
/// negotiated message.
pub fn dingding_prepare(cfg: &DingdingConfig, body: &str, ts_millis: i64) -> (r: Result<
    WebhookRequest,
    NotifyError,
>)
    ensures
        match r {
            Ok(w) => w.url@ == spec_dingding_url(*cfg, ts_millis as int) && exists|
                f: Option<IncomingFields>,
                m: DingdingMessage,
            |
                extracted_matches(body@, "content"@, f) && dingding_negotiation_matches(
                    body@,
                    f,
                    Ok(m),
                ) && w.body@ == spec_dingding_wire(m),
            Err(e) => exists|f: Option<IncomingFields>|
                extracted_matches(body@, "content"@, f) && dingding_negotiation_matches(
                    body@,
                    f,
                    Err(e),
                ),
        },
{
    let fields = extract_incoming(body, "content");
    let ghost gf = fields;
    let m = match negotiate_dingding(body, fields) {
        Ok(m) => m,
        Err(e) => {
            proof {
                assert(extracted_matches(body@, "content"@, gf) && dingding_negotiation_matches(
                    body@,
                    gf,
                    Err(e),
                ));
            }
            return Err(e);
        },
    };
    let wire = dingding_wire_body(&m);
    let url = dingding_webhook_url(cfg, ts_millis);
    let r = WebhookRequest { url, body: wire };
    proof {
        assert(extracted_matches(body@, "content"@, gf) && dingding_negotiation_matches(
            body@,
            gf,
            Ok(m),
        ) && r.body@ == spec_dingding_wire(m));
    }
    Ok(r)
}

} // verus!
