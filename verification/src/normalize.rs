//! The inbound message normalizer.
//!
//! Two wire shapes are accepted: a direct notification record
//! (`{from,to,subject,body,channel}`, every field present), and a generic
//! envelope (`{channel,payload}`) whose payload keys vary by channel. The
//! direct shape is tried first; missing required envelope fields are a
//! hard parse error naming the key. The JSON reading goes through the
//! trusted wrappers of `jsonio`; the shape rules are applied here.

use vstd::prelude::*;
use crate::error::NotifyError;
use crate::jsonio::{
    json_parse_object, json_get_value, json_get_str, parsed_json_object, json_value_at,
    json_str_at, spec_opt_chars,
};
use crate::models::{ChannelType, Notification, spec_channel_from_str, spec_channel_str};

verus! {

/// What the inbound JSON object holds, read once: each field the two wire
/// shapes may use, present only when it is a string on the wire.
#[derive(Debug, Clone)]
pub struct RawMessage {
    /// Top-level `from`.
    pub from: Option<String>,
    /// Top-level `to`.
    pub to: Option<String>,
    /// Top-level `subject`.
    pub subject: Option<String>,
    /// Top-level `body`.
    pub body: Option<String>,
    /// Top-level `channel`.
    pub channel: Option<String>,
    /// Whether a `payload` object is present.
    pub has_payload: bool,
    /// `from` inside the payload.
    pub p_from: Option<String>,
    /// `to` inside the payload.
    pub p_to: Option<String>,
    /// `subject` inside the payload.
    pub p_subject: Option<String>,
    /// `body` inside the payload.
    pub p_body: Option<String>,
    /// `param` inside the payload.
    pub p_param: Option<String>,
    /// `text` inside the payload.
    pub p_text: Option<String>,
}

/// How the read fields relate to the inbound text: nothing when the text
/// is not a JSON object, else each top-level string field, and the
/// payload's string fields when a `payload` key is present (a null payload
/// counts as present, with no fields).
pub open spec fn message_extracted_matches(data: Seq<char>, r: Option<RawMessage>) -> bool {
    match parsed_json_object(data) {
        None => r is None,
        Some(v) => match r {
            None => false,
            Some(w) => {
                &&& spec_opt_chars(w.from) == json_str_at(v, "from"@)
                &&& spec_opt_chars(w.to) == json_str_at(v, "to"@)
                &&& spec_opt_chars(w.subject) == json_str_at(v, "subject"@)
                &&& spec_opt_chars(w.body) == json_str_at(v, "body"@)
                &&& spec_opt_chars(w.channel) == json_str_at(v, "channel"@)
                &&& match json_value_at(v, "payload"@) {
                    None => {
                        &&& !w.has_payload
                        &&& w.p_from is None
                        &&& w.p_to is None
                        &&& w.p_subject is None
                        &&& w.p_body is None
                        &&& w.p_param is None
                        &&& w.p_text is None
                    },
                    Some(p) => {
                        &&& w.has_payload
                        &&& spec_opt_chars(w.p_from) == json_str_at(p, "from"@)
                        &&& spec_opt_chars(w.p_to) == json_str_at(p, "to"@)
                        &&& spec_opt_chars(w.p_subject) == json_str_at(p, "subject"@)
                        &&& spec_opt_chars(w.p_body) == json_str_at(p, "body"@)
                        &&& spec_opt_chars(w.p_param) == json_str_at(p, "param"@)
                        &&& spec_opt_chars(w.p_text) == json_str_at(p, "text"@)
                    },
                }
            },
        },
    }
}

/// Reads the fields of an inbound JSON object; no result when the text is
/// not a JSON object. A null payload counts as present, with no fields,
/// and each missing required field is then reported by name.
pub fn extract_message(data: &str) -> (r: Option<RawMessage>)
    ensures
        message_extracted_matches(data@, r),
{
    let v = match json_parse_object(data) {
        Some(v) => v,
        None => {
            return None;
        },
    };
    let (has_payload, p_from, p_to, p_subject, p_body, p_param, p_text) = match json_get_value(
        &v,
        "payload",
    ) {
        Some(p) => (
            true,
            json_get_str(&p, "from"),
            json_get_str(&p, "to"),
            json_get_str(&p, "subject"),
            json_get_str(&p, "body"),
            json_get_str(&p, "param"),
            json_get_str(&p, "text"),
        ),
        None => (false, None, None, None, None, None, None),
    };
    Some(
        RawMessage {
            from: json_get_str(&v, "from"),
            to: json_get_str(&v, "to"),
            subject: json_get_str(&v, "subject"),
            body: json_get_str(&v, "body"),
            channel: json_get_str(&v, "channel"),
            has_payload,
            p_from,
            p_to,
            p_subject,
            p_body,
            p_param,
            p_text,
        },
    )
}

/// The parse error raised when a required payload field is absent.
pub open spec fn spec_missing_field_msg(key: Seq<char>) -> Seq<char> {
    "missing or invalid '"@ + key + "' field in payload"@
}

/// Whether `r` is a configuration error carrying exactly `msg`.
pub open spec fn is_config_err(r: Result<Notification, NotifyError>, msg: Seq<char>) -> bool {
    &&& r matches Err(e)
    &&& e matches NotifyError::Config(m)
    &&& m@ == msg
}

/// The channel tag an inbound object names, if any.
pub open spec fn spec_raw_channel(w: RawMessage) -> Option<ChannelType> {
    match w.channel {
        Some(c) => spec_channel_from_str(c@),
        None => None,
    }
}

/// Whether an inbound object carries the direct notification shape: every
/// record field present (the channel valid among them).
pub open spec fn spec_direct_shape(w: RawMessage) -> bool {
    &&& w.from is Some
    &&& w.to is Some
    &&& w.subject is Some
    &&& w.body is Some
    &&& spec_raw_channel(w) is Some
}

/// The sender an email envelope defaults to when its payload names none.
pub open spec fn spec_default_email_from() -> Seq<char> {
    "noreply@example.com"@
}

/// How one normalization result relates to the inbound object. No object,
/// or no valid channel: a parse error naming `channel`. The direct shape:
/// the record itself. The envelope shape: a parse error naming `payload`
/// when the payload is absent, else the channel's required fields — email
/// needs `to`, `subject` and `body` with `from` defaulted; SMS needs `to`
/// and `param` or `body`; the IM channels need `text` or `body`; a missing
/// field is a parse error naming it, and a channel without an adapter is a
/// configuration error.
pub open spec fn normalize_matches(
    raw: Option<RawMessage>,
    r: Result<Notification, NotifyError>,
) -> bool {
    match raw {
        None => is_config_err(r, "missing or invalid 'channel' field"@),
        Some(w) => match spec_raw_channel(w) {
            None => is_config_err(r, "missing or invalid 'channel' field"@),
            Some(channel) => {
                if spec_direct_shape(w) {
                    &&& r matches Ok(n)
                    &&& n.from@ == w.from->0@
                    &&& n.to@ == w.to->0@
                    &&& n.subject@ == w.subject->0@
                    &&& n.body@ == w.body->0@
                    &&& n.channel == channel
                } else if !w.has_payload {
                    is_config_err(r, "missing 'payload' field"@)
                } else {
                    match channel {
                        ChannelType::Email => {
                            if w.p_to is None {
                                is_config_err(r, spec_missing_field_msg("to"@))
                            } else if w.p_subject is None {
                                is_config_err(r, spec_missing_field_msg("subject"@))
                            } else if w.p_body is None {
                                is_config_err(r, spec_missing_field_msg("body"@))
                            } else {
                                &&& r matches Ok(n)
                                &&& n.from@ == (match w.p_from {
                                    Some(f) => f@,
                                    None => spec_default_email_from(),
                                })
                                &&& n.to@ == w.p_to->0@
                                &&& n.subject@ == w.p_subject->0@
                                &&& n.body@ == w.p_body->0@
                                &&& n.channel == channel
                            }
                        },
                        ChannelType::Sms => {
                            if w.p_to is None {
                                is_config_err(r, spec_missing_field_msg("to"@))
                            } else if w.p_param is None && w.p_body is None {
                                is_config_err(r, spec_missing_field_msg("body"@))
                            } else {
                                &&& r matches Ok(n)
                                &&& n.from@.len() == 0
                                &&& n.to@ == w.p_to->0@
                                &&& n.subject@.len() == 0
                                &&& n.body@ == (match w.p_param {
                                    Some(p) => p@,
                                    None => w.p_body->0@,
                                })
                                &&& n.channel == channel
                            }
                        },
                        ChannelType::ImFeishu | ChannelType::ImDingding => {
                            if w.p_text is None && w.p_body is None {
                                is_config_err(r, spec_missing_field_msg("body"@))
                            } else {
                                &&& r matches Ok(n)
                                &&& n.from@.len() == 0
                                &&& n.to@.len() == 0
                                &&& n.subject@.len() == 0
                                &&& n.body@ == (match w.p_text {
                                    Some(t) => t@,
                                    None => w.p_body->0@,
                                })
                                &&& n.channel == channel
                            }
                        },
                        _ => is_config_err(
                            r,
                            "Unsupported channel type: "@ + spec_channel_str(channel),
                        ),
                    }
                }
            },
        },
    }
}

fn require_field(o: Option<String>, key: &str) -> (r: Result<String, NotifyError>)
    ensures
        match o {
            Some(s) => r matches Ok(v) && v == s,
            None => r matches Err(e) && e matches NotifyError::Config(m) && m@
                == spec_missing_field_msg(key@),
        },
{
    match o {
        Some(s) => Ok(s),
        None => {
            let mut m = String::from_str("missing or invalid '");
            m.append(key);
            m.append("' field in payload");
            proof {
                assert(m@ =~= spec_missing_field_msg(key@));
            }
            Err(NotifyError::Config(m))
        },
    }
}

/// Applies the shape rules to one inbound object: the direct shape first,
/// else the envelope shape with its per-channel required fields.
pub fn normalize_raw(raw: Option<RawMessage>) -> (r: Result<Notification, NotifyError>)
    ensures
        normalize_matches(raw, r),
{
    let w = match raw {
        Some(w) => w,
        None => {
            return Err(
                NotifyError::Config(String::from_str("missing or invalid 'channel' field")),
            );
        },
    };
    let channel = match &w.channel {
        Some(c) => match ChannelType::from_str(c.as_str()) {
            Some(ch) => ch,
            None => {
                return Err(
                    NotifyError::Config(String::from_str("missing or invalid 'channel' field")),
                );
            },
        },
        None => {
            return Err(
                NotifyError::Config(String::from_str("missing or invalid 'channel' field")),
            );
        },
    };
    let RawMessage { from, to, subject, body, channel: _, has_payload, p_from, p_to, p_subject, p_body, p_param, p_text } = w;
    if let (Some(f), Some(t), Some(s), Some(b)) = (from, to, subject, body) {
        return Ok(Notification { from: f, to: t, subject: s, body: b, channel });
    }
    if !has_payload {
        return Err(NotifyError::Config(String::from_str("missing 'payload' field")));
    }
    match channel {
        ChannelType::Email => {
            let to = match require_field(p_to, "to") {
                Ok(v) => v,
                Err(e) => {
                    return Err(e);
                },
            };
            let subject = match require_field(p_subject, "subject") {
                Ok(v) => v,
                Err(e) => {
                    return Err(e);
                },
            };
            let body = match require_field(p_body, "body") {
                Ok(v) => v,
                Err(e) => {
                    return Err(e);
                },
            };
            let from = match p_from {
                Some(f) => f,
                None => String::from_str("noreply@example.com"),
            };
            Ok(Notification { from, to, subject, body, channel })
        },
        ChannelType::Sms => {
            let to = match require_field(p_to, "to") {
                Ok(v) => v,
                Err(e) => {
                    return Err(e);
                },
            };
            let body = match p_param {
                Some(p) => p,
                None => match require_field(p_body, "body") {
                    Ok(v) => v,
                    Err(e) => {
                        return Err(e);
                    },
                },
            };
            Ok(
                Notification {
                    from: String::new(),
                    to,
                    subject: String::new(),
                    body,
                    channel,
                },
            )
        },
        ChannelType::ImFeishu | ChannelType::ImDingding => {
            let body = match p_text {
                Some(t) => t,
                None => match require_field(p_body, "body") {
                    Ok(v) => v,
                    Err(e) => {
                        return Err(e);
                    },
                },
            };
            Ok(
                Notification {
                    from: String::new(),
                    to: String::new(),
                    subject: String::new(),
                    body,
                    channel,
                },
            )
        },
        _ => {
            let msg = String::from_str("Unsupported channel type: ").concat(channel.as_str());
            Err(NotifyError::Config(msg))
        },
    }
}

/// Normalizes one inbound JSON text into a notification record: the shape
/// rules of `normalize_raw` applied to the fields the text parses to.
pub fn normalize_message(data: &str) -> (r: Result<Notification, NotifyError>)
    ensures
        exists|raw: Option<RawMessage>|
            message_extracted_matches(data@, raw) && normalize_matches(raw, r),
{
    let raw = extract_message(data);
    let ghost graw = raw;
    let r = normalize_raw(raw);
    proof {
        assert(message_extracted_matches(data@, graw) && normalize_matches(graw, r));
    }
    r
}

/// Normalizing an object that carries exactly a notification record's
/// fields yields that record again: the round trip through the direct wire
/// shape is the identity.
pub proof fn lemma_direct_shape_round_trip(
    n: Notification,
    w: RawMessage,
    r: Result<Notification, NotifyError>,
)
    requires
        w.from == Some(n.from),
        w.to == Some(n.to),
        w.subject == Some(n.subject),
        w.body == Some(n.body),
        w.channel matches Some(c) && c@ == spec_channel_str(n.channel),
        normalize_matches(Some(w), r),
    ensures
        r matches Ok(m) && m.from@ == n.from@ && m.to@ == n.to@ && m.subject@ == n.subject@
            && m.body@ == n.body@ && m.channel == n.channel,
{
    lemma_channel_str_round_trip(n.channel);
}

/// Every channel tag's wire name parses back to the same tag.
pub proof fn lemma_channel_str_round_trip(c: ChannelType)
    ensures
        spec_channel_from_str(spec_channel_str(c)) == Some(c),
{
    reveal_strlit("email");
    reveal_strlit("sms");
    reveal_strlit("im_feishu");
    reveal_strlit("im_dingding");
    reveal_strlit("im_wechat");
    reveal_strlit("push");
    reveal_strlit("site_message");
    assert("email"@.len() == 5);
    assert("sms"@.len() == 3);
    assert("im_feishu"@.len() == 9);
    assert("im_dingding"@.len() == 11);
    assert("im_wechat"@.len() == 9);
    assert("push"@.len() == 4);
    assert("site_message"@.len() == 12);
    assert("im_feishu"@[3] == 'f');
    assert("im_wechat"@[3] == 'w');
}

} // verus!
