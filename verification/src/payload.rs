//! Payload negotiation shared by the two IM channels.
//!
//! A notification body is first read as structured JSON: an object with an
//! optional `msg_type` discriminator, an optional `content` (or `card`)
//! blob, and an optional top-level `text` convenience field. A body that is
//! not a JSON object falls back to a plain-text message. The JSON reading
//! itself goes through the trusted wrappers of `jsonio`; everything after
//! it is negotiated here and in the per-channel modules.

use vstd::prelude::*;
use crate::jsonio::{
    json_parse_object, json_get_value, json_get_str, json_is_null, json_as_str, json_to_text,
    parsed_json_object, json_value_at, json_str_at, json_null_of, json_chars_of, json_text_of,
    spec_opt_chars,
};

verus! {

/// The state of the `msg_type` discriminator field in a structured body.
#[derive(Debug, Clone)]
pub enum DiscriminatorField {
    /// The field is absent or null.
    Absent,
    /// The field holds this string.
    Name(String),
    /// The field is present but is not a string.
    Malformed,
}

/// What the structured form of a body holds, read once from the JSON.
#[derive(Debug, Clone)]
pub struct IncomingFields {
    /// The `msg_type` discriminator.
    pub msg_type: DiscriminatorField,
    /// The `content` blob, serialized back to JSON text.
    pub content: Option<String>,
    /// The `card` blob, serialized back to JSON text.
    pub card: Option<String>,
    /// The string under the channel's text key inside `content`.
    pub nested_text: Option<String>,
    /// The top-level `text` convenience field.
    pub top_text: Option<String>,
}

/// The payload a negotiated message carries: resolved text, or a blob
/// forwarded verbatim as JSON text.
#[derive(Debug, Clone)]
pub enum MessageBody {
    /// Resolved message text.
    Text(String),
    /// A JSON blob forwarded verbatim.
    Blob(String),
}

/// A prepared webhook call: the signed URL and the JSON body to post.
#[derive(Debug, Clone)]
pub struct WebhookRequest {
    /// The webhook URL, with signing query parameters when a secret is
    /// configured.
    pub url: String,
    /// The outbound JSON body.
    pub body: String,
}

/// The separator before appended query parameters: `&` when the URL
/// already has a query, `?` otherwise.
pub open spec fn spec_query_sep(url: Seq<char>) -> Seq<char> {
    if url.contains('?') {
        "&"@
    } else {
        "?"@
    }
}

/// The blob a non-text sub-type forwards: the given blob, or an empty
/// object when none was given.
pub open spec fn spec_blob_or_empty(o: Option<String>) -> Seq<char> {
    match o {
        Some(s) => s@,
        None => "{}"@,
    }
}

/// The given blob, or an empty JSON object when none was given.
pub fn blob_or_empty(o: Option<String>) -> (r: String)
    ensures
        r@ == spec_blob_or_empty(o),
{
    match o {
        Some(s) => s,
        None => String::from_str("{}"),
    }
}

/// The text a text message resolves to: the string under the channel's
/// text key inside `content`, else the top-level `text` field, else the
/// raw body, in that priority order.
pub open spec fn spec_text_resolution(f: IncomingFields, raw: Seq<char>) -> Seq<char> {
    match f.nested_text {
        Some(t) => t@,
        None => match f.top_text {
            Some(t) => t@,
            None => raw,
        },
    }
}

/// How the structured form relates to the body text: nothing when the
/// body is not the text of a JSON object, else each field of
/// `IncomingFields` read from the parsed object — the discriminator
/// (absent when the field is absent or null, malformed when it is another
/// non-string), the `content` and `card` blobs with a null blob counting
/// as absent, the string under `nested_key` inside `content`, and the
/// top-level `text` field.
pub open spec fn extracted_matches(
    body: Seq<char>,
    nested_key: Seq<char>,
    r: Option<IncomingFields>,
) -> bool {
    match parsed_json_object(body) {
        None => r is None,
        Some(v) => match r {
            None => false,
            Some(f) => {
                &&& match json_value_at(v, "msg_type"@) {
                    None => f.msg_type is Absent,
                    Some(m) => if json_null_of(m) {
                        f.msg_type is Absent
                    } else {
                        match json_chars_of(m) {
                            Some(s) => f.msg_type matches DiscriminatorField::Name(n) && n@ == s,
                            None => f.msg_type is Malformed,
                        }
                    },
                }
                &&& match json_value_at(v, "content"@) {
                    None => f.content is None && f.nested_text is None,
                    Some(cv) => if json_null_of(cv) {
                        f.content is None && f.nested_text is None
                    } else {
                        spec_opt_chars(f.content) == Some(json_text_of(cv)) && spec_opt_chars(
                            f.nested_text,
                        ) == json_str_at(cv, nested_key)
                    },
                }
                &&& match json_value_at(v, "card"@) {
                    None => f.card is None,
                    Some(cv) => if json_null_of(cv) {
                        f.card is None
                    } else {
                        spec_opt_chars(f.card) == Some(json_text_of(cv))
                    },
                }
                &&& spec_opt_chars(f.top_text) == json_str_at(v, "text"@)
            },
        },
    }
}

/// Reads the structured form of `body`: no result when `body` is not a
/// JSON object, else the discriminator, the `content` and `card` blobs,
/// the string under `nested_key` inside `content`, and the top-level
/// `text` field.
pub fn extract_incoming(body: &str, nested_key: &str) -> (r: Option<IncomingFields>)
    ensures
        extracted_matches(body@, nested_key@, r),
{
    let parsed = json_parse_object(body);
    match parsed {
        None => None,
        Some(v) => {
            let msg_type = match json_get_value(&v, "msg_type") {
                None => DiscriminatorField::Absent,
                Some(m) => {
                    if json_is_null(&m) {
                        DiscriminatorField::Absent
                    } else {
                        match json_as_str(&m) {
                            Some(s) => DiscriminatorField::Name(s),
                            None => DiscriminatorField::Malformed,
                        }
                    }
                },
            };
            let content_v = json_get_value(&v, "content");
            let (content, nested_text) = match &content_v {
                Some(cv) => {
                    if json_is_null(cv) {
                        (None, None)
                    } else {
                        (Some(json_to_text(cv)), json_get_str(cv, nested_key))
                    }
                },
                None => (None, None),
            };
            let card = match json_get_value(&v, "card") {
                Some(cv) => {
                    if json_is_null(&cv) {
                        None
                    } else {
                        Some(json_to_text(&cv))
                    }
                },
                None => None,
            };
            let top_text = json_get_str(&v, "text");
            Some(IncomingFields { msg_type, content, card, nested_text, top_text })
        },
    }
}

} // verus!
