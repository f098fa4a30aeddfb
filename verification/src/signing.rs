//! Signing primitives shared by the webhook and SMS adapters.
//!
//! Three HMAC-based schemes are used, each with its own canonical string
//! and digest: Dingding (HMAC-SHA256, base64 then URL-encoded), Feishu
//! (HMAC-SHA256, base64), and the SMS gateway (HMAC-SHA1, base64). The
//! digests and the base64 and percent encodings come from outside crates
//! behind trusted wrappers; the canonical strings are built here.

use vstd::prelude::*;
use crate::strutil::{int_dec_str, i64_to_string, push_char};
use hmac::Mac;
use base64::Engine;

verus! {

use vstd::string::StringSliceAdditionalSpecFns;
use vstd::utf8::encode_utf8;

/// The HMAC-SHA256 digest of `msg` keyed by `key`, both given as the
/// character strings whose UTF-8 bytes are fed to the digest.
pub uninterp spec fn hmac_sha256_of(key: Seq<char>, msg: Seq<char>) -> Seq<u8>;

/// The HMAC-SHA1 digest of `msg` keyed by `key`, both given as the
/// character strings whose UTF-8 bytes are fed to the digest.
pub uninterp spec fn hmac_sha1_of(key: Seq<char>, msg: Seq<char>) -> Seq<u8>;

/// The standard (RFC 4648, padded) base64 rendering of `bytes`.
pub uninterp spec fn base64_std_of(bytes: Seq<u8>) -> Seq<char>;

/// Relies on `hmac::Hmac` over `sha2::Sha256`: the digest is a function of
/// the key and message bytes alone, and is 32 bytes long. `new_from_slice`
/// accepts a key of any length.
#[verifier::external_body]
pub(crate) fn hmac_sha256(key: &str, msg: &str) -> (r: Vec<u8>)
    ensures
        r@ == hmac_sha256_of(key@, msg@),
        r@.len() == 32,
{
    let mut mac = hmac::Hmac::<sha2::Sha256>::new_from_slice(key.as_bytes())
        .expect("HMAC accepts keys of any length");
    mac.update(msg.as_bytes());
    mac.finalize().into_bytes().to_vec()
}

/// Relies on `hmac::Hmac` over `sha1::Sha1`: the digest is a function of
/// the key and message bytes alone, and is 20 bytes long. `new_from_slice`
/// accepts a key of any length.
#[verifier::external_body]
pub(crate) fn hmac_sha1(key: &str, msg: &str) -> (r: Vec<u8>)
    ensures
        r@ == hmac_sha1_of(key@, msg@),
        r@.len() == 20,
{
    let mut mac = hmac::Hmac::<sha1::Sha1>::new_from_slice(key.as_bytes())
        .expect("HMAC accepts keys of any length");
    mac.update(msg.as_bytes());
    mac.finalize().into_bytes().to_vec()
}

/// Relies on `base64::engine::general_purpose::STANDARD.encode`: the
/// standard padded base64 alphabet, a function of the input bytes alone.
#[verifier::external_body]
pub(crate) fn base64_encode(bytes: &Vec<u8>) -> (r: String)
    ensures
        r@ == base64_std_of(bytes@),
{
    base64::engine::general_purpose::STANDARD.encode(bytes.as_slice())
}

/// The uppercase hexadecimal digit character for `d` in `0 ..= 15`.
pub open spec fn hex_upper(d: int) -> char {
    if d == 0 {
        '0'
    } else if d == 1 {
        '1'
    } else if d == 2 {
        '2'
    } else if d == 3 {
        '3'
    } else if d == 4 {
        '4'
    } else if d == 5 {
        '5'
    } else if d == 6 {
        '6'
    } else if d == 7 {
        '7'
    } else if d == 8 {
        '8'
    } else if d == 9 {
        '9'
    } else if d == 10 {
        'A'
    } else if d == 11 {
        'B'
    } else if d == 12 {
        'C'
    } else if d == 13 {
        'D'
    } else if d == 14 {
        'E'
    } else {
        'F'
    }
}

/// Whether a byte is left bare by percent encoding: ASCII alphanumerics
/// and `-`, `.`, `_`, `~`.
pub open spec fn is_url_unreserved(b: u8) -> bool {
    (48 <= b && b <= 57) || (65 <= b && b <= 90) || (97 <= b && b <= 122) || b == 45 || b == 46
        || b == 95 || b == 126
}

/// The percent encoding of one byte: the byte itself if unreserved, else
/// `%` and two uppercase hexadecimal digits.
pub open spec fn percent_byte(b: u8) -> Seq<char> {
    if is_url_unreserved(b) {
        seq![b as char]
    } else {
        seq!['%', hex_upper(b as int / 16), hex_upper(b as int % 16)]
    }
}

/// The percent encoding of a byte string.
pub open spec fn percent_encoded(bytes: Seq<u8>) -> Seq<char>
    decreases bytes.len(),
{
    if bytes.len() == 0 {
        Seq::empty()
    } else {
        percent_byte(bytes[0]) + percent_encoded(bytes.skip(1))
    }
}

/// Relies on `urlencoding::encode`: percent-encodes every byte of the
/// UTF-8 form except ASCII alphanumerics and `-`, `_`, `.`, `~`, with
/// uppercase hexadecimal digits.
#[verifier::external_body]
pub(crate) fn url_encode(s: &str) -> (r: String)
    ensures
        r@ == percent_encoded(s.spec_bytes()),
{
    urlencoding::encode(s).into_owned()
}

/// The string both webhook schemes sign: the decimal timestamp, a newline,
/// and the secret.
pub open spec fn webhook_sign_string(ts: int, secret: Seq<char>) -> Seq<char> {
    int_dec_str(ts) + seq!['\n'] + secret
}

/// The Feishu webhook signature: base64 of the HMAC-SHA256 of
/// `"{timestamp}\n{secret}"`, keyed by the secret. The timestamp is in
/// seconds.
pub open spec fn spec_feishu_signature(ts_seconds: int, secret: Seq<char>) -> Seq<char> {
    base64_std_of(hmac_sha256_of(secret, webhook_sign_string(ts_seconds, secret)))
}

/// The Dingding webhook signature: base64 of the HMAC-SHA256 of
/// `"{timestamp}\n{secret}"` keyed by the secret, then percent-encoded for
/// use in a query string. The timestamp is in milliseconds.
pub open spec fn spec_dingding_signature(ts_millis: int, secret: Seq<char>) -> Seq<char> {
    percent_encoded(
        encode_utf8(base64_std_of(hmac_sha256_of(secret, webhook_sign_string(ts_millis, secret)))),
    )
}

/// Builds the string to sign for the webhook schemes: the decimal
/// timestamp, a newline, and the secret.
fn build_webhook_sign_string(ts: i64, secret: &str) -> (s: String)
    ensures
        s@ == webhook_sign_string(ts as int, secret@),
{
    let mut s = i64_to_string(ts);
    push_char(&mut s, '\n');
    let r = s.concat(secret);
    proof {
        assert(r@ =~= webhook_sign_string(ts as int, secret@));
    }
    r
}

/// Signing is deterministic: two signatures produced from the same
/// timestamp and secret are equal. (Whether two different timestamps give
/// two different signatures depends on the digest and is not stated.)
pub proof fn lemma_dingding_signature_deterministic(
    ts_millis: int,
    secret: Seq<char>,
    sig1: Seq<char>,
    sig2: Seq<char>,
)
    requires
        sig1 == spec_dingding_signature(ts_millis, secret),
        sig2 == spec_dingding_signature(ts_millis, secret),
    ensures
        sig1 == sig2,
{
}

/// The Feishu webhook signature for one timestamp (in seconds) and secret.
/// The same timestamp and secret always produce the same signature.
pub fn feishu_signature(ts_seconds: i64, secret: &str) -> (sig: String)
    ensures
        sig@ == spec_feishu_signature(ts_seconds as int, secret@),
{
    let sts = build_webhook_sign_string(ts_seconds, secret);
    let digest = hmac_sha256(secret, sts.as_str());
    base64_encode(&digest)
}

/// The Dingding webhook signature for one timestamp (in milliseconds) and
/// secret. The same timestamp and secret always produce the same
/// signature.
pub fn dingding_signature(ts_millis: i64, secret: &str) -> (sig: String)
    ensures
        sig@ == spec_dingding_signature(ts_millis as int, secret@),
{
    let sts = build_webhook_sign_string(ts_millis, secret);
    let digest = hmac_sha256(secret, sts.as_str());
    let b64 = base64_encode(&digest);
    url_encode(b64.as_str())
}

} // verus!
