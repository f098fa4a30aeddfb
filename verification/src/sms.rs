//! The SMS adapter: the signed request of the gateway's REST call.
//!
//! Every call carries a fixed parameter set (action, version, region, the
//! recipient, the template and its parameters, the access key, and a fresh
//! nonce and timestamp). The parameters are collected into a key-unique
//! mapping, sorted lexicographically by key, percent-encoded and joined
//! into a canonical query string; the string to sign is built from it and
//! signed with HMAC-SHA1 under the access key secret followed by `&`.

use vstd::prelude::*;
use crate::config::SmsConfig;
use crate::signing::{percent_encoded, base64_std_of, hmac_sha1_of, url_encode, hmac_sha1, base64_encode};
use crate::strutil::{lex_lt, lex_lt_from, str_eq, str_lt, push_char};

verus! {

use vstd::string::StringSliceAdditionalSpecFns;
use vstd::utf8::encode_utf8;

/// The key's UTF-8 bytes, by which parameters are ordered.
pub open spec fn key_bytes(p: (String, String)) -> Seq<u8> {
    encode_utf8(p.0@)
}

/// Inserting one parameter into a list sorted by key: a pair with an equal
/// key is replaced (the newcomer wins), otherwise the pair lands at its
/// ordered position.
pub open spec fn spec_insert_pair(s: Seq<(String, String)>, p: (String, String)) -> Seq<
    (String, String),
>
    decreases s.len(),
{
    if s.len() == 0 {
        seq![p]
    } else if p.0@ == s.last().0@ {
        s.drop_last().push(p)
    } else if lex_lt(key_bytes(s.last()), key_bytes(p)) {
        s.push(p)
    } else {
        spec_insert_pair(s.drop_last(), p).push(s.last())
    }
}

/// The key-unique, key-sorted form of a parameter list: each parameter is
/// inserted in order, a later value winning over an earlier one under the
/// same key.
pub open spec fn spec_sort_pairs(input: Seq<(String, String)>) -> Seq<(String, String)>
    decreases input.len(),
{
    if input.len() == 0 {
        Seq::empty()
    } else {
        spec_insert_pair(spec_sort_pairs(input.drop_last()), input.last())
    }
}

/// One parameter as it appears in the canonical query string: the
/// percent-encoded key, `=`, the percent-encoded value.
pub open spec fn spec_pair_encoded(p: (String, String)) -> Seq<char> {
    percent_encoded(encode_utf8(p.0@)) + seq!['='] + percent_encoded(encode_utf8(p.1@))
}

/// Encoded parameters joined with `&`.
pub open spec fn spec_join_params(s: Seq<(String, String)>) -> Seq<char>
    decreases s.len(),
{
    if s.len() == 0 {
        Seq::empty()
    } else if s.len() == 1 {
        spec_pair_encoded(s[0])
    } else {
        spec_join_params(s.drop_last()) + seq!['&'] + spec_pair_encoded(s.last())
    }
}

/// The canonical query string of a parameter list: the key-unique,
/// key-sorted parameters, each percent-encoded, joined with `&`.
pub open spec fn spec_canonical_query(params: Seq<(String, String)>) -> Seq<char> {
    spec_join_params(spec_sort_pairs(params))
}

/// The string the SMS gateway signs: `POST`, the encoded root path, and
/// the percent-encoded canonical query string, joined with `&`.
pub open spec fn spec_sms_string_to_sign(params: Seq<(String, String)>) -> Seq<char> {
    "POST&%2F&"@ + percent_encoded(encode_utf8(spec_canonical_query(params)))
}

/// The request signature: base64 of the HMAC-SHA1 of the string to sign,
/// keyed by the access key secret followed by `&`.
pub open spec fn spec_sms_signature(secret: Seq<char>, params: Seq<(String, String)>) -> Seq<
    char,
> {
    base64_std_of(hmac_sha1_of(secret + "&"@, spec_sms_string_to_sign(params)))
}

/// Whether the keys of a parameter list strictly ascend: the list is
/// sorted lexicographically by key and no key repeats.
pub open spec fn spec_sorted_by_key(s: Seq<(String, String)>) -> bool {
    forall|i: int, j: int|
        0 <= i < j < s.len() ==> lex_lt(key_bytes(#[trigger] s[i]), key_bytes(#[trigger] s[j]))
}

/// Whether some parameter of the list carries the key `k`.
pub open spec fn spec_has_key(s: Seq<(String, String)>, k: Seq<char>) -> bool {
    exists|i: int| 0 <= i < s.len() && (#[trigger] s[i]).0@ == k
}

/// Two character strings are equal exactly when their UTF-8 forms are.
proof fn lemma_encode_utf8_injective(x: Seq<char>, y: Seq<char>)
    ensures
        (encode_utf8(x) == encode_utf8(y)) == (x == y),
{
    if encode_utf8(x) == encode_utf8(y) {
        vstd::utf8::encode_utf8_decode_utf8(x);
        vstd::utf8::encode_utf8_decode_utf8(y);
    }
}

/// The byte-wise order is transitive.
proof fn lemma_lex_lt_trans_from(a: Seq<u8>, b: Seq<u8>, c: Seq<u8>, i: int)
    requires
        0 <= i,
        lex_lt_from(a, b, i),
        lex_lt_from(b, c, i),
    ensures
        lex_lt_from(a, c, i),
    decreases b.len() - i,
{
    if i < a.len() && a[i] == b[i] && i < c.len() && b[i] == c[i] {
        lemma_lex_lt_trans_from(a, b, c, i + 1);
    }
}

/// The byte-wise order is total: of two byte strings, one is smaller or
/// they are equal from the compared position on.
proof fn lemma_lex_lt_total_from(a: Seq<u8>, b: Seq<u8>, i: int)
    requires
        0 <= i <= a.len(),
        i <= b.len(),
    ensures
        lex_lt_from(a, b, i) || lex_lt_from(b, a, i) || a.skip(i) =~= b.skip(i),
    decreases a.len() - i,
{
    if i < a.len() && i < b.len() && a[i] == b[i] {
        lemma_lex_lt_total_from(a, b, i + 1);
        if !lex_lt_from(a, b, i) && !lex_lt_from(b, a, i) {
            assert(a.skip(i + 1) =~= b.skip(i + 1));
            assert(a.len() == b.len());
            assert forall|j: int| 0 <= j < a.skip(i).len() implies a.skip(i)[j] == b.skip(i)[j] by {
                if j == 0 {
                    assert(a.skip(i)[0] == a[i]);
                    assert(b.skip(i)[0] == b[i]);
                } else {
                    assert(a.skip(i)[j] == a[i + j]);
                    assert(a.skip(i + 1)[j - 1] == a[i + j]);
                    assert(b.skip(i)[j] == b[i + j]);
                    assert(b.skip(i + 1)[j - 1] == b[i + j]);
                }
            }
            assert(a.skip(i) =~= b.skip(i));
        }
    }
}

/// A key occurs in `s.push(p)` exactly when it occurs in `s` or is `p`'s.
proof fn lemma_has_key_push(s: Seq<(String, String)>, p: (String, String), k: Seq<char>)
    ensures
        spec_has_key(s.push(p), k) == (spec_has_key(s, k) || k == p.0@),
{
    let r = s.push(p);
    if spec_has_key(r, k) {
        let i = choose|i: int| 0 <= i < r.len() && r[i].0@ == k;
        if i < s.len() {
            assert(s[i] == r[i]);
            assert(spec_has_key(s, k));
        } else {
            assert(r[i] == p);
        }
    }
    if spec_has_key(s, k) {
        let i = choose|i: int| 0 <= i < s.len() && s[i].0@ == k;
        assert(r[i] == s[i]);
        assert(spec_has_key(r, k));
    }
    if k == p.0@ {
        assert(r[s.len() as int] == p);
        assert(spec_has_key(r, k));
    }
}

/// A key occurs in a non-empty list exactly when it occurs before the
/// last parameter or is the last parameter's.
proof fn lemma_has_key_parts(s: Seq<(String, String)>, k: Seq<char>)
    requires
        s.len() > 0,
    ensures
        spec_has_key(s, k) == (spec_has_key(s.drop_last(), k) || k == s.last().0@),
{
    let t = s.drop_last();
    assert(s =~= t.push(s.last()));
    lemma_has_key_push(t, s.last(), k);
}

/// A parameter of `s.push(p)` is one of `s` or is `p`.
proof fn lemma_contains_push(s: Seq<(String, String)>, p: (String, String), x: (String, String))
    ensures
        s.push(p).contains(x) == (s.contains(x) || x == p),
{
    let r = s.push(p);
    if r.contains(x) {
        let i = choose|i: int| 0 <= i < r.len() && r[i] == x;
        if i < s.len() {
            assert(s[i] == x);
        } else {
            assert(r[i] == p);
        }
    }
    if s.contains(x) {
        let i = choose|i: int| 0 <= i < s.len() && s[i] == x;
        assert(r[i] == x);
    }
    if x == p {
        assert(r[s.len() as int] == x);
    }
}

/// A sorted list without its last parameter is still sorted, and every
/// parameter of it is one of the whole list.
proof fn lemma_drop_last_props(s: Seq<(String, String)>)
    requires
        s.len() > 0,
        spec_sorted_by_key(s),
    ensures
        spec_sorted_by_key(s.drop_last()),
        forall|x: (String, String)| #[trigger] s.drop_last().contains(x) ==> s.contains(x),
{
    let t = s.drop_last();
    assert(forall|i: int| 0 <= i < t.len() ==> (#[trigger] t[i]) == s[i]);
    assert forall|x: (String, String)| #[trigger] t.contains(x) implies s.contains(x) by {
        let i = choose|i: int| 0 <= i < t.len() && t[i] == x;
        assert(s[i] == x);
    }
}

/// Inserting keeps the list sorted and key-unique, takes its parameters
/// from the old list and the newcomer, and extends the key set by the
/// newcomer's key.
proof fn lemma_insert_pair_props(s: Seq<(String, String)>, p: (String, String))
    requires
        spec_sorted_by_key(s),
    ensures
        spec_sorted_by_key(spec_insert_pair(s, p)),
        forall|x: (String, String)|
            #[trigger] spec_insert_pair(s, p).contains(x) ==> s.contains(x) || x == p,
        forall|k: Seq<char>|
            #[trigger] spec_has_key(spec_insert_pair(s, p), k) == (spec_has_key(s, k) || k
                == p.0@),
    decreases s.len(),
{
    let r = spec_insert_pair(s, p);
    if s.len() == 0 {
        let e = Seq::<(String, String)>::empty();
        assert(r =~= e.push(p));
        assert forall|k: Seq<char>|
            #[trigger] spec_has_key(r, k) == (spec_has_key(s, k) || k == p.0@) by {
            lemma_has_key_push(e, p, k);
            if spec_has_key(s, k) {
                let i = choose|i: int| 0 <= i < s.len() && s[i].0@ == k;
            }
        }
        assert forall|x: (String, String)| #[trigger] r.contains(x) implies s.contains(x) || x
            == p by {
            lemma_contains_push(e, p, x);
        }
    } else if p.0@ == s.last().0@ {
        let t = s.drop_last();
        lemma_drop_last_props(s);
        assert(r == t.push(p));
        assert(spec_sorted_by_key(r)) by {
            assert(forall|i: int| 0 <= i < t.len() ==> (#[trigger] t[i]) == s[i]);
            assert(key_bytes(p) == key_bytes(s.last()));
            assert(forall|i: int| 0 <= i < t.len() ==> (#[trigger] r[i]) == t[i]);
            assert(r[r.len() - 1] == p);
        }
        assert forall|x: (String, String)| #[trigger] r.contains(x) implies s.contains(x) || x
            == p by {
            lemma_contains_push(t, p, x);
        }
        assert forall|k: Seq<char>|
            #[trigger] spec_has_key(r, k) == (spec_has_key(s, k) || k == p.0@) by {
            lemma_has_key_push(t, p, k);
            lemma_has_key_parts(s, k);
        }
    } else if lex_lt(key_bytes(s.last()), key_bytes(p)) {
        assert(r == s.push(p));
        assert(spec_sorted_by_key(r)) by {
            assert forall|i: int| 0 <= i < s.len() implies lex_lt(
                key_bytes(#[trigger] r[i]),
                key_bytes(p),
            ) by {
                assert(r[i] == s[i]);
                if i < s.len() - 1 {
                    assert(lex_lt(key_bytes(s[i]), key_bytes(s[s.len() - 1])));
                    lemma_lex_lt_trans_from(key_bytes(s[i]), key_bytes(s.last()), key_bytes(p), 0);
                }
            }
            assert(forall|i: int| 0 <= i < s.len() ==> (#[trigger] r[i]) == s[i]);
            assert(r[r.len() - 1] == p);
        }
        assert forall|x: (String, String)| #[trigger] r.contains(x) implies s.contains(x) || x
            == p by {
            lemma_contains_push(s, p, x);
        }
        assert forall|k: Seq<char>|
            #[trigger] spec_has_key(r, k) == (spec_has_key(s, k) || k == p.0@) by {
            lemma_has_key_push(s, p, k);
        }
    } else {
        lemma_encode_utf8_injective(p.0@, s.last().0@);
        lemma_lex_lt_total_from(key_bytes(s.last()), key_bytes(p), 0);
        assert(key_bytes(s.last()).skip(0) =~= key_bytes(s.last()));
        assert(key_bytes(p).skip(0) =~= key_bytes(p));
        assert(lex_lt(key_bytes(p), key_bytes(s.last())));
        let t = s.drop_last();
        lemma_drop_last_props(s);
        lemma_insert_pair_props(t, p);
        let q = spec_insert_pair(t, p);
        assert(r == q.push(s.last()));
        assert(spec_sorted_by_key(r)) by {
            assert forall|i: int| 0 <= i < q.len() implies lex_lt(
                key_bytes(#[trigger] q[i]),
                key_bytes(s.last()),
            ) by {
                assert(q.contains(q[i]));
                if q[i] == p {
                } else {
                    assert(t.contains(q[i]));
                    let j = choose|j: int| 0 <= j < t.len() && t[j] == q[i];
                    assert(s[j] == t[j]);
                    assert(lex_lt(key_bytes(s[j]), key_bytes(s[s.len() - 1])));
                }
            }
            assert(forall|i: int| 0 <= i < q.len() ==> (#[trigger] r[i]) == q[i]);
            assert(r[r.len() - 1] == s.last());
        }
        assert forall|x: (String, String)| #[trigger] r.contains(x) implies s.contains(x) || x
            == p by {
            lemma_contains_push(q, s.last(), x);
            if q.contains(x) {
            } else if x == s.last() {
                assert(s[s.len() - 1] == x);
            }
        }
        assert forall|k: Seq<char>|
            #[trigger] spec_has_key(r, k) == (spec_has_key(s, k) || k == p.0@) by {
            lemma_has_key_push(q, s.last(), k);
            lemma_has_key_parts(s, k);
        }
    }
}

/// What sorting states: the result is sorted lexicographically by key
/// with no key repeated, every parameter of the result comes from the
/// input, and the result holds exactly the input's keys.
pub proof fn lemma_sort_pairs_props(input: Seq<(String, String)>)
    ensures
        spec_sorted_by_key(spec_sort_pairs(input)),
        forall|x: (String, String)|
            #[trigger] spec_sort_pairs(input).contains(x) ==> input.contains(x),
        forall|k: Seq<char>|
            #[trigger] spec_has_key(spec_sort_pairs(input), k) == spec_has_key(input, k),
    decreases input.len(),
{
    let r = spec_sort_pairs(input);
    if input.len() == 0 {
        assert(forall|k: Seq<char>| !spec_has_key(r, k) && !spec_has_key(input, k));
    } else {
        let t = input.drop_last();
        lemma_sort_pairs_props(t);
        lemma_insert_pair_props(spec_sort_pairs(t), input.last());
        assert(forall|x: (String, String)| #[trigger] r.contains(x) ==> input.contains(x)) by {
            assert(forall|i: int| 0 <= i < t.len() ==> (#[trigger] t[i]) == input[i]
                && input.contains(input[i]));
            assert(input.contains(input[input.len() - 1]));
        }
        assert(forall|k: Seq<char>| #[trigger] spec_has_key(r, k) == spec_has_key(input, k)) by {
            assert(forall|i: int| 0 <= i < t.len() ==> (#[trigger] t[i]) == input[i]);
            assert(forall|i: int| 0 <= i < t.len() ==> (#[trigger] input[i]) == t[i]);
            assert(input[input.len() - 1] == input.last());
            assert(forall|k: Seq<char>|
                #[trigger] spec_has_key(input, k) ==> spec_has_key(t, k) || k == input.last().0@);
        }
    }
}

fn insert_pair(v: Vec<(String, String)>, p: (String, String)) -> (r: Vec<(String, String)>)
    ensures
        r@ == spec_insert_pair(v@, p),
    decreases v@.len(),
{
    let ghost orig = v@;
    let mut v = v;
    let n = v.len();
    if n == 0 {
        v.push(p);
        proof {
            assert(v@ =~= seq![p]);
        }
        v
    } else if str_eq(v[n - 1].0.as_str(), p.0.as_str()) {
        v.pop();
        v.push(p);
        v
    } else if str_lt(v[n - 1].0.as_str(), p.0.as_str()) {
        v.push(p);
        v
    } else {
        let last = v.pop().unwrap();
        let mut r = insert_pair(v, p);
        r.push(last);
        r
    }
}

/// Collects a parameter list into a key-unique mapping and sorts it
/// lexicographically by key; under a repeated key the later value wins.
pub fn sort_unique_params(params: &Vec<(String, String)>) -> (r: Vec<(String, String)>)
    ensures
        r@ == spec_sort_pairs(params@),
{
    let mut out: Vec<(String, String)> = Vec::new();
    let n = params.len();
    let mut i: usize = 0;
    while i < n
        invariant
            n == params@.len(),
            i <= n,
            out@ == spec_sort_pairs(params@.take(i as int)),
        decreases n - i,
    {
        let p = (params[i].0.clone(), params[i].1.clone());
        proof {
            assert(p == params@[i as int]);
        }
        out = insert_pair(out, p);
        proof {
            assert(params@.take(i + 1 as int).drop_last() =~= params@.take(i as int));
            assert(params@.take(i + 1 as int).last() == params@[i as int]);
        }
        i = i + 1;
    }
    proof {
        assert(params@.take(n as int) =~= params@);
    }
    out
}

/// Builds the canonical query string of a parameter list: key-unique,
/// sorted by key, each key and value percent-encoded, joined with `&`.
pub fn canonical_query_string(params: &Vec<(String, String)>) -> (r: String)
    ensures
        r@ == spec_canonical_query(params@),
{
    let sorted = sort_unique_params(params);
    let mut out = String::new();
    let n = sorted.len();
    let mut i: usize = 0;
    while i < n
        invariant
            n == sorted@.len(),
            i <= n,
            out@ == spec_join_params(sorted@.take(i as int)),
        decreases n - i,
    {
        if i > 0 {
            push_char(&mut out, '&');
        }
        let ek = url_encode(sorted[i].0.as_str());
        out.append(ek.as_str());
        push_char(&mut out, '=');
        let ev = url_encode(sorted[i].1.as_str());
        out.append(ev.as_str());
        proof {
            assert(sorted@.take(i + 1 as int).drop_last() =~= sorted@.take(i as int));
            assert(sorted@.take(i + 1 as int).last() == sorted@[i as int]);
            if i == 0 {
                assert(out@ =~= spec_join_params(sorted@.take(1int)));
            } else {
                assert(out@ =~= spec_join_params(sorted@.take(i + 1 as int)));
            }
        }
        i = i + 1;
    }
    proof {
        assert(sorted@.take(n as int) =~= sorted@);
    }
    out
}

/// Builds the string the gateway signs from a parameter list.
pub fn sms_string_to_sign(params: &Vec<(String, String)>) -> (r: String)
    ensures
        r@ == spec_sms_string_to_sign(params@),
{
    let q = canonical_query_string(params);
    let eq = url_encode(q.as_str());
    let mut out = String::from_str("POST&%2F&");
    out.append(eq.as_str());
    proof {
        assert(out@ =~= spec_sms_string_to_sign(params@));
    }
    out
}

/// Signs a parameter list: base64 of the HMAC-SHA1 of the string to sign,
/// keyed by the secret followed by `&`. The same secret and parameters
/// always produce the same signature.
pub fn sms_sign_params(secret: &str, params: &Vec<(String, String)>) -> (sig: String)
    ensures
        sig@ == spec_sms_signature(secret@, params@),
{
    let sts = sms_string_to_sign(params);
    let mut key = String::from_str(secret);
    key.append("&");
    let digest = hmac_sha1(key.as_str(), sts.as_str());
    base64_encode(&digest)
}

/// The template code used for a call: the configured one, or the default.
pub open spec fn spec_template_code(o: Option<String>) -> Seq<char> {
    match o {
        Some(s) => s@,
        None => "SMS_123456789"@,
    }
}

/// The fixed parameter set of one SMS call, before signing: action,
/// version, region, recipient, sign name, template code and parameters,
/// access key, signature method and version, nonce and timestamp, in that
/// order.
pub open spec fn sms_params_match(
    cfg: SmsConfig,
    phone: Seq<char>,
    param_json: Seq<char>,
    nonce: Seq<char>,
    ts: Seq<char>,
    p: Seq<(String, String)>,
) -> bool {
    &&& p.len() == 12
    &&& p[0].0@ == "Action"@ && p[0].1@ == "SendSms"@
    &&& p[1].0@ == "Version"@ && p[1].1@ == "2017-05-25"@
    &&& p[2].0@ == "RegionId"@ && p[2].1@ == cfg.region_id@
    &&& p[3].0@ == "PhoneNumbers"@ && p[3].1@ == phone
    &&& p[4].0@ == "SignName"@ && p[4].1@ == cfg.sign_name@
    &&& p[5].0@ == "TemplateCode"@ && p[5].1@ == spec_template_code(cfg.template_code)
    &&& p[6].0@ == "TemplateParam"@ && p[6].1@ == param_json
    &&& p[7].0@ == "AccessKeyId"@ && p[7].1@ == cfg.access_key_id@
    &&& p[8].0@ == "SignatureMethod"@ && p[8].1@ == "HMAC-SHA1"@
    &&& p[9].0@ == "SignatureVersion"@ && p[9].1@ == "1.0"@
    &&& p[10].0@ == "SignatureNonce"@ && p[10].1@ == nonce
    &&& p[11].0@ == "Timestamp"@ && p[11].1@ == ts
}

/// One prepared SMS call: the endpoint to post to and the form fields,
/// the last of which is the signature.
#[derive(Debug, Clone)]
pub struct SmsRequest {
    /// The gateway endpoint.
    pub endpoint: String,
    /// The form fields, signature last.
    pub form: Vec<(String, String)>,
}

/// Prepares one SMS call for a recipient and template-parameter string,
/// with the caller-supplied fresh nonce and ISO-8601 timestamp: the twelve
/// call parameters in their fixed order, then the `Signature` field
/// holding their signature under the configured secret.
pub fn sms_prepare(
    cfg: &SmsConfig,
    phone: &str,
    param_json: &str,
    nonce: &str,
    timestamp: &str,
) -> (r: SmsRequest)
    ensures
        r.endpoint@ == cfg.endpoint@,
        r.form@.len() == 13,
        sms_params_match(*cfg, phone@, param_json@, nonce@, timestamp@, r.form@.take(12)),
        r.form@[12].0@ == "Signature"@,
        r.form@[12].1@ == spec_sms_signature(cfg.access_key_secret@, r.form@.take(12)),
{
    let mut form: Vec<(String, String)> = Vec::new();
    form.push((String::from_str("Action"), String::from_str("SendSms")));
    form.push((String::from_str("Version"), String::from_str("2017-05-25")));
    form.push((String::from_str("RegionId"), cfg.region_id.clone()));
    form.push((String::from_str("PhoneNumbers"), String::from_str(phone)));
    form.push((String::from_str("SignName"), cfg.sign_name.clone()));
    let template = match &cfg.template_code {
        Some(t) => t.clone(),
        None => String::from_str("SMS_123456789"),
    };
    form.push((String::from_str("TemplateCode"), template));
    form.push((String::from_str("TemplateParam"), String::from_str(param_json)));
    form.push((String::from_str("AccessKeyId"), cfg.access_key_id.clone()));
    form.push((String::from_str("SignatureMethod"), String::from_str("HMAC-SHA1")));
    form.push((String::from_str("SignatureVersion"), String::from_str("1.0")));
    form.push((String::from_str("SignatureNonce"), String::from_str(nonce)));
    form.push((String::from_str("Timestamp"), String::from_str(timestamp)));
    let sig = sms_sign_params(cfg.access_key_secret.as_str(), &form);
    let ghost pre = form@;
    form.push((String::from_str("Signature"), sig));
    proof {
        assert(form@.take(12) =~= pre);
    }
    SmsRequest { endpoint: cfg.endpoint.clone(), form }
}

} // verus!
