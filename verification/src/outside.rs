//! The trusted boundary: every call into an outside crate, each behind a
//! wrapper whose contract Verus believes. The names below stand for results
//! that are functions of the arguments alone.

use vstd::prelude::*;

use crate::model::{JwtPayload, ParsedUrl, UrlSpec};
use hmac::Mac;

verus! {

/// What `url::Url::parse` makes of a URL string: `None` when parsing fails,
/// else the origin (ASCII serialization), path, query, host and the
/// re-serialized URL.
pub uninterp spec fn url_parse_of(s: Seq<char>) -> Option<UrlSpec>;

/// What `url::Url::join` makes of a reference `rel` resolved against the
/// serialized base URL `base`.
pub uninterp spec fn url_join_of(base: Seq<char>, rel: Seq<char>) -> Option<UrlSpec>;

/// What `url::form_urlencoded::parse` makes of a query string: the key/value
/// pairs in order, percent-decoded, `+` read as a space.
pub uninterp spec fn form_pairs_of(q: Seq<char>) -> Seq<(Seq<char>, Seq<char>)>;

/// What `base64::decode` (standard alphabet, `=` padding) makes of `s`.
pub uninterp spec fn b64_decode_of(s: Seq<char>) -> Option<Seq<u8>>;

/// What `base64::decode_config` with `URL_SAFE_NO_PAD` makes of `s`.
pub uninterp spec fn b64url_decode_of(s: Seq<char>) -> Option<Seq<u8>>;

/// What `base64::encode_config` with `URL_SAFE_NO_PAD` makes of `b`.
pub uninterp spec fn b64url_of(b: Seq<u8>) -> Seq<char>;

/// The HMAC-SHA256 tag over the UTF-8 bytes of `msg`, keyed by the UTF-8
/// bytes of `key`.
pub uninterp spec fn hmac_sha256_of(key: Seq<char>, msg: Seq<char>) -> Seq<u8>;

/// What `serde_json::from_slice` makes of `b` when read as the flat claim
/// set: `None` when `b` is not a JSON object carrying every claim field
/// with the right type.
pub uninterp spec fn claims_of(b: Seq<u8>) -> Option<crate::model::ClaimsSpec>;

/// Relies on `url::Url::parse` and the accessors `origin`, `path`, `query`,
/// `host_str` and `as_str` of the parsed URL.
#[verifier::external_body]
pub(crate) fn parse_url(s: &str) -> (r: Option<ParsedUrl>)
    ensures
        r is Some <==> url_parse_of(s@) is Some,
        r is Some ==> r->0@ == url_parse_of(s@)->0,
{
    match url::Url::parse(s) {
        Ok(u) => Some(ParsedUrl {
            origin: u.origin().ascii_serialization(),
            path: u.path().to_string(),
            query: u.query().unwrap_or("").to_string(),
            host: u.host_str().unwrap_or("").to_string(),
            serial: u.as_str().to_string(),
            raw: s.to_string(),
        }),
        Err(_) => None,
    }
}

/// Relies on `url::Url::join`, after `url::Url::parse` has reread the
/// serialized base URL (serialization round-trips).
#[verifier::external_body]
pub(crate) fn join_url(base: &str, rel: &str) -> (r: Option<ParsedUrl>)
    ensures
        r is Some <==> url_join_of(base@, rel@) is Some,
        r is Some ==> r->0@ == url_join_of(base@, rel@)->0,
{
    let b = match url::Url::parse(base) { Ok(b) => b, Err(_) => return None };
    match b.join(rel) {
        Ok(u) => Some(ParsedUrl {
            origin: u.origin().ascii_serialization(),
            path: u.path().to_string(),
            query: u.query().unwrap_or("").to_string(),
            host: u.host_str().unwrap_or("").to_string(),
            serial: u.as_str().to_string(),
            raw: u.as_str().to_string(),
        }),
        Err(_) => None,
    }
}

/// Relies on `url::form_urlencoded::parse`.
#[verifier::external_body]
pub(crate) fn parse_query(q: &str) -> (r: Vec<(String, String)>)
    ensures
        r.deep_view() == form_pairs_of(q@),
{
    url::form_urlencoded::parse(q.as_bytes()).into_owned().collect()
}

/// Relies on `base64::decode`: standard alphabet with `=` padding, an error
/// for any malformed input.
#[verifier::external_body]
pub(crate) fn b64_decode(s: &str) -> (r: Option<Vec<u8>>)
    ensures
        r is Some <==> b64_decode_of(s@) is Some,
        r is Some ==> r->0@ == b64_decode_of(s@)->0,
{
    base64::decode(s).ok()
}

/// Relies on `base64::decode_config` with `URL_SAFE_NO_PAD`.
#[verifier::external_body]
pub(crate) fn b64url_decode(s: &str) -> (r: Option<Vec<u8>>)
    ensures
        r is Some <==> b64url_decode_of(s@) is Some,
        r is Some ==> r->0@ == b64url_decode_of(s@)->0,
{
    base64::decode_config(s, base64::URL_SAFE_NO_PAD).ok()
}

/// Relies on `base64::encode_config` with `URL_SAFE_NO_PAD`.
#[verifier::external_body]
pub(crate) fn b64url_encode(b: &[u8]) -> (r: String)
    ensures
        r@ == b64url_of(b@),
{
    base64::encode_config(b, base64::URL_SAFE_NO_PAD)
}

/// Relies on `hmac::Hmac<sha2::Sha256>`: `new_from_slice` accepts keys of
/// any length, and the tag is a function of key and message.
#[verifier::external_body]
pub(crate) fn hmac_sha256(key: &str, msg: &str) -> (r: Vec<u8>)
    ensures
        r@ == hmac_sha256_of(key@, msg@),
{
    let mut mac = <hmac::Hmac<sha2::Sha256> as Mac>::new_from_slice(key.as_bytes()).unwrap();
    mac.update(msg.as_bytes());
    mac.finalize().into_bytes().to_vec()
}

/// Relies on `serde_json::from_slice` reading a JSON object, and on the
/// accessors `get`, `as_str` and `as_i64` of `serde_json::Value`.
#[verifier::external_body]
pub(crate) fn parse_claims(b: &[u8]) -> (r: Option<JwtPayload>)
    ensures
        r is Some <==> claims_of(b@) is Some,
        r is Some ==> r->0@ == claims_of(b@)->0,
{
    let v: serde_json::Value = match serde_json::from_slice(b) { Ok(v) => v, Err(_) => return None };
    let s = |k: &str| Some(v.get(k)?.as_str()?.to_string());
    let n = |k: &str| v.get(k)?.as_i64();
    Some(JwtPayload {
        iss: s("iss")?, dest: s("dest")?, aud: s("aud")?, sub: s("sub")?,
        exp: n("exp")?, nbf: n("nbf")?, iat: n("iat")?,
        jti: s("jti")?, sid: s("sid")?, sig: s("sig")?,
    })
}

/// Relies on `core::str::from_utf8`: succeeds exactly on valid UTF-8, and
/// decodes it; stated over vstd's own UTF-8 specification.
#[verifier::external_body]
pub(crate) fn utf8_to_string(b: &[u8]) -> (r: Option<String>)
    ensures
        r is Some <==> vstd::utf8::valid_utf8(b@),
        r is Some ==> r->0@ == vstd::utf8::decode_utf8(b@),
{
    match core::str::from_utf8(b) {
        Ok(s) => Some(s.to_owned()),
        Err(_) => None,
    }
}

} // verus!
