//! Mathematical model of requests, configuration and responses.
//!
//! Every executable type of the library has a view made of `Seq<char>` and
//! plain values; the decision pipeline is specified over these views.

use vstd::prelude::*;

verus! {

/// View of a parsed absolute URL: the parts of it that the decision
/// pipeline reads.
pub struct UrlSpec {
    pub origin: Seq<char>,
    pub path: Seq<char>,
    pub query: Seq<char>,
    pub host: Seq<char>,
    pub serial: Seq<char>,
    pub raw: Seq<char>,
}

/// View of an incoming request.
pub struct RequestSpec {
    pub method: Seq<char>,
    pub headers: Seq<(Seq<char>, Seq<char>)>,
    pub url: Seq<char>,
}

/// View of the configuration, with the four well-known URLs already parsed.
pub struct ConfigSpec {
    pub public_key: Seq<char>,
    pub private_key: Seq<char>,
    pub app: UrlSpec,
    pub patch_session_token: UrlSpec,
    pub login: UrlSpec,
    pub exit_iframe: UrlSpec,
}

/// View of a terminal response.
pub struct RespSpec {
    pub status: u16,
    pub body: Seq<char>,
    pub headers: Seq<(Seq<char>, Seq<char>)>,
}

/// View of the decoded claim set of an identity token.
pub struct ClaimsSpec {
    pub iss: Seq<char>,
    pub dest: Seq<char>,
    pub aud: Seq<char>,
    pub sub: Seq<char>,
    pub exp: int,
    pub nbf: int,
    pub iat: int,
    pub jti: Seq<char>,
    pub sid: Seq<char>,
    pub sig: Seq<char>,
}

/// View of a successful outcome: the raw token and its decoded claims.
pub struct JwtResultSpec {
    pub id_token: Seq<char>,
    pub payload: ClaimsSpec,
}

/// A parsed absolute URL, reduced to the parts the pipeline reads.
/// `origin` is the ASCII serialization of the URL's origin, `path` the
/// serialized path, `query` the raw query string (empty when absent),
/// `host` the host (empty when absent), `serial` the whole URL serialized
/// back to text, and `raw` the text it was parsed from.
pub struct ParsedUrl {
    pub origin: String,
    pub path: String,
    pub query: String,
    pub host: String,
    pub serial: String,
    pub raw: String,
}

impl View for ParsedUrl {
    type V = UrlSpec;

    open spec fn view(&self) -> UrlSpec {
        UrlSpec {
            origin: self.origin@,
            path: self.path@,
            query: self.query@,
            host: self.host@,
            serial: self.serial@,
            raw: self.raw@,
        }
    }
}

/// A terminal response the caller must emit verbatim.
#[derive(Debug)]
pub struct ResponseObject {
    pub status: u16,
    pub body: String,
    pub headers: Vec<(String, String)>,
}

impl View for ResponseObject {
    type V = RespSpec;

    open spec fn view(&self) -> RespSpec {
        RespSpec { status: self.status, body: self.body@, headers: self.headers.deep_view() }
    }
}

/// An incoming request. Headers are an association list with case-sensitive
/// keys; the first binding of a key is the one read.
pub struct Request {
    pub method: String,
    pub headers: Vec<(String, String)>,
    pub url: String,
}

impl View for Request {
    type V = RequestSpec;

    open spec fn view(&self) -> RequestSpec {
        RequestSpec { method: self.method@, headers: self.headers.deep_view(), url: self.url@ }
    }
}

/// The four well-known URLs of the configuration, parsed once at load time.
pub struct Urls {
    pub app: ParsedUrl,
    pub patch_session_token: ParsedUrl,
    pub login: ParsedUrl,
    pub exit_iframe: ParsedUrl,
}

/// The configuration: key material and the four well-known URLs.
pub struct Config {
    pub public_key: String,
    pub private_key: String,
    pub urls: Urls,
}

impl View for Config {
    type V = ConfigSpec;

    open spec fn view(&self) -> ConfigSpec {
        ConfigSpec {
            public_key: self.public_key@,
            private_key: self.private_key@,
            app: self.urls.app@,
            patch_session_token: self.urls.patch_session_token@,
            login: self.urls.login@,
            exit_iframe: self.urls.exit_iframe@,
        }
    }
}

/// The decoded claim set of an identity token.
#[derive(Debug)]
pub struct JwtPayload {
    pub iss: String,
    pub dest: String,
    pub aud: String,
    pub sub: String,
    pub exp: i64,
    pub nbf: i64,
    pub iat: i64,
    pub jti: String,
    pub sid: String,
    pub sig: String,
}

impl View for JwtPayload {
    type V = ClaimsSpec;

    open spec fn view(&self) -> ClaimsSpec {
        ClaimsSpec {
            iss: self.iss@,
            dest: self.dest@,
            aud: self.aud@,
            sub: self.sub@,
            exp: self.exp as int,
            nbf: self.nbf as int,
            iat: self.iat as int,
            jti: self.jti@,
            sid: self.sid@,
            sig: self.sig@,
        }
    }
}

/// A successful outcome: the raw token together with its decoded claims.
#[derive(Debug)]
pub struct JwtResult {
    pub id_token: String,
    pub payload: JwtPayload,
}

impl View for JwtResult {
    type V = JwtResultSpec;

    open spec fn view(&self) -> JwtResultSpec {
        JwtResultSpec { id_token: self.id_token@, payload: self.payload@ }
    }
}

/// The view of an optional terminal response.
pub open spec fn opt_resp_view(r: Option<ResponseObject>) -> Option<RespSpec> {
    match r {
        Some(e) => Some(e@),
        None => None,
    }
}

/// The view of an outcome: claims on success, a terminal response else.
pub open spec fn outcome_view(r: Result<JwtResult, ResponseObject>) -> Result<
    JwtResultSpec,
    RespSpec,
> {
    match r {
        Ok(j) => Ok(j@),
        Err(e) => Err(e@),
    }
}

/// First value bound to `key` in an association list; `None` when absent.
pub open spec fn lookup(pairs: Seq<(Seq<char>, Seq<char>)>, key: Seq<char>) -> Option<Seq<char>>
    decreases pairs.len(),
{
    if pairs.len() == 0 {
        None
    } else if pairs[0].0 == key {
        Some(pairs[0].1)
    } else {
        lookup(pairs.drop_first(), key)
    }
}

/// First value bound to `key`, or the empty string when absent.
pub open spec fn lookup_or_empty(pairs: Seq<(Seq<char>, Seq<char>)>, key: Seq<char>) -> Seq<
    char,
> {
    match lookup(pairs, key) {
        Some(v) => v,
        None => Seq::empty(),
    }
}

} // verus!
