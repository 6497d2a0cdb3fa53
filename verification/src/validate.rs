//! The decision pipeline: route classification, the bootstrap/redirect
//! ladder, and the hand-off to token verification.

use vstd::prelude::*;

use crate::model::{
    lookup, lookup_or_empty, opt_resp_view, outcome_view, Config, ConfigSpec, JwtResult,
    JwtResultSpec, ParsedUrl, Request, RequestSpec, RespSpec, ResponseObject, UrlSpec, Urls,
};
use crate::outside::{
    b64_decode, b64_decode_of, form_pairs_of, join_url, parse_query, parse_url, url_join_of,
    url_parse_of, utf8_to_string,
};
use crate::patterns::{
    admin_shop_slug, admin_slug, b64_syntax, is_b64_syntax, is_shop_domain, mentions_domain,
    mentions_allowed_domain, shop_domain_ok,
};
use crate::respond::{
    exit_page_resp, make_exit_page, make_patch_page, make_plain, make_preflight, make_redirect,
    patch_page_resp, plain_resp, preflight_cross_origin_resp, preflight_same_origin_resp,
    redirect_resp,
};
use crate::text::{
    find_pair, find_pair_or_empty, filter_out_key, join_params, join_query_params, str_eq,
    strip_bearer, strip_bearer_prefix, without_key,
};
use crate::token::{token_outcome, verify_id_token};
use vstd::string::{StrSliceExecFns, StringExecFns};

verus! {

/// The preflight answer, for `OPTIONS` requests only.
pub open spec fn preflight(req: RequestSpec, cfg: ConfigSpec) -> Option<RespSpec> {
    if req.method == "OPTIONS"@ {
        if lookup_or_empty(req.headers, "Origin"@) == cfg.app.origin {
            Some(preflight_same_origin_resp())
        } else {
            Some(preflight_cross_origin_resp())
        }
    } else {
        None
    }
}

/// Two URLs name the same route: equal origin and path.
pub open spec fn same_route(u: UrlSpec, v: UrlSpec) -> bool {
    u.origin == v.origin && u.path == v.path
}

/// The exit target resolved as an absolute URL, or against the app base.
pub open spec fn resolved_exit(base_serial: Seq<char>, rel: Seq<char>) -> Option<UrlSpec> {
    if url_parse_of(rel) is Some {
        url_parse_of(rel)
    } else {
        url_join_of(base_serial, rel)
    }
}

/// The redirect target used when `id_token` is missing: the
/// patch-session-token URL carrying the filtered query string and a
/// `shopify-reload` parameter naming the reconstructed request URL.
pub open spec fn reload_target(
    u: UrlSpec,
    pairs: Seq<(Seq<char>, Seq<char>)>,
    cfg: ConfigSpec,
) -> Seq<char> {
    let qs = join_params(without_key(pairs, "id_token"@));
    let redirect_url = cfg.app.serial + u.path + "?"@ + qs;
    cfg.patch_session_token.serial + "?"@ + qs + "&shopify-reload="@ + redirect_url
}

/// A shop value in admin form rewritten to `<slug>.myshopify.com`; any
/// other value kept as it is.
pub open spec fn normalized_shop(shop0: Seq<char>) -> Seq<char> {
    match admin_slug(shop0) {
        Some(slug) => slug + ".myshopify.com"@,
        None => shop0,
    }
}

/// The bootstrap/redirect ladder, entered without an `Authorization`
/// header: `Some` is a terminal response, `None` falls through to token
/// verification.
pub open spec fn bootstrap(
    u: UrlSpec,
    pairs: Seq<(Seq<char>, Seq<char>)>,
    cfg: ConfigSpec,
) -> Option<RespSpec> {
    let shop0 = lookup_or_empty(pairs, "shop"@);
    if shop0.len() == 0 {
        Some(redirect_resp(cfg.login.serial))
    } else {
        let shop = normalized_shop(shop0);
        if !shop_domain_ok(shop) {
            Some(redirect_resp(cfg.login.serial))
        } else {
            let host = lookup_or_empty(pairs, "host"@);
            if host.len() == 0 {
                Some(redirect_resp(cfg.login.serial))
            } else if !b64_syntax(host) {
                Some(plain_resp(400, "Invalid host"@))
            } else {
                match b64_decode_of(host) {
                    None => Some(plain_resp(400, "Invalid host"@)),
                    Some(bytes) => {
                        if !vstd::utf8::valid_utf8(bytes) {
                            Some(plain_resp(400, "Invalid host"@))
                        } else {
                            let text = vstd::utf8::decode_utf8(bytes);
                            if !mentions_allowed_domain(text) {
                                Some(redirect_resp(cfg.login.serial))
                            } else if lookup_or_empty(pairs, "embedded"@) != "1"@ {
                                Some(
                                    redirect_resp(
                                        "https://"@ + text + "/apps/"@ + cfg.public_key,
                                    ),
                                )
                            } else if lookup_or_empty(pairs, "id_token"@).len() == 0 {
                                Some(redirect_resp(reload_target(u, pairs, cfg)))
                            } else {
                                None
                            }
                        }
                    },
                }
            }
        }
    }
}

/// What the whole pipeline decides for a request under a configuration.
pub open spec fn expected_outcome(req: RequestSpec, cfg: ConfigSpec) -> Result<
    JwtResultSpec,
    RespSpec,
> {
    match preflight(req, cfg) {
        Some(r) => Err(r),
        None => match url_parse_of(req.url) {
            None => Err(plain_resp(400, "Invalid request url"@)),
            Some(u) => {
                let pairs = form_pairs_of(u.query);
                if same_route(u, cfg.patch_session_token) {
                    Err(patch_page_resp(lookup_or_empty(pairs, "shop"@), cfg.public_key))
                } else if same_route(u, cfg.exit_iframe) {
                    match resolved_exit(cfg.app.serial, lookup_or_empty(pairs, "exitIFrame"@)) {
                        None => Err(plain_resp(400, "Invalid exitIFrame url"@)),
                        Some(r) => Err(
                            exit_page_resp(r.host, cfg.public_key, cfg.exit_iframe.raw),
                        ),
                    }
                } else {
                    match lookup(req.headers, "Authorization"@) {
                        Some(auth) => token_outcome(strip_bearer(auth), cfg.private_key),
                        None => match bootstrap(u, pairs, cfg) {
                            Some(r) => Err(r),
                            None => token_outcome(
                                lookup_or_empty(pairs, "id_token"@),
                                cfg.private_key,
                            ),
                        },
                    }
                }
            },
        },
    }
}

impl Config {
    /// Parse the four well-known URLs once, at configuration-load time.
    /// `None` when any of them is not an absolute URL.
    pub fn new(
        public_key: String,
        private_key: String,
        app: &str,
        patch_session_token: &str,
        login: &str,
        exit_iframe: &str,
    ) -> (r: Option<Config>)
        ensures
            r is Some <==> (url_parse_of(app@) is Some && url_parse_of(patch_session_token@)
                is Some && url_parse_of(login@) is Some && url_parse_of(exit_iframe@) is Some),
            r is Some ==> r->0@ == (ConfigSpec {
                public_key: public_key@,
                private_key: private_key@,
                app: url_parse_of(app@)->0,
                patch_session_token: url_parse_of(patch_session_token@)->0,
                login: url_parse_of(login@)->0,
                exit_iframe: url_parse_of(exit_iframe@)->0,
            }),
    {
        let app_url = parse_url(app);
        let patch_url = parse_url(patch_session_token);
        let login_url = parse_url(login);
        let exit_url = parse_url(exit_iframe);
        match (app_url, patch_url, login_url, exit_url) {
            (Some(a), Some(p), Some(l), Some(e)) => Some(
                Config {
                    public_key,
                    private_key,
                    urls: Urls { app: a, patch_session_token: p, login: l, exit_iframe: e },
                },
            ),
            _ => None,
        }
    }
}

/// The bootstrap/redirect ladder: `Some` is a terminal response.
fn bootstrap_check(u: &ParsedUrl, pairs: &Vec<(String, String)>, config: &Config) -> (r: Option<
    ResponseObject,
>)
    ensures
        opt_resp_view(r) == bootstrap(u@, pairs.deep_view(), config@),
{
    let shop0 = find_pair_or_empty(pairs, "shop");
    if shop0.as_str().unicode_len() == 0 {
        return Some(make_redirect(config.urls.login.serial.clone()));
    }
    let shop = match admin_shop_slug(shop0.as_str()) {
        Some(slug) => slug.concat(".myshopify.com"),
        None => shop0,
    };
    if !is_shop_domain(shop.as_str()) {
        return Some(make_redirect(config.urls.login.serial.clone()));
    }
    let host = find_pair_or_empty(pairs, "host");
    if host.as_str().unicode_len() == 0 {
        return Some(make_redirect(config.urls.login.serial.clone()));
    }
    if !is_b64_syntax(host.as_str()) {
        return Some(make_plain(400, "Invalid host"));
    }
    match b64_decode(host.as_str()) {
        None => Some(make_plain(400, "Invalid host")),
        Some(bytes) => match utf8_to_string(bytes.as_slice()) {
            None => Some(make_plain(400, "Invalid host")),
            Some(text) => {
                if !mentions_domain(text.as_str()) {
                    return Some(make_redirect(config.urls.login.serial.clone()));
                }
                let embedded = find_pair_or_empty(pairs, "embedded");
                if !str_eq(embedded.as_str(), "1") {
                    let loc = String::from_str("https://").concat(text.as_str()).concat(
                        "/apps/",
                    ).concat(config.public_key.as_str());
                    return Some(make_redirect(loc));
                }
                let id_token = find_pair_or_empty(pairs, "id_token");
                if id_token.as_str().unicode_len() == 0 {
                    return Some(make_redirect(build_reload_target(u, pairs, config)));
                }
                None
            },
        },
    }
}

/// Build the `shopify-reload` redirect target.
fn build_reload_target(u: &ParsedUrl, pairs: &Vec<(String, String)>, config: &Config) -> (r:
    String)
    ensures
        r@ == reload_target(u@, pairs.deep_view(), config@),
{
    let filtered = filter_out_key(pairs, "id_token");
    let qs = join_query_params(&filtered);
    let redirect_url = config.urls.app.serial.clone().concat(u.path.as_str()).concat(
        "?",
    ).concat(qs.as_str());
    config.urls.patch_session_token.serial.clone().concat("?").concat(qs.as_str()).concat(
        "&shopify-reload=",
    ).concat(redirect_url.as_str())
}

/// Inspect one request and decide: answer a preflight, serve a bootstrap
/// or exit page, redirect to re-establish the handshake, reject with an
/// error, or accept it with the verified identity token and its claims.
pub fn validate_admin_request(request: &Request, config: &Config) -> (r: Result<
    JwtResult,
    ResponseObject,
>)
    ensures
        outcome_view(r) == expected_outcome(request@, config@),
{
    if str_eq(request.method.as_str(), "OPTIONS") {
        let origin = find_pair_or_empty(&request.headers, "Origin");
        let same = str_eq(origin.as_str(), config.urls.app.origin.as_str());
        return Err(make_preflight(same));
    }
    let u = match parse_url(request.url.as_str()) {
        Some(u) => u,
        None => {
            return Err(make_plain(400, "Invalid request url"));
        },
    };
    let pairs = parse_query(u.query.as_str());
    if str_eq(u.origin.as_str(), config.urls.patch_session_token.origin.as_str()) && str_eq(
        u.path.as_str(),
        config.urls.patch_session_token.path.as_str(),
    ) {
        let shop = find_pair_or_empty(&pairs, "shop");
        return Err(make_patch_page(shop.as_str(), config.public_key.as_str()));
    }
    if str_eq(u.origin.as_str(), config.urls.exit_iframe.origin.as_str()) && str_eq(
        u.path.as_str(),
        config.urls.exit_iframe.path.as_str(),
    ) {
        let exit_param = find_pair_or_empty(&pairs, "exitIFrame");
        let resolved = match parse_url(exit_param.as_str()) {
            Some(v) => Some(v),
            None => join_url(config.urls.app.serial.as_str(), exit_param.as_str()),
        };
        return match resolved {
            None => Err(make_plain(400, "Invalid exitIFrame url")),
            Some(v) => Err(
                make_exit_page(
                    v.host.as_str(),
                    config.public_key.as_str(),
                    config.urls.exit_iframe.raw.as_str(),
                ),
            ),
        };
    }
    match find_pair(&request.headers, "Authorization") {
        Some(auth) => {
            let token = strip_bearer_prefix(auth.as_str());
            verify_id_token(token, config.private_key.as_str())
        },
        None => match bootstrap_check(&u, &pairs, config) {
            Some(resp) => Err(resp),
            None => {
                let token = find_pair_or_empty(&pairs, "id_token");
                verify_id_token(token, config.private_key.as_str())
            },
        },
    }
}

} // verus!
