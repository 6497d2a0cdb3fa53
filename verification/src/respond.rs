//! The terminal responses of the pipeline: their specs and verified builders.

use vstd::prelude::*;

use crate::model::{RespSpec, ResponseObject};
use vstd::string::{StrSliceExecFns, StringExecFns};

verus! {

/// A response without headers.
pub open spec fn plain_resp(status: u16, body: Seq<char>) -> RespSpec {
    RespSpec { status, body, headers: Seq::empty() }
}

/// A 302 redirect to `loc`.
pub open spec fn redirect_resp(loc: Seq<char>) -> RespSpec {
    RespSpec { status: 302, body: Seq::empty(), headers: seq![("Location"@, loc)] }
}

/// Preflight answer for a same-origin request.
pub open spec fn preflight_same_origin_resp() -> RespSpec {
    RespSpec {
        status: 204,
        body: Seq::empty(),
        headers: seq![("Access-Control-Max-Age"@, "7200"@)],
    }
}

/// Preflight answer for a cross-origin request.
pub open spec fn preflight_cross_origin_resp() -> RespSpec {
    RespSpec {
        status: 204,
        body: Seq::empty(),
        headers: seq![
            ("Access-Control-Max-Age"@, "7200"@),
            ("Access-Control-Allow-Origin"@, "*"@),
            (
                "Access-Control-Expose-Headers"@,
                "X-Shopify-API-Request-Failure-Reauthorize-Url"@,
            ),
            ("Access-Control-Allow-Headers"@, "Authorization, Content-Type"@),
        ],
    }
}

/// The app-bridge script tag, tagged with the public key.
pub open spec fn script_tag(key: Seq<char>) -> Seq<char> {
    "<script data-api-key=\""@ + key
        + "\" src=\"https://cdn.shopify.com/shopifycloud/app-bridge.js\"></script>"@
}

/// The content-security-policy value allowing the given ancestor host.
pub open spec fn csp_value(host: Seq<char>) -> Seq<char> {
    "frame-ancestors https://"@ + host + " https://admin.shopify.com https://*.spin.dev;"@
}

/// The headers of the two HTML pages: content type, script preload, CSP.
pub open spec fn page_headers(csp_host: Seq<char>) -> Seq<(Seq<char>, Seq<char>)> {
    seq![
        ("content-type"@, "text/html"@),
        (
            "Link"@,
            "<https://cdn.shopify.com/shopifycloud/app-bridge.js>; rel=\"preload\"; as=\"script\""@,
        ),
        ("Content-Security-Policy"@, csp_value(csp_host)),
    ]
}

/// The session-token bootstrap page.
pub open spec fn patch_page_resp(shop: Seq<char>, key: Seq<char>) -> RespSpec {
    RespSpec { status: 200, body: script_tag(key), headers: page_headers(shop) }
}

/// The exit-iframe page: the script tag plus a script opening the
/// configured exit URL in the top-level browsing context.
pub open spec fn exit_page_resp(
    resolved_host: Seq<char>,
    key: Seq<char>,
    exit_raw: Seq<char>,
) -> RespSpec {
    RespSpec {
        status: 200,
        body: script_tag(key) + "<script>window.open(\""@ + exit_raw
            + "\", \"_top\")</script>"@,
        headers: page_headers(resolved_host),
    }
}

/// A response without headers, built from a literal body.
pub fn make_plain(status: u16, body: &str) -> (r: ResponseObject)
    ensures
        r@ == plain_resp(status, body@),
{
    let r = ResponseObject { status, body: body.to_owned(), headers: Vec::new() };
    proof {
        assert(r@.headers =~= Seq::<(Seq<char>, Seq<char>)>::empty());
        assert(r@ == plain_resp(status, body@));
    }
    r
}

/// A 302 redirect.
pub fn make_redirect(loc: String) -> (r: ResponseObject)
    ensures
        r@ == redirect_resp(loc@),
{
    let ghost l = loc@;
    let mut headers: Vec<(String, String)> = Vec::new();
    headers.push(("Location".to_owned(), loc));
    let r = ResponseObject { status: 302, body: String::new(), headers };
    proof {
        assert(r@.headers =~= seq![("Location"@, l)]);
        assert(r@ == redirect_resp(l));
    }
    r
}

/// The preflight answer for the given origin comparison.
pub fn make_preflight(same_origin: bool) -> (r: ResponseObject)
    ensures
        same_origin ==> r@ == preflight_same_origin_resp(),
        !same_origin ==> r@ == preflight_cross_origin_resp(),
{
    let mut headers: Vec<(String, String)> = Vec::new();
    headers.push(("Access-Control-Max-Age".to_owned(), "7200".to_owned()));
    if !same_origin {
        headers.push(("Access-Control-Allow-Origin".to_owned(), "*".to_owned()));
        headers.push(
            (
                "Access-Control-Expose-Headers".to_owned(),
                "X-Shopify-API-Request-Failure-Reauthorize-Url".to_owned(),
            ),
        );
        headers.push(
            ("Access-Control-Allow-Headers".to_owned(), "Authorization, Content-Type".to_owned()),
        );
    }
    let r = ResponseObject { status: 204, body: String::new(), headers };
    proof {
        if same_origin {
            assert(r@.headers =~= preflight_same_origin_resp().headers);
            assert(r@ == preflight_same_origin_resp());
        } else {
            assert(r@.headers =~= preflight_cross_origin_resp().headers);
            assert(r@ == preflight_cross_origin_resp());
        }
    }
    r
}

/// The headers of the two HTML pages.
fn make_page_headers(csp_host: &str) -> (r: Vec<(String, String)>)
    ensures
        r.deep_view() == page_headers(csp_host@),
{
    let csp = String::from_str("frame-ancestors https://").concat(csp_host).concat(
        " https://admin.shopify.com https://*.spin.dev;",
    );
    let mut headers: Vec<(String, String)> = Vec::new();
    headers.push(("content-type".to_owned(), "text/html".to_owned()));
    headers.push(
        (
            "Link".to_owned(),
            "<https://cdn.shopify.com/shopifycloud/app-bridge.js>; rel=\"preload\"; as=\"script\"".to_owned(),
        ),
    );
    headers.push(("Content-Security-Policy".to_owned(), csp));
    proof {
        assert(headers.deep_view() =~= page_headers(csp_host@));
    }
    headers
}

/// The session-token bootstrap page.
pub fn make_patch_page(shop: &str, key: &str) -> (r: ResponseObject)
    ensures
        r@ == patch_page_resp(shop@, key@),
{
    let body = String::from_str("<script data-api-key=\"").concat(key).concat(
        "\" src=\"https://cdn.shopify.com/shopifycloud/app-bridge.js\"></script>",
    );
    let headers = make_page_headers(shop);
    let r = ResponseObject { status: 200, body, headers };
    proof {
        assert(r@ == patch_page_resp(shop@, key@));
    }
    r
}

/// The exit-iframe page.
pub fn make_exit_page(resolved_host: &str, key: &str, exit_raw: &str) -> (r: ResponseObject)
    ensures
        r@ == exit_page_resp(resolved_host@, key@, exit_raw@),
{
    let body = String::from_str("<script data-api-key=\"").concat(key).concat(
        "\" src=\"https://cdn.shopify.com/shopifycloud/app-bridge.js\"></script>",
    ).concat("<script>window.open(\"").concat(exit_raw).concat("\", \"_top\")</script>");
    let headers = make_page_headers(resolved_host);
    let r = ResponseObject { status: 200, body, headers };
    proof {
        assert(r@.body =~= exit_page_resp(resolved_host@, key@, exit_raw@).body);
        assert(r@ == exit_page_resp(resolved_host@, key@, exit_raw@));
    }
    r
}

} // verus!
