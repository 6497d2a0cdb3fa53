//! The behavioural laws of the pipeline, proved once and for all inputs.

use vstd::prelude::*;

use crate::model::{lookup_or_empty, ClaimsSpec, ConfigSpec, JwtResultSpec, RequestSpec, RespSpec, UrlSpec};
use crate::outside::{b64_decode_of, b64url_of, hmac_sha256_of};
use crate::patterns::{b64_syntax, contains_seq, matches_at, mentions_allowed_domain, shop_domain_ok};
use crate::respond::{csp_value, patch_page_resp, redirect_resp};
use crate::text::{join_params, without_key};
use crate::token::{
    dot_free, has_two_dots, lemma_two_dots_unique, payload_claims, token_outcome, token_verified,
    two_dots_at,
};
use crate::validate::{bootstrap, expected_outcome, normalized_shop};

verus! {

/// Every `OPTIONS` request is answered 204 with an empty body.
pub proof fn lemma_options_is_204(req: RequestSpec, cfg: ConfigSpec)
    requires
        req.method == "OPTIONS"@,
    ensures
        ({
            let o = expected_outcome(req, cfg);
            o matches Err(e) && e.status == 204 && e.body == Seq::<char>::empty()
        }),
{
}

/// A same-origin preflight never carries `Access-Control-Allow-Origin`; a
/// cross-origin preflight carries it as `*` together with the two fixed
/// extra headers.
pub proof fn lemma_preflight_cors_headers(req: RequestSpec, cfg: ConfigSpec)
    requires
        req.method == "OPTIONS"@,
    ensures
        lookup_or_empty(req.headers, "Origin"@) == cfg.app.origin ==> ({
            let o = expected_outcome(req, cfg);
            o matches Err(e) && (forall|k: int|
                0 <= k < e.headers.len() ==> (#[trigger] e.headers[k]).0
                    != "Access-Control-Allow-Origin"@)
        }),
        lookup_or_empty(req.headers, "Origin"@) != cfg.app.origin ==> ({
            let o = expected_outcome(req, cfg);
            o matches Err(e) && e.headers.contains(("Access-Control-Allow-Origin"@, "*"@))
                && e.headers.contains(
                (
                    "Access-Control-Expose-Headers"@,
                    "X-Shopify-API-Request-Failure-Reauthorize-Url"@,
                ),
            ) && e.headers.contains(
                ("Access-Control-Allow-Headers"@, "Authorization, Content-Type"@),
            )
        }),
{
    reveal_strlit("Access-Control-Max-Age");
    reveal_strlit("Access-Control-Allow-Origin");
    if lookup_or_empty(req.headers, "Origin"@) == cfg.app.origin {
        let e = expected_outcome(req, cfg)->Err_0;
        assert(e.headers.len() == 1);
        assert(e.headers[0].0 == "Access-Control-Max-Age"@);
        assert(e.headers[0].0 != "Access-Control-Allow-Origin"@);
    }
    if lookup_or_empty(req.headers, "Origin"@) != cfg.app.origin {
        let e = expected_outcome(req, cfg)->Err_0;
        assert(e.headers.contains(("Access-Control-Allow-Origin"@, "*"@))) by {
            assert(e.headers[1] == ("Access-Control-Allow-Origin"@, "*"@));
        }
        assert(e.headers.contains(
            (
                "Access-Control-Expose-Headers"@,
                "X-Shopify-API-Request-Failure-Reauthorize-Url"@,
            ),
        )) by {
            assert(e.headers[2] == (
                "Access-Control-Expose-Headers"@,
                "X-Shopify-API-Request-Failure-Reauthorize-Url"@,
            ));
        }
        assert(e.headers.contains(
            ("Access-Control-Allow-Headers"@, "Authorization, Content-Type"@),
        )) by {
            assert(e.headers[3] == (
                "Access-Control-Allow-Headers"@,
                "Authorization, Content-Type"@,
            ));
        }
    }
}

/// The bootstrap page's `frame-ancestors` directive names the shop that was
/// asked for and always allows the two fixed admin hosts.
pub proof fn lemma_patch_csp_frame_ancestors(shop: Seq<char>, key: Seq<char>)
    ensures
        patch_page_resp(shop, key).headers.contains(
            ("Content-Security-Policy"@, csp_value(shop)),
        ),
        contains_seq(csp_value(shop), shop),
        contains_seq(csp_value(shop), "https://admin.shopify.com"@),
        contains_seq(csp_value(shop), "https://*.spin.dev"@),
{
    let csp = csp_value(shop);
    reveal_strlit("frame-ancestors https://");
    reveal_strlit(" https://admin.shopify.com https://*.spin.dev;");
    reveal_strlit("https://admin.shopify.com");
    reveal_strlit("https://*.spin.dev");
    assert(patch_page_resp(shop, key).headers[2] == ("Content-Security-Policy"@, csp));
    assert(csp.subrange(24, 24 + shop.len() as int) =~= shop);
    assert(matches_at(csp, 24, shop));
    let a = 24 + shop.len() as int;
    assert(csp.subrange(a + 1, a + 26) =~= "https://admin.shopify.com"@);
    assert(matches_at(csp, a + 1, "https://admin.shopify.com"@));
    assert(csp.subrange(a + 27, a + 45) =~= "https://*.spin.dev"@);
    assert(matches_at(csp, a + 27, "https://*.spin.dev"@));
}

/// A host that decodes to text naming none of the allowed domains is sent
/// back through the login flow.
pub proof fn lemma_foreign_host_redirects(
    u: UrlSpec,
    pairs: Seq<(Seq<char>, Seq<char>)>,
    cfg: ConfigSpec,
    bytes: Seq<u8>,
)
    requires
        lookup_or_empty(pairs, "shop"@).len() > 0,
        shop_domain_ok(normalized_shop(lookup_or_empty(pairs, "shop"@))),
        lookup_or_empty(pairs, "host"@).len() > 0,
        b64_syntax(lookup_or_empty(pairs, "host"@)),
        vstd::utf8::valid_utf8(bytes),
        !mentions_allowed_domain(vstd::utf8::decode_utf8(bytes)),
    ensures
        b64_decode_of(lookup_or_empty(pairs, "host"@)) == Some(bytes) ==> bootstrap(
            u,
            pairs,
            cfg,
        ) == Some(redirect_resp(cfg.login.serial)),
{
}

/// When the request is not embedded, it is redirected to the app listing
/// under the decoded host.
pub proof fn lemma_not_embedded_redirects(
    u: UrlSpec,
    pairs: Seq<(Seq<char>, Seq<char>)>,
    cfg: ConfigSpec,
    bytes: Seq<u8>,
)
    requires
        lookup_or_empty(pairs, "shop"@).len() > 0,
        shop_domain_ok(normalized_shop(lookup_or_empty(pairs, "shop"@))),
        lookup_or_empty(pairs, "host"@).len() > 0,
        b64_syntax(lookup_or_empty(pairs, "host"@)),
        vstd::utf8::valid_utf8(bytes),
        mentions_allowed_domain(vstd::utf8::decode_utf8(bytes)),
        lookup_or_empty(pairs, "embedded"@) != "1"@,
    ensures
        b64_decode_of(lookup_or_empty(pairs, "host"@)) == Some(bytes) ==> bootstrap(
            u,
            pairs,
            cfg,
        ) == Some(
            redirect_resp(
                "https://"@ + vstd::utf8::decode_utf8(bytes) + "/apps/"@ + cfg.public_key,
            ),
        ),
{
}

/// When every bootstrap check passes but `id_token` is missing, the
/// redirect goes to the patch-session-token URL carrying the filtered
/// query string and a `shopify-reload` parameter naming the request URL
/// rebuilt against the app base.
pub proof fn lemma_missing_token_reload_redirect(
    u: UrlSpec,
    pairs: Seq<(Seq<char>, Seq<char>)>,
    cfg: ConfigSpec,
    bytes: Seq<u8>,
)
    requires
        lookup_or_empty(pairs, "shop"@).len() > 0,
        shop_domain_ok(normalized_shop(lookup_or_empty(pairs, "shop"@))),
        lookup_or_empty(pairs, "host"@).len() > 0,
        b64_syntax(lookup_or_empty(pairs, "host"@)),
        vstd::utf8::valid_utf8(bytes),
        mentions_allowed_domain(vstd::utf8::decode_utf8(bytes)),
        lookup_or_empty(pairs, "embedded"@) == "1"@,
        lookup_or_empty(pairs, "id_token"@).len() == 0,
    ensures
        b64_decode_of(lookup_or_empty(pairs, "host"@)) == Some(bytes) ==> bootstrap(
            u,
            pairs,
            cfg,
        ) == Some(
            redirect_resp(
                cfg.patch_session_token.serial + "?"@ + join_params(
                    without_key(pairs, "id_token"@),
                ) + "&shopify-reload="@ + (cfg.app.serial + u.path + "?"@ + join_params(
                    without_key(pairs, "id_token"@),
                )),
            ),
        ),
{
}

/// A token signed with the same key round-trips: it verifies and yields
/// exactly the claims its payload carries.
pub proof fn lemma_signed_token_verifies(
    h: Seq<char>,
    p: Seq<char>,
    s: Seq<char>,
    key: Seq<char>,
    c: ClaimsSpec,
)
    requires
        dot_free(h),
        dot_free(p),
        dot_free(s),
    ensures
        (s == b64url_of(hmac_sha256_of(key, h + seq!['.'] + p)) && payload_claims(p) == Some(c))
            ==> token_outcome(h + seq!['.'] + p + seq!['.'] + s, key) == Ok::<
            JwtResultSpec,
            RespSpec,
        >(JwtResultSpec { id_token: h + seq!['.'] + p + seq!['.'] + s, payload: c }),
{
    let t = h + seq!['.'] + p + seq!['.'] + s;
    let i0 = h.len() as int;
    let j0 = i0 + 1 + p.len() as int;
    lemma_token_shape(h, p, s, key);
    if s == b64url_of(hmac_sha256_of(key, h + seq!['.'] + p)) && payload_claims(p) == Some(c) {
        assert(token_verified(t, key) == Some(c));
    }
}

/// The structural part shared by the round-trip and tampering laws: a
/// three-segment token splits at its two dots, and the parts recovered
/// are the segments themselves.
proof fn lemma_token_shape(h: Seq<char>, p: Seq<char>, s: Seq<char>, key: Seq<char>)
    requires
        dot_free(h),
        dot_free(p),
        dot_free(s),
    ensures
        ({
            let t = h + seq!['.'] + p + seq!['.'] + s;
            let i0 = h.len() as int;
            let j0 = i0 + 1 + p.len() as int;
            two_dots_at(t, i0, j0) && t.take(j0) == h + seq!['.'] + p && t.skip(
                j0 + 1,
            ) == s && t.subrange(i0 + 1, j0) == p && token_verified(t, key) == (
            if t.skip(j0 + 1) == b64url_of(hmac_sha256_of(key, t.take(j0))) {
                payload_claims(p)
            } else {
                None
            })
        }),
{
    let t = h + seq!['.'] + p + seq!['.'] + s;
    let i0 = h.len() as int;
    let j0 = i0 + 1 + p.len() as int;
    assert(t.len() == h.len() + p.len() + s.len() + 2);
    assert(t[i0] == '.');
    assert(t[j0] == '.');
    assert forall|k: int| 0 <= k < t.len() && t[k] == '.' implies k == i0 || k == j0 by {
        if k < i0 {
            assert(t[k] == h[k]);
        } else if i0 < k < j0 {
            assert(t[k] == p[k - i0 - 1]);
        } else if k > j0 {
            assert(t[k] == s[k - j0 - 1]);
        }
    }
    assert(two_dots_at(t, i0, j0));
    let (i, j) = choose|i: int, j: int| two_dots_at(t, i, j);
    lemma_two_dots_unique(t, i0, j0, i, j);
    assert(t.take(j0) =~= h + seq!['.'] + p);
    assert(t.skip(j0 + 1) =~= s);
    assert(t.subrange(i0 + 1, j0) =~= p);
}

/// Any change to the signature segment of a properly signed token makes
/// verification fail.
pub proof fn lemma_tampered_signature_fails(
    h: Seq<char>,
    p: Seq<char>,
    s: Seq<char>,
    s2: Seq<char>,
    key: Seq<char>,
)
    requires
        dot_free(h),
        dot_free(p),
        dot_free(s),
        s2 != s,
    ensures
        s == b64url_of(hmac_sha256_of(key, h + seq!['.'] + p)) ==> token_outcome(
            h + seq!['.'] + p + seq!['.'] + s2,
            key,
        ) is Err,
{
    let t = h + seq!['.'] + p + seq!['.'] + s2;
    let i0 = h.len() as int;
    let j0 = i0 + 1 + p.len() as int;
    if dot_free(s2) {
        lemma_token_shape(h, p, s2, key);
        if s == b64url_of(hmac_sha256_of(key, h + seq!['.'] + p)) {
            assert(t.skip(j0 + 1) == s2);
            assert(t.take(j0) == h + seq!['.'] + p);
            assert(token_verified(t, key) is None);
        }
    } else {
        let k = choose|k: int| 0 <= k < s2.len() && s2[k] == '.';
        assert(t[i0] == '.');
        assert(t[j0] == '.');
        assert(t[j0 + 1 + k] == s2[k]);
        if has_two_dots(t) {
            let (i, j) = choose|i: int, j: int| two_dots_at(t, i, j);
            assert(i0 == i || i0 == j);
            assert(j0 == i || j0 == j);
            assert(j0 + 1 + k == i || j0 + 1 + k == j);
            assert(false);
        }
        assert(token_verified(t, key) is None);
    }
    assert(t.len() > 0);
}

} // verus!
