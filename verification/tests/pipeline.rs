use admin_auth::{validate_admin_request, Config, Request, ResponseObject};

fn test_config() -> Config {
    Config::new(
        "pubkey".to_string(),
        "secret".to_string(),
        "https://app.example.com",
        "https://app.example.com/patch",
        "https://app.example.com/login",
        "https://app.example.com/exit",
    )
    .unwrap()
}

fn get_header<'a>(r: &'a ResponseObject, k: &str) -> Option<&'a str> {
    r.headers.iter().find(|(key, _)| key == k).map(|(_, v)| v.as_str())
}

fn request(method: &str, headers: Vec<(&str, &str)>, url: &str) -> Request {
    Request {
        method: method.to_string(),
        headers: headers.iter().map(|(k, v)| (k.to_string(), v.to_string())).collect(),
        url: url.to_string(),
    }
}

#[test]
fn options_same_origin_is_204_without_allow_origin() {
    let cfg = test_config();
    let req = request(
        "OPTIONS",
        vec![("Origin", "https://app.example.com")],
        "https://app.example.com/anything",
    );
    let r = validate_admin_request(&req, &cfg).unwrap_err();
    assert_eq!(r.status, 204);
    assert_eq!(r.body, "");
    assert_eq!(get_header(&r, "Access-Control-Max-Age"), Some("7200"));
    assert_eq!(get_header(&r, "Access-Control-Allow-Origin"), None);
}

#[test]
fn options_cross_origin_carries_cors_headers() {
    let cfg = test_config();
    let req = request(
        "OPTIONS",
        vec![("Origin", "https://evil.example.com")],
        "https://app.example.com/anything",
    );
    let r = validate_admin_request(&req, &cfg).unwrap_err();
    assert_eq!(r.status, 204);
    assert_eq!(r.body, "");
    assert_eq!(get_header(&r, "Access-Control-Max-Age"), Some("7200"));
    assert_eq!(get_header(&r, "Access-Control-Allow-Origin"), Some("*"));
    assert_eq!(
        get_header(&r, "Access-Control-Expose-Headers"),
        Some("X-Shopify-API-Request-Failure-Reauthorize-Url")
    );
    assert_eq!(
        get_header(&r, "Access-Control-Allow-Headers"),
        Some("Authorization, Content-Type")
    );
}

#[test]
fn options_without_origin_header_is_cross_origin() {
    let cfg = test_config();
    let req = request("OPTIONS", vec![], "https://app.example.com/anything");
    let r = validate_admin_request(&req, &cfg).unwrap_err();
    assert_eq!(r.status, 204);
    assert_eq!(get_header(&r, "Access-Control-Allow-Origin"), Some("*"));
}

#[test]
fn patch_route_serves_bootstrap_page_with_shop_in_csp() {
    let cfg = test_config();
    let req = request(
        "GET",
        vec![],
        "https://app.example.com/patch?shop=acme.myshopify.com",
    );
    let r = validate_admin_request(&req, &cfg).unwrap_err();
    assert_eq!(r.status, 200);
    assert!(r.body.contains("data-api-key=\"pubkey\""));
    assert!(r.body.contains("https://cdn.shopify.com/shopifycloud/app-bridge.js"));
    let csp = get_header(&r, "Content-Security-Policy").unwrap();
    assert_eq!(
        csp,
        "frame-ancestors https://acme.myshopify.com https://admin.shopify.com https://*.spin.dev;"
    );
    assert!(get_header(&r, "Link").unwrap().contains("rel=\"preload\""));
    assert_eq!(get_header(&r, "content-type"), Some("text/html"));
}

#[test]
fn exit_route_uses_resolved_host_and_configured_target() {
    let cfg = test_config();
    let req = request(
        "GET",
        vec![],
        "https://app.example.com/exit?exitIFrame=https://other.example.com/leave",
    );
    let r = validate_admin_request(&req, &cfg).unwrap_err();
    assert_eq!(r.status, 200);
    assert!(r.body.contains("window.open(\"https://app.example.com/exit\", \"_top\")"));
    let csp = get_header(&r, "Content-Security-Policy").unwrap();
    assert_eq!(
        csp,
        "frame-ancestors https://other.example.com https://admin.shopify.com https://*.spin.dev;"
    );
}

#[test]
fn exit_route_resolves_relative_target_against_app() {
    let cfg = test_config();
    let req = request(
        "GET",
        vec![],
        "https://app.example.com/exit?exitIFrame=/leave",
    );
    let r = validate_admin_request(&req, &cfg).unwrap_err();
    assert_eq!(r.status, 200);
    let csp = get_header(&r, "Content-Security-Policy").unwrap();
    assert!(csp.contains("https://app.example.com"));
}

#[test]
fn missing_shop_redirects_to_login() {
    let cfg = test_config();
    let req = request("GET", vec![], "https://app.example.com/home");
    let r = validate_admin_request(&req, &cfg).unwrap_err();
    assert_eq!(r.status, 302);
    assert_eq!(get_header(&r, "Location"), Some("https://app.example.com/login"));
}

#[test]
fn bogus_shop_redirects_to_login() {
    let cfg = test_config();
    let req = request(
        "GET",
        vec![],
        "https://app.example.com/home?shop=bogus.example.com",
    );
    let r = validate_admin_request(&req, &cfg).unwrap_err();
    assert_eq!(r.status, 302);
    assert_eq!(get_header(&r, "Location"), Some("https://app.example.com/login"));
}

#[test]
fn admin_shop_is_normalized_before_domain_check() {
    let cfg = test_config();
    // The shop passes only because admin.myshopify.com/store/acme is
    // rewritten to acme.myshopify.com; the ladder then reaches the
    // embedded check instead of the login redirect for a bad shop.
    let req = request(
        "GET",
        vec![],
        "https://app.example.com/home?shop=admin.myshopify.com/store/acme&host=YWNtZS5teXNob3BpZnkuY29t",
    );
    let r = validate_admin_request(&req, &cfg).unwrap_err();
    assert_eq!(r.status, 302);
    assert_eq!(
        get_header(&r, "Location"),
        Some("https://acme.myshopify.com/apps/pubkey")
    );
}

#[test]
fn missing_host_redirects_to_login() {
    let cfg = test_config();
    let req = request(
        "GET",
        vec![],
        "https://app.example.com/home?shop=acme.myshopify.com",
    );
    let r = validate_admin_request(&req, &cfg).unwrap_err();
    assert_eq!(r.status, 302);
    assert_eq!(get_header(&r, "Location"), Some("https://app.example.com/login"));
}

#[test]
fn malformed_host_is_rejected_with_400() {
    let cfg = test_config();
    let req = request(
        "GET",
        vec![],
        "https://app.example.com/home?shop=acme.myshopify.com&host=@@@",
    );
    let r = validate_admin_request(&req, &cfg).unwrap_err();
    assert_eq!(r.status, 400);
    assert_eq!(r.body, "Invalid host");
    assert!(r.headers.is_empty());
}

#[test]
fn undecodable_host_is_rejected_with_400() {
    let cfg = test_config();
    // Passes the base64 shape check but cannot be decoded (length 4k+1).
    let req = request(
        "GET",
        vec![],
        "https://app.example.com/home?shop=acme.myshopify.com&host=abcde",
    );
    let r = validate_admin_request(&req, &cfg).unwrap_err();
    assert_eq!(r.status, 400);
    assert_eq!(r.body, "Invalid host");
}

#[test]
fn host_without_allowed_domain_redirects_to_login() {
    let cfg = test_config();
    // host decodes to example.com, which names none of the three domains.
    let req = request(
        "GET",
        vec![],
        "https://app.example.com/home?shop=acme.myshopify.com&host=ZXhhbXBsZS5jb20=",
    );
    let r = validate_admin_request(&req, &cfg).unwrap_err();
    assert_eq!(r.status, 302);
    assert_eq!(get_header(&r, "Location"), Some("https://app.example.com/login"));
}

#[test]
fn not_embedded_redirects_to_apps_page() {
    let cfg = test_config();
    let req = request(
        "GET",
        vec![],
        "https://app.example.com/home?shop=acme.myshopify.com&host=YWNtZS5teXNob3BpZnkuY29t&embedded=0",
    );
    let r = validate_admin_request(&req, &cfg).unwrap_err();
    assert_eq!(r.status, 302);
    assert_eq!(
        get_header(&r, "Location"),
        Some("https://acme.myshopify.com/apps/pubkey")
    );
}

#[test]
fn missing_id_token_redirects_to_patch_with_reload() {
    let cfg = test_config();
    let req = request(
        "GET",
        vec![],
        "https://app.example.com/home?shop=acme.myshopify.com&host=YWNtZS5teXNob3BpZnkuY29t&embedded=1",
    );
    let r = validate_admin_request(&req, &cfg).unwrap_err();
    assert_eq!(r.status, 302);
    let qs = "shop=acme.myshopify.com&host=YWNtZS5teXNob3BpZnkuY29t&embedded=1";
    let expected = format!(
        "https://app.example.com/patch?{}&shopify-reload=https://app.example.com//home?{}",
        qs, qs
    );
    assert_eq!(get_header(&r, "Location"), Some(expected.as_str()));
}

#[test]
fn unparsable_request_url_is_rejected() {
    let cfg = test_config();
    let req = request("GET", vec![], "not a url");
    let r = validate_admin_request(&req, &cfg).unwrap_err();
    assert_eq!(r.status, 400);
    assert_eq!(r.body, "Invalid request url");
}

#[test]
fn config_with_invalid_url_is_refused() {
    let c = Config::new(
        "pubkey".to_string(),
        "secret".to_string(),
        "not a url",
        "https://app.example.com/patch",
        "https://app.example.com/login",
        "https://app.example.com/exit",
    );
    assert!(c.is_none());
}
