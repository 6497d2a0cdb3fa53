use admin_auth::patterns::{admin_shop_slug, is_b64_syntax, is_shop_domain, mentions_domain};
use admin_auth::text::strip_bearer_prefix;

#[test]
fn admin_forms_yield_their_slug() {
    assert_eq!(
        admin_shop_slug("admin.myshopify.com/store/acme"),
        Some("acme".to_string())
    );
    assert_eq!(
        admin_shop_slug("admin.shopify.com/store/a-b_c1"),
        Some("a-b_c1".to_string())
    );
    assert_eq!(
        admin_shop_slug("admin.myshopify.io/store/x"),
        Some("x".to_string())
    );
}

#[test]
fn non_admin_forms_are_kept() {
    assert_eq!(admin_shop_slug("acme.myshopify.com"), None);
    assert_eq!(admin_shop_slug("admin.myshopify.com/store/"), None);
    assert_eq!(admin_shop_slug("admin.myshopify.com/store/-x"), None);
    assert_eq!(admin_shop_slug("admin.example.com/store/acme"), None);
    assert_eq!(admin_shop_slug("admin.myshopify.com/store/a/b"), None);
}

#[test]
fn shop_domain_shapes() {
    assert!(is_shop_domain("acme.myshopify.com"));
    assert!(is_shop_domain("a-b_c.shopify.com"));
    assert!(is_shop_domain("x1.myshopify.io///"));
    assert!(!is_shop_domain("bogus.example.com"));
    assert!(!is_shop_domain("-acme.myshopify.com"));
    assert!(!is_shop_domain(".myshopify.com"));
    assert!(!is_shop_domain("acme.myshopify.com/x"));
    assert!(!is_shop_domain("a.b.myshopify.com"));
}

#[test]
fn base64_shapes() {
    assert!(is_b64_syntax("YWNtZQ=="));
    assert!(is_b64_syntax("abc"));
    assert!(is_b64_syntax("a+/9="));
    assert!(!is_b64_syntax(""));
    assert!(!is_b64_syntax("@@@"));
    assert!(!is_b64_syntax("==="));
    assert!(!is_b64_syntax("abc==="));
    assert!(!is_b64_syntax("ab=c"));
}

#[test]
fn domain_mentions() {
    assert!(mentions_domain("acme.myshopify.com"));
    assert!(mentions_domain("see shopify.com inside"));
    assert!(mentions_domain("x.myshopify.io"));
    assert!(!mentions_domain("example.com"));
    assert!(!mentions_domain(""));
}

#[test]
fn bearer_prefix_is_stripped_repeatedly() {
    assert_eq!(strip_bearer_prefix("Bearer abc"), "abc");
    assert_eq!(strip_bearer_prefix("Bearer Bearer abc"), "abc");
    assert_eq!(strip_bearer_prefix("abc"), "abc");
    assert_eq!(strip_bearer_prefix("Bearer "), "");
    assert_eq!(strip_bearer_prefix("bearer abc"), "bearer abc");
}
