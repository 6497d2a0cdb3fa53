use admin_auth::token::verify_id_token;
use admin_auth::{validate_admin_request, Config, Request};
use hmac::{Hmac, Mac};
use jwt::{SignWithKey, VerifyWithKey};
use sha2::Sha256;

fn test_config() -> Config {
    Config::new(
        "pubkey".to_string(),
        "secret".to_string(),
        "https://app.example.com",
        "https://app.example.com/patch",
        "https://app.example.com/login",
        "https://app.example.com/exit",
    )
    .unwrap()
}

fn claims_json() -> String {
    let mut s = String::from("{\"iss\":\"https://acme.myshopify.com/admin\",");
    s.push_str("\"dest\":\"https://acme.myshopify.com\",");
    s.push_str("\"aud\":\"pubkey\",\"sub\":\"42\",");
    s.push_str("\"exp\":2000000000,\"nbf\":0,\"iat\":1000000000,");
    s.push_str("\"jti\":\"token-id\",\"sid\":\"session-id\",\"sig\":\"x\"}");
    s
}

fn signed_token(key: &str) -> String {
    let header = base64::encode_config(b"{\"alg\":\"HS256\",\"typ\":\"JWT\"}", base64::URL_SAFE_NO_PAD);
    let payload = base64::encode_config(claims_json().as_bytes(), base64::URL_SAFE_NO_PAD);
    let mut mac = Hmac::<Sha256>::new_from_slice(key.as_bytes()).unwrap();
    mac.update(format!("{}.{}", header, payload).as_bytes());
    let sig = base64::encode_config(mac.finalize().into_bytes(), base64::URL_SAFE_NO_PAD);
    format!("{}.{}.{}", header, payload, sig)
}

fn assert_expected_claims(r: &admin_auth::JwtResult) {
    assert_eq!(r.payload.iss, "https://acme.myshopify.com/admin");
    assert_eq!(r.payload.dest, "https://acme.myshopify.com");
    assert_eq!(r.payload.aud, "pubkey");
    assert_eq!(r.payload.sub, "42");
    assert_eq!(r.payload.exp, 2000000000);
    assert_eq!(r.payload.nbf, 0);
    assert_eq!(r.payload.iat, 1000000000);
    assert_eq!(r.payload.jti, "token-id");
    assert_eq!(r.payload.sid, "session-id");
    assert_eq!(r.payload.sig, "x");
}

#[test]
fn signed_token_round_trips() {
    let token = signed_token("secret");
    let r = verify_id_token(token.clone(), "secret").unwrap();
    assert_eq!(r.id_token, token);
    assert_expected_claims(&r);
}

#[test]
fn token_from_query_authenticates_request() {
    let cfg = test_config();
    let token = signed_token("secret");
    let url = format!(
        "https://app.example.com/home?shop=acme.myshopify.com&host=YWNtZS5teXNob3BpZnkuY29t&embedded=1&id_token={}",
        token
    );
    let req = Request { method: "GET".to_string(), headers: vec![], url };
    let r = validate_admin_request(&req, &cfg).unwrap();
    assert_eq!(r.id_token, token);
    assert_expected_claims(&r);
}

#[test]
fn bearer_token_from_header_authenticates_request() {
    let cfg = test_config();
    let token = signed_token("secret");
    let req = Request {
        method: "GET".to_string(),
        headers: vec![("Authorization".to_string(), format!("Bearer {}", token))],
        url: "https://app.example.com/home".to_string(),
    };
    let r = validate_admin_request(&req, &cfg).unwrap();
    assert_eq!(r.id_token, token);
    assert_expected_claims(&r);
}

#[test]
fn tampered_signature_is_rejected() {
    let token = signed_token("secret");
    let mut chars: Vec<char> = token.chars().collect();
    let last = *chars.last().unwrap();
    let replacement = if last == 'A' { 'B' } else { 'A' };
    let n = chars.len();
    chars[n - 1] = replacement;
    let tampered: String = chars.into_iter().collect();
    let r = verify_id_token(tampered, "secret").unwrap_err();
    assert_eq!(r.status, 401);
    assert_eq!(r.body, "Invalid id_token");
}

#[test]
fn token_signed_with_other_key_is_rejected() {
    let token = signed_token("other-secret");
    let r = verify_id_token(token, "secret").unwrap_err();
    assert_eq!(r.status, 401);
    assert_eq!(r.body, "Invalid id_token");
}

#[test]
fn malformed_token_is_rejected() {
    let r = verify_id_token("only-one-segment".to_string(), "secret").unwrap_err();
    assert_eq!(r.status, 401);
    let r = verify_id_token("a.b.c.d".to_string(), "secret").unwrap_err();
    assert_eq!(r.status, 401);
}

#[test]
fn empty_bearer_token_is_missing() {
    let cfg = test_config();
    let req = Request {
        method: "GET".to_string(),
        headers: vec![("Authorization".to_string(), "Bearer ".to_string())],
        url: "https://app.example.com/home".to_string(),
    };
    let r = validate_admin_request(&req, &cfg).unwrap_err();
    assert_eq!(r.status, 400);
    assert_eq!(r.body, "Missing id_token");
}

#[test]
fn token_signed_by_jwt_crate_verifies() {
    let claims: serde_json::Value = serde_json::from_str(&claims_json()).unwrap();
    let key: Hmac<Sha256> = Hmac::new_from_slice(b"secret").unwrap();
    let token = claims.sign_with_key(&key).unwrap();
    let r = verify_id_token(token.clone(), "secret").unwrap();
    assert_eq!(r.id_token, token);
    assert_expected_claims(&r);
}

#[test]
fn jwt_crate_accepts_library_checked_tokens() {
    let token = signed_token("secret");
    let key: Hmac<Sha256> = Hmac::new_from_slice(b"secret").unwrap();
    let verified: Result<serde_json::Value, jwt::Error> = token.as_str().verify_with_key(&key);
    assert!(verified.is_ok());
    assert!(verify_id_token(token, "secret").is_ok());
}
