use rapid_url::errors::{error_chain_fmt, CustomJWTTokenError, GenericError};
use rapid_url::handlers::{authenticate, authenticate_at, shorten_authorized, redirect_outcome, shorten_response, short_url_address, RedirectResponse};
use rapid_url::schemas::{ApplicationSettings, CreateUrlRequest, DataSource, GenericResponse, JWTClaims};
use rapid_url::shortcode::generate_short_url;
use rapid_url::store::UrlStore;
use rapid_url::token::{check_claims, decode_token, decode_token_at, generate_jwt_token_for_user, issue_token_at};

const T0: i64 = 1_700_000_000;

fn signed(sub: &str, exp: u64, secret: &str) -> String {
    let mut claims = serde_json::Map::new();
    claims.insert("sub".to_string(), serde_json::Value::from(sub));
    claims.insert("exp".to_string(), serde_json::Value::from(exp));
    let header = jsonwebtoken::Header::new(jsonwebtoken::Algorithm::HS256);
    let key = jsonwebtoken::EncodingKey::from_secret(secret.as_bytes());
    jsonwebtoken::encode(&header, &serde_json::Value::Object(claims), &key).unwrap()
}

fn is_invalid(r: &Result<u128, CustomJWTTokenError>) -> bool {
    matches!(r, Err(CustomJWTTokenError::Invalid(m)) if m == "Invalid Token")
}

#[test]
fn generated_codes_are_six_alphanumerics() {
    for _ in 0..2000 {
        let code = generate_short_url();
        assert_eq!(code.chars().count(), 6);
        assert!(code.chars().all(|c| c.is_ascii_alphanumeric()));
    }
}

#[test]
fn one_hour_token_lives_one_hour() {
    let sub = uuid::Uuid::new_v4().as_u128();
    let token = issue_token_at(sub, 1, "s3cret", T0).ok().unwrap();
    let t0 = T0 as u64;
    assert_eq!(decode_token_at(&token, "s3cret", t0).ok(), Some(sub));
    assert_eq!(decode_token_at(&token, "s3cret", t0 + 3599).ok(), Some(sub));
    assert_eq!(decode_token_at(&token, "s3cret", t0 + 3600).ok(), Some(sub));
    assert!(matches!(decode_token_at(&token, "s3cret", t0 + 3601), Err(CustomJWTTokenError::Expired)));
    assert!(matches!(decode_token_at(&token, "s3cret", t0 + 86_400), Err(CustomJWTTokenError::Expired)));
}

#[test]
fn token_under_other_secret_is_invalid() {
    let token = issue_token_at(7, 1, "s3cret", T0).ok().unwrap();
    assert!(is_invalid(&decode_token_at(&token, "other", T0 as u64)));
}

#[test]
fn malformed_token_is_invalid() {
    assert!(is_invalid(&decode_token_at("not.a.token", "s3cret", 0)));
    assert!(is_invalid(&decode_token_at("", "s3cret", 0)));
}

#[test]
fn token_carries_uuid_text_subject() {
    let id = uuid::Uuid::parse_str("67e55044-10b1-426f-9247-bb680e5fe0c8").unwrap();
    let token = signed("67e55044-10b1-426f-9247-bb680e5fe0c8", 2_000_000_000, "k");
    assert_eq!(decode_token_at(&token, "k", 0).ok(), Some(id.as_u128()));
    let issued = issue_token_at(id.as_u128(), 1, "k", T0).ok().unwrap();
    let payload = issued.split('.').nth(1).unwrap().to_string();
    assert_ne!(payload, signed("67e55044-10b1-426f-9247-bb680e5fe0c8", 0, "k").split('.').nth(1).unwrap());
    assert_eq!(issued, signed("67e55044-10b1-426f-9247-bb680e5fe0c8", (T0 + 3600) as u64, "k"));
}

#[test]
fn subject_that_is_no_uuid_is_invalid() {
    let token = signed("alice", 2_000_000_000, "k");
    assert!(is_invalid(&decode_token_at(&token, "k", 0)));
}

#[test]
fn expired_before_bad_subject_is_still_invalid() {
    let token = signed("alice", 10, "k");
    assert!(is_invalid(&decode_token_at(&token, "k", 100)));
}

#[test]
fn expiry_out_of_range_is_unexpected() {
    assert!(matches!(issue_token_at(1, -1, "k", 0), Err(GenericError::UnexpectedError(_))));
    assert!(matches!(issue_token_at(1, i64::MAX, "k", i64::MAX), Err(GenericError::UnexpectedError(_))));
}

#[test]
fn wall_clock_token_round_trip() {
    let sub = uuid::Uuid::new_v4().as_u128();
    let token = generate_jwt_token_for_user(sub, 1, "s3cret").ok().unwrap();
    assert_eq!(decode_token(&token, "s3cret").ok(), Some(sub));
    let stale = signed(&uuid::Uuid::from_u128(sub).to_string(), 1_000, "s3cret");
    assert!(matches!(decode_token(&stale, "s3cret"), Err(CustomJWTTokenError::Expired)));
    assert_eq!(authenticate(Some(token.as_str()), "s3cret").ok(), Some(sub));
}

#[test]
fn check_claims_decides_on_expiry() {
    assert_eq!(check_claims(&JWTClaims { sub: 5, exp: 10 }, 9).ok(), Some(5));
    assert_eq!(check_claims(&JWTClaims { sub: 5, exp: 10 }, 10).ok(), Some(5));
    assert!(matches!(check_claims(&JWTClaims { sub: 5, exp: 10 }, 11), Err(CustomJWTTokenError::Expired)));
}

#[test]
fn missing_header_is_unauthorized_and_store_untouched() {
    let store = UrlStore::new();
    let r = authenticate_at(None, "s3cret", 0);
    let e = r.err().unwrap();
    assert_eq!(e.status_code(), 401);
    assert_eq!(e.message(), "Missing authorization token");
    assert_eq!(store.len(), 0);
}

#[test]
fn expired_token_is_unauthorized_and_nothing_inserted() {
    let store = UrlStore::new();
    let token = issue_token_at(3, 1, "s3cret", T0).ok().unwrap();
    let e = authenticate_at(Some(token.as_str()), "s3cret", (T0 + 7200) as u64).err().unwrap();
    assert_eq!(e.status_code(), 401);
    assert_eq!(e.message(), "Token expired");
    let body = e.error_response();
    assert!(!body.status);
    assert_eq!(body.code, "401");
    assert_eq!(store.len(), 0);
}

#[test]
fn valid_token_passes_gate() {
    let token = issue_token_at(11, 2, "s3cret", T0).ok().unwrap();
    assert_eq!(authenticate_at(Some(token.as_str()), "s3cret", T0 as u64 + 10).ok(), Some(11));
    let e = authenticate_at(Some(token.as_str()), "nope", T0 as u64).err().unwrap();
    assert_eq!(e.message(), "Invalid Token");
}

#[test]
fn same_instant_same_token() {
    let a = issue_token_at(21, 3, "s3cret", T0).ok().unwrap();
    let b = issue_token_at(21, 3, "s3cret", T0).ok().unwrap();
    assert_eq!(a, b);
    assert_ne!(a, issue_token_at(21, 3, "s3cret", T0 + 1).ok().unwrap());
}

#[test]
fn other_secret_is_invalid_at_every_instant() {
    let token = issue_token_at(7, 1, "s3cret", T0).ok().unwrap();
    for now in [0u64, T0 as u64, T0 as u64 + 3600, u64::MAX] {
        assert!(is_invalid(&decode_token_at(&token, "S3cret", now)));
    }
}

#[test]
fn shorten_without_header_is_401_and_store_untouched() {
    let mut store = UrlStore::new();
    let req = CreateUrlRequest { original_url: "google.com".to_string(), expiry_date: None };
    let e = shorten_authorized(&mut store, None, "s3cret", T0 as u64, &req, &settings(), T0).err().unwrap();
    assert_eq!(e.status_code(), 401);
    assert_eq!(e.message(), "Missing authorization token");
    assert_eq!(store.len(), 0);
}

#[test]
fn shorten_with_expired_token_is_401_and_nothing_inserted() {
    let mut store = UrlStore::new();
    let token = issue_token_at(3, 1, "s3cret", T0).ok().unwrap();
    let req = CreateUrlRequest { original_url: "google.com".to_string(), expiry_date: None };
    let now = (T0 + 3601) as u64;
    let e = shorten_authorized(&mut store, Some(token.as_str()), "s3cret", now, &req, &settings(), T0 + 3601).err().unwrap();
    let body = e.error_response();
    assert_eq!(e.status_code(), 401);
    assert!(!body.status);
    assert_eq!(body.code, "401");
    assert_eq!(body.customer_message, "Token expired");
    assert_eq!(body.data, Some(()));
    assert_eq!(store.len(), 0);
}

#[test]
fn shorten_with_valid_token_stores_for_its_subject() {
    let mut store = UrlStore::new();
    let token = issue_token_at(3, 1, "s3cret", T0).ok().unwrap();
    let req = CreateUrlRequest { original_url: "google.com".to_string(), expiry_date: None };
    let resp = shorten_authorized(&mut store, Some(token.as_str()), "s3cret", T0 as u64, &req, &settings(), T0).ok().unwrap();
    let address = resp.data.unwrap().short_url;
    let code = address.strip_prefix("https://rapid.url/").unwrap();
    assert_eq!(store.get_original_url(code), Some("google.com".to_string()));
    assert_eq!(store.len(), 1);
}

fn settings() -> ApplicationSettings {
    ApplicationSettings { port: 8000, host: "127.0.0.1".to_string(), workers: 1, domain: "rapid.url".to_string() }
}

#[test]
fn error_kinds_map_to_statuses() {
    let v = GenericError::ValidationError("bad".to_string());
    let u = GenericError::UnexpectedError("boom".to_string());
    let j = GenericError::InvalidJWT("jwt".to_string());
    assert_eq!((v.status_code(), u.status_code(), j.status_code()), (400, 500, 401));
    let body = u.error_response();
    assert_eq!(body.code, "500");
    assert_eq!(body.customer_message, "Internal Server Error");
    assert_eq!(v.error_response().customer_message, "bad");
    assert_eq!(j.error_response().customer_message, "jwt");
    assert_eq!(body.data, Some(()));
    assert_eq!(v.error_response().code, "400");
}

#[test]
fn jwt_error_messages() {
    assert_eq!(CustomJWTTokenError::Expired.message(), "Token expired");
    assert_eq!(CustomJWTTokenError::Invalid("x".to_string()).message(), "x");
}

#[test]
fn error_chain_is_formatted() {
    let chain = vec!["outer".to_string(), "middle".to_string(), "root".to_string()];
    assert_eq!(error_chain_fmt(&chain), "outer\n\nCaused by:\n\tmiddle\nCaused by:\n\troot\n");
    assert_eq!(error_chain_fmt(&vec!["only".to_string()]), "only\n\n");
    assert_eq!(error_chain_fmt(&vec![]), "");
}

#[test]
fn response_envelopes() {
    let ok: GenericResponse<u8> = GenericResponse::success("done", Some(1));
    assert!(ok.status);
    assert_eq!(ok.code, "200");
    assert_eq!(ok.data, Some(1));
    let err: GenericResponse<u8> = GenericResponse::error("no", "404", None);
    assert!(!err.status);
    assert_eq!(err.code, "404");
    assert_eq!(err.customer_message, "no");
    assert_eq!(err.data, None);
}

#[test]
fn address_and_shorten_response() {
    assert_eq!(short_url_address("rapid.url", "abc123"), "https://rapid.url/abc123");
    let r = shorten_response("d.io", "Zz9aaa", true).ok().unwrap();
    assert_eq!(r.data.unwrap().short_url, "https://d.io/Zz9aaa");
    let e = shorten_response("d.io", "Zz9aaa", false).err().unwrap();
    assert_eq!(e.status_code(), 400);
}

#[test]
fn redirect_outcomes() {
    match redirect_outcome(Ok(Some("google.com".to_string()))) {
        RedirectResponse::Found(u) => assert_eq!(u, "google.com"),
        _ => panic!("expected a redirect"),
    }
    assert_eq!(redirect_outcome(Ok(None)).status_code(), 404);
    assert_eq!(redirect_outcome(Err(())).status_code(), 500);
    assert_eq!(redirect_outcome(Ok(Some("x".to_string()))).status_code(), 302);
}

#[test]
fn data_source_names() {
    assert_eq!(DataSource::PlaceOrder.as_str(), "place_order");
    assert_eq!(DataSource::TradeIndia.as_str(), "trade_india");
    assert_eq!(DataSource::Rapidor.as_str(), "rapidor");
}
