use uncovr::endpoint::HttpMethod;
use uncovr::middleware::auth::{bearer_token, check_token, missing_token, refused_token, token_validator};
use uncovr::middleware::cors::{AccessRule, Cors};
use uncovr::middleware::rate_limit::{client_key, limit_exceeded_message, RateLimit, RateWindow};
use uncovr::middleware::request_id::RequestId;
use uncovr::middleware::BearerAuth;

#[test]
fn cors_presets() {
    let c = Cors::new();
    assert!(c.allowed_origins.is_empty());
    assert_eq!(c.allowed_methods.len(), 6);
    assert_eq!(c.max_age, Some(3600));
    let p = Cors::permissive();
    assert!(matches!(p.origin_rule(), AccessRule::Any));
    assert!(matches!(p.header_rule(), AccessRule::Any));
    let r = Cors::restrictive(vec!["https://a.example".to_string()]);
    assert!(r.allow_credentials);
    assert_eq!(r.allowed_methods, vec![HttpMethod::GET, HttpMethod::POST, HttpMethod::PUT, HttpMethod::DELETE, HttpMethod::PATCH]);
    match r.origin_rule() {
        AccessRule::Listed(l) => assert_eq!(l, vec!["https://a.example".to_string()]),
        AccessRule::Any => panic!("expected a list"),
    }
    match r.header_rule() {
        AccessRule::Listed(l) => assert_eq!(l, vec!["content-type".to_string(), "authorization".to_string()]),
        AccessRule::Any => panic!("expected a list"),
    }
}

#[test]
fn cors_builders() {
    let c = Cors::default()
        .allow_origin("https://a")
        .allow_origin("https://b")
        .methods(vec![HttpMethod::GET])
        .headers(vec!["x-a".to_string()])
        .allow_credentials(true)
        .max_age(7200);
    assert_eq!(c.allowed_origins, vec!["https://a".to_string(), "https://b".to_string()]);
    assert_eq!(c.allowed_methods, vec![HttpMethod::GET]);
    assert_eq!(c.allowed_headers, vec!["x-a".to_string()]);
    assert!(c.allow_credentials);
    assert_eq!(c.max_age, Some(7200));
    let all = c.allow_all_origins().allow_all_headers();
    assert_eq!(all.allowed_origins, vec!["*".to_string()]);
    assert_eq!(all.allowed_headers, vec!["*".to_string()]);
}

#[test]
fn bearer_tokens() {
    assert_eq!(bearer_token(Some("Bearer abc")), Some("abc".to_string()));
    assert_eq!(bearer_token(Some("Bearer ")), Some(String::new()));
    assert_eq!(bearer_token(Some("bearer abc")), None);
    assert_eq!(bearer_token(Some("Basic abc")), None);
    assert_eq!(bearer_token(None), None);
    let m = missing_token();
    assert_eq!(m.status, 401);
    assert_eq!(m.message, "Missing or invalid Authorization header. Expected: Bearer <token>");
    assert_eq!(refused_token("expired").message, "Authentication failed: expired");
    let auth = BearerAuth::new(3);
    assert_eq!(auth.validator, 3);
}

#[test]
fn token_lists() {
    let tokens = vec!["token1".to_string(), "token2".to_string()];
    assert_eq!(check_token(&tokens, "token2"), Ok(()));
    assert_eq!(check_token(&tokens, "token3"), Err("Invalid token".to_string()));
    let v = token_validator(tokens);
    assert_eq!(v("token1".to_string()).into_inner(), Ok(()));
    assert_eq!(v("nope".to_string()).into_inner(), Err("Invalid token".to_string()));
}

#[test]
fn sliding_window() {
    let limit = RateLimit::new(2, 1000);
    let mut w = RateWindow::new();
    assert!(w.check_rate_limit(&limit, "a", 0));
    assert!(w.check_rate_limit(&limit, "a", 10));
    assert!(!w.check_rate_limit(&limit, "a", 20));
    assert!(w.check_rate_limit(&limit, "b", 20));
    assert!(!w.check_rate_limit(&limit, "a", 999));
    assert!(w.check_rate_limit(&limit, "a", 1000));
    assert!(w.check_rate_limit(&limit, "a", 1010));
    assert!(!w.check_rate_limit(&limit, "a", 1500));
    let none = RateLimit::new(0, 1000);
    assert!(!w.check_rate_limit(&none, "c", 0));
}

#[test]
fn client_keys() {
    assert_eq!(client_key(Some("1.2.3.4, 5.6.7.8")), "1.2.3.4");
    assert_eq!(client_key(Some("9.9.9.9")), "9.9.9.9");
    assert_eq!(client_key(Some(",x")), "");
    assert_eq!(client_key(None), "unknown");
    assert_eq!(limit_exceeded_message(), "Rate limit exceeded. Please try again later.");
}

#[test]
fn request_ids() {
    let r = RequestId::new();
    assert_eq!(r.header_name, "x-request-id");
    assert_eq!(RequestId::default().header_name, "x-request-id");
    assert_eq!(RequestId::with_header("x-trace").header_name, "x-trace");
    assert_eq!(r.resolve(Some("abc")), Some("abc".to_string()));
    let fresh = r.resolve(None).expect("the system supplies random bytes");
    assert_eq!(fresh.len(), 36);
    for (i, c) in fresh.chars().enumerate() {
        if i == 8 || i == 13 || i == 18 || i == 23 {
            assert_eq!(c, '-');
        } else {
            assert!(c.is_ascii_hexdigit() && !c.is_ascii_uppercase());
        }
    }
    assert_eq!(fresh.chars().nth(14), Some('4'));
    assert_ne!(Some(fresh), r.resolve(None));
}
