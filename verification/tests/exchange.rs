use jsonwebtoken::{encode, get_current_timestamp, EncodingKey, Header};
use serde_json::Value;
use sso_bridge::cache::ExchangeCache;
use sso_bridge::claims::Claims;
use sso_bridge::error::SsoError;
use sso_bridge::exchange::{exchange_code, exchange_found, Exchange, ProviderTokens, TokenReply, TokenRequest, UserInfoReply, UserInfoRequest};
use sso_bridge::identity::CachedIdentity;
use sso_bridge::redeem::{redeem, Redemption};

fn id_token(email: Option<&str>, nonce: &str, exp_offset: i64) -> String {
    let mut object = serde_json::Map::new();
    let now = i64::try_from(get_current_timestamp()).expect("a timestamp");
    object.insert("exp".to_string(), Value::from(now + exp_offset));
    object.insert("nonce".to_string(), Value::from(nonce));
    if let Some(email) = email {
        object.insert("email".to_string(), Value::from(email));
    }
    encode(&Header::default(), &Value::Object(object), &EncodingKey::from_secret(b"provider key")).expect("a token")
}

fn tokens(refresh: Option<&str>, id_token: Option<String>) -> TokenReply {
    TokenReply::Tokens(ProviderTokens {
        access_token: "at-1".to_string(),
        refresh_token: refresh.map(|t| t.to_string()),
        id_token,
    })
}

fn request(code: &str) -> TokenRequest {
    TokenRequest { code: code.to_string() }
}

fn claims(email: Option<&str>, nonce: &str) -> Option<Claims> {
    Some(Claims { exp: 4_102_444_800, email: email.map(|e| e.to_string()), nonce: nonce.to_string() })
}

#[test]
fn unknown_code_asks_for_the_token_endpoint() {
    let cache = ExchangeCache::new();
    match exchange_code(&cache, &"c-9".to_string()) {
        Exchange::NeedsTokens(request) => assert_eq!(request.code, "c-9"),
        other => panic!("expected a token request, got {:?}", other),
    }
}

#[test]
fn token_reply_is_read_and_cached() {
    let mut cache = ExchangeCache::new();
    let reply = tokens(Some("rt-1"), Some(id_token(Some("alice@example.com"), "n-1", 3600)));
    match request("c-1").answered(&mut cache, reply) {
        Exchange::Resolved(email) => assert_eq!(email, "alice@example.com"),
        other => panic!("expected an email, got {:?}", other),
    }
    let kept = cache.lookup(&"c-1".to_string()).expect("an entry");
    assert_eq!(kept.email, "alice@example.com");
    assert_eq!(kept.nonce, "n-1");
    assert_eq!(kept.refresh_token, "rt-1");
    assert!(cache.lookup(&"c-2".to_string()).is_none());
}

#[test]
fn request_that_was_not_sent_fails_by_its_cause() {
    let mut cache = ExchangeCache::new();
    match request("c-1").answered(&mut cache, TokenReply::Misconfigured("bad redirect".to_string())) {
        Exchange::Failed(SsoError::Configuration(cause)) => assert_eq!(cause, "bad redirect"),
        other => panic!("expected a configuration failure, got {:?}", other),
    }
    match request("c-1").answered(&mut cache, TokenReply::Undiscovered("no route".to_string())) {
        Exchange::Failed(SsoError::Discovery(cause)) => assert_eq!(cause, "no route"),
        other => panic!("expected a discovery failure, got {:?}", other),
    }
    assert!(cache.lookup(&"c-1".to_string()).is_none());
}

#[test]
fn reply_without_identity_token_fails() {
    let mut cache = ExchangeCache::new();
    let step = request("c-1").answered(&mut cache, tokens(Some("rt-1"), None));
    assert!(matches!(step, Exchange::Failed(SsoError::MissingIdentityToken)));
    let step = request("c-1").answered_with_claims(&mut cache, tokens(Some("rt-1"), None), claims(Some("a@b"), "n"));
    assert!(matches!(step, Exchange::Failed(SsoError::MissingIdentityToken)));
    assert!(cache.lookup(&"c-1".to_string()).is_none());
}

#[test]
fn unreadable_identity_token_fails() {
    let mut cache = ExchangeCache::new();
    let step = request("c-1").answered(&mut cache, tokens(Some("rt-1"), Some("garbage".to_string())));
    assert!(matches!(step, Exchange::Failed(SsoError::IdentityTokenDecode)));
    let expired = id_token(Some("alice@example.com"), "n-1", -3600);
    let step = request("c-1").answered(&mut cache, tokens(Some("rt-1"), Some(expired)));
    assert!(matches!(step, Exchange::Failed(SsoError::IdentityTokenDecode)));
    let step = request("c-1").answered_with_claims(&mut cache, tokens(None, Some("x".to_string())), None);
    assert!(matches!(step, Exchange::Failed(SsoError::IdentityTokenDecode)));
    assert!(cache.lookup(&"c-1".to_string()).is_none());
}

#[test]
fn failure_of_the_request_comes_before_anything_else() {
    let mut cache = ExchangeCache::new();
    let step = request("c-1").answered_with_claims(
        &mut cache,
        TokenReply::Rejected("invalid_grant".to_string()),
        claims(Some("alice@example.com"), "n-1"),
    );
    match step {
        Exchange::Failed(SsoError::TokenExchange(cause)) => assert_eq!(cause, "invalid_grant"),
        other => panic!("expected a token exchange failure, got {:?}", other),
    }
    assert!(cache.lookup(&"c-1".to_string()).is_none());
}

#[test]
fn missing_refresh_token_is_kept_as_empty() {
    let mut cache = ExchangeCache::new();
    let reply = tokens(None, Some(id_token(Some("alice@example.com"), "n-1", 3600)));
    assert!(matches!(request("c-1").answered(&mut cache, reply), Exchange::Resolved(_)));
    assert_eq!(cache.lookup(&"c-1".to_string()).expect("an entry").refresh_token, "");
    let lookup = match redeem(&mut cache, &"c-1".to_string()) {
        Redemption::NeedsNonce(lookup) => lookup,
        other => panic!("expected a nonce lookup, got {:?}", other),
    };
    let deletion = match lookup.answered(true) {
        Redemption::NeedsNonceDeletion(deletion) => deletion,
        other => panic!("expected a nonce deletion, got {:?}", other),
    };
    match deletion.answered(Ok(())) {
        Redemption::Released(token) => assert_eq!(token, ""),
        other => panic!("expected the refresh token, got {:?}", other),
    }
}

#[test]
fn token_without_email_asks_userinfo() {
    let mut cache = ExchangeCache::new();
    let reply = tokens(Some("rt-1"), Some(id_token(None, "n-1", 3600)));
    let ask = match request("c-1").answered(&mut cache, reply) {
        Exchange::NeedsUserInfo(ask) => ask,
        other => panic!("expected a userinfo request, got {:?}", other),
    };
    assert_eq!(ask.code, "c-1");
    assert_eq!(ask.access_token, "at-1");
    assert_eq!(ask.nonce, "n-1");
    assert_eq!(ask.refresh_token, "rt-1");
    assert!(cache.lookup(&"c-1".to_string()).is_none());
    match ask.answered(&mut cache, UserInfoReply::Answered(Some("bob@example.com".to_string()))) {
        Exchange::Resolved(email) => assert_eq!(email, "bob@example.com"),
        other => panic!("expected an email, got {:?}", other),
    }
    let kept = cache.lookup(&"c-1".to_string()).expect("an entry");
    assert_eq!(kept.email, "bob@example.com");
    assert_eq!(kept.nonce, "n-1");
    assert_eq!(kept.refresh_token, "rt-1");
    match exchange_code(&cache, &"c-1".to_string()) {
        Exchange::Resolved(email) => assert_eq!(email, "bob@example.com"),
        other => panic!("expected the cached email, got {:?}", other),
    }
}

#[test]
fn email_of_the_token_is_preferred() {
    let mut cache = ExchangeCache::new();
    let step = request("c-1").answered_with_claims(&mut cache, tokens(None, Some("t".to_string())), claims(Some("alice@example.com"), "n-1"));
    assert!(matches!(step, Exchange::Resolved(_)));
}

fn ask() -> UserInfoRequest {
    UserInfoRequest {
        code: "c-1".to_string(),
        access_token: "at-1".to_string(),
        nonce: "n-1".to_string(),
        refresh_token: String::new(),
    }
}

#[test]
fn userinfo_without_email_fails() {
    let mut cache = ExchangeCache::new();
    let step = ask().answered(&mut cache, UserInfoReply::Answered(None));
    assert!(matches!(step, Exchange::Failed(SsoError::MissingEmail)));
    assert!(cache.lookup(&"c-1".to_string()).is_none());
}

#[test]
fn userinfo_failures_are_told_apart() {
    let mut cache = ExchangeCache::new();
    match ask().answered(&mut cache, UserInfoReply::NoEndpoint("not configured".to_string())) {
        Exchange::Failed(SsoError::UserInfoEndpoint(cause)) => assert_eq!(cause, "not configured"),
        other => panic!("expected an endpoint failure, got {:?}", other),
    }
    match ask().answered(&mut cache, UserInfoReply::RequestFailed("status 500".to_string())) {
        Exchange::Failed(SsoError::UserInfoRequest(cause)) => assert_eq!(cause, "status 500"),
        other => panic!("expected a request failure, got {:?}", other),
    }
    assert!(cache.lookup(&"c-1".to_string()).is_none());
}

#[test]
fn expired_entry_sends_exchange_back_to_the_provider() {
    let mut cache = ExchangeCache::with_limits(1000, 1).expect("a cache");
    let step = request("c-1").answered_with_claims(&mut cache, tokens(None, Some("t".to_string())), claims(Some("alice@example.com"), "n-1"));
    assert!(matches!(step, Exchange::Resolved(_)));
    assert!(matches!(exchange_code(&cache, &"c-1".to_string()), Exchange::Resolved(_)));
    let start = std::time::Instant::now();
    while start.elapsed() < std::time::Duration::from_millis(1300) {
        std::hint::spin_loop();
    }
    match exchange_code(&cache, &"c-1".to_string()) {
        Exchange::NeedsTokens(request) => assert_eq!(request.code, "c-1"),
        other => panic!("expected a token request, got {:?}", other),
    }
    assert!(matches!(redeem(&mut cache, &"c-1".to_string()), Redemption::Failed(SsoError::CacheMiss)));
}

#[test]
fn codes_do_not_share_entries() {
    let mut cache = ExchangeCache::new();
    let first = request("c-1").answered_with_claims(&mut cache, tokens(Some("rt-1"), Some("t".to_string())), claims(Some("alice@example.com"), "n-1"));
    let second = request("c-2").answered_with_claims(&mut cache, tokens(Some("rt-2"), Some("t".to_string())), claims(Some("bob@example.com"), "n-2"));
    assert!(matches!(first, Exchange::Resolved(_)));
    assert!(matches!(second, Exchange::Resolved(_)));
    assert!(matches!(redeem(&mut cache, &"c-1".to_string()), Redemption::NeedsNonce(_)));
    match exchange_code(&cache, &"c-2".to_string()) {
        Exchange::Resolved(email) => assert_eq!(email, "bob@example.com"),
        other => panic!("expected the cached email, got {:?}", other),
    }
    assert!(matches!(exchange_code(&cache, &"c-1".to_string()), Exchange::NeedsTokens(_)));
}

#[test]
fn found_identity_ends_the_exchange_with_its_email() {
    let found = CachedIdentity {
        nonce: "n-1".to_string(),
        refresh_token: "rt-1".to_string(),
        email: "alice@example.com".to_string(),
    };
    match exchange_found(&"c-1".to_string(), Some(found)) {
        Exchange::Resolved(email) => assert_eq!(email, "alice@example.com"),
        other => panic!("expected the email found, got {:?}", other),
    }
}

#[test]
fn nothing_found_asks_for_the_token_endpoint() {
    match exchange_found(&"c-1".to_string(), None) {
        Exchange::NeedsTokens(request) => assert_eq!(request.code, "c-1"),
        other => panic!("expected a token request, got {:?}", other),
    }
}

#[test]
fn access_token_is_not_read_as_identity_token() {
    let mut cache = ExchangeCache::new();
    let reply = TokenReply::Tokens(ProviderTokens {
        access_token: id_token(Some("mallory@example.com"), "n-9", 3600),
        refresh_token: None,
        id_token: Some(id_token(Some("alice@example.com"), "n-1", 3600)),
    });
    match request("c-1").answered(&mut cache, reply) {
        Exchange::Resolved(email) => assert_eq!(email, "alice@example.com"),
        other => panic!("expected an email, got {:?}", other),
    }
    assert_eq!(cache.lookup(&"c-1".to_string()).expect("an entry").nonce, "n-1");
}

#[test]
fn fresh_exchange_replaces_a_stale_entry() {
    let mut cache = ExchangeCache::new();
    let first = request("c-1").answered_with_claims(&mut cache, tokens(Some("rt-1"), Some("t".to_string())), claims(Some("old@example.com"), "n-1"));
    assert!(matches!(first, Exchange::Resolved(_)));
    let second = request("c-1").answered_with_claims(&mut cache, tokens(Some("rt-2"), Some("t".to_string())), claims(Some("new@example.com"), "n-2"));
    match second {
        Exchange::Resolved(email) => assert_eq!(email, "new@example.com"),
        other => panic!("expected an email, got {:?}", other),
    }
    let kept = cache.lookup(&"c-1".to_string()).expect("an entry");
    assert_eq!(kept.email, "new@example.com");
    assert_eq!(kept.nonce, "n-2");
    assert_eq!(kept.refresh_token, "rt-2");
}
