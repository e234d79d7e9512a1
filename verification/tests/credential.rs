use chat_backend::auth::authentication::{login_orders, login_reply, LoginGrant};
use chat_backend::auth::jwt::{
    claims_for, create_jwt_token, decode_jwt_payload, decoded, payload_from, signed,
    CredentialCodec, RawClaims, TokenError, TokenOrder, ACCESS_TOKEN_SECS, CLAIM_ID,
    CLAIM_USERNAME, MAX_TOKEN_LIFETIME_SECS, MIN_KEY_BYTES, REFRESH_TOKEN_SECS,
};
use chat_backend::http::HttpReply;
use jwt_simple::prelude::{HS256Key, MACLike, NoCustomClaims};
use jwt_simple::reexports::ct_codecs::{Base64UrlSafeNoPadding, Decoder};
use chat_backend::middlewares::{bearer_token, caller_from, resolve};

const KEY: &[u8] = b"a signing key of enough bytes";

const ID: u128 = 0xa1a2a3a4_b1b2_c1c2_d1d2_d3d4d5d6d7d8;

fn codec() -> CredentialCodec {
    CredentialCodec::new(KEY.to_vec())
}

fn order(lifetime_secs: u64) -> TokenOrder {
    TokenOrder { user_id: ID, username: "alice".to_string(), lifetime_secs }
}

/// The seconds between the issue and the expiry of a token, as the token
/// itself states them.
fn life_of(token: &str) -> u64 {
    let claims = HS256Key::from_bytes(KEY)
        .verify_token::<NoCustomClaims>(token, None)
        .expect("the token is genuine");
    (claims.expires_at.unwrap() - claims.issued_at.unwrap()).as_secs()
}

#[test]
fn token_names_the_user_it_was_issued_for() {
    let token = create_jwt_token(&codec(), order(ACCESS_TOKEN_SECS))
        .expect("a token is issued");
    let payload = decode_jwt_payload(&codec(), &token).expect("the token is accepted");
    assert_eq!(payload.id, ID);
    assert_eq!(payload.username, "alice");
}

#[test]
fn token_has_three_parts() {
    let token = create_jwt_token(&codec(), order(REFRESH_TOKEN_SECS))
        .expect("a token is issued");
    assert_eq!(token.split('.').count(), 3);
}

#[test]
fn weak_key_issues_nothing() {
    let weak = CredentialCodec::new(b"short".to_vec());
    assert!(!weak.is_strong());
    assert_eq!(
        create_jwt_token(&weak, order(ACCESS_TOKEN_SECS)),
        Err(TokenError::WeakKey)
    );
    let token = create_jwt_token(&codec(), order(ACCESS_TOKEN_SECS)).unwrap();
    assert!(matches!(decode_jwt_payload(&weak, &token), Err(TokenError::WeakKey)));
}

#[test]
fn key_of_twelve_bytes_is_strong() {
    let codec = CredentialCodec::new(b"123456789012".to_vec());
    assert!(codec.is_strong());
    assert!(create_jwt_token(&codec, order(60)).is_ok());
    assert!(!CredentialCodec::new(b"12345678901".to_vec()).is_strong());
}

#[test]
fn overlong_life_is_refused() {
    assert_eq!(
        create_jwt_token(&codec(), order(MAX_TOKEN_LIFETIME_SECS + 1)),
        Err(TokenError::LifetimeTooLong)
    );
    assert!(create_jwt_token(&codec(), order(MAX_TOKEN_LIFETIME_SECS)).is_ok());
}

#[test]
fn token_lifetimes() {
    assert_eq!(ACCESS_TOKEN_SECS, 10 * 60);
    assert_eq!(REFRESH_TOKEN_SECS, 3 * 24 * 60 * 60);
    assert_eq!(MAX_TOKEN_LIFETIME_SECS, 1 << 30);
    assert_eq!(MIN_KEY_BYTES, 12);
}

#[test]
fn claims_carry_the_id_as_a_hyphenated_uuid() {
    let claims = claims_for(order(600));
    assert_eq!(claims.id, "a1a2a3a4-b1b2-c1c2-d1d2-d3d4d5d6d7d8");
    assert_eq!(claims.username, "alice");
    assert_eq!(claims.lifetime_secs, 600);
    let read_back = RawClaims { id: Some(claims.id), username: Some(claims.username) };
    let payload = payload_from(read_back).expect("the claims name a user");
    assert_eq!(payload.id, ID);
    assert_eq!(payload.username, "alice");
    let zero = claims_for(TokenOrder { user_id: 0, username: String::new(), lifetime_secs: 0 });
    assert_eq!(zero.id, "00000000-0000-0000-0000-000000000000");
    assert_eq!(zero.username, "");
    assert_eq!(zero.lifetime_secs, 0);
}

#[test]
fn token_lives_as_long_as_ordered() {
    for secs in [1, 60, ACCESS_TOKEN_SECS, REFRESH_TOKEN_SECS, MAX_TOKEN_LIFETIME_SECS] {
        let token = create_jwt_token(&codec(), order(secs)).expect("a token is issued");
        assert_eq!(life_of(&token), secs);
        let payload = decode_jwt_payload(&codec(), &token).expect("the token is accepted");
        assert_eq!(payload.id, ID);
        assert_eq!(payload.username, "alice");
    }
}

#[test]
fn claims_go_under_their_names() {
    assert_eq!(CLAIM_ID, "id");
    assert_eq!(CLAIM_USERNAME, "username");
    let token = create_jwt_token(&codec(), order(60)).unwrap();
    let body = token.split('.').nth(1).unwrap();
    let json = Base64UrlSafeNoPadding::decode_to_vec(body, None).unwrap();
    let json = String::from_utf8(json).unwrap();
    assert!(json.contains("\"id\":\"a1a2a3a4-b1b2-c1c2-d1d2-d3d4d5d6d7d8\""), "{}", json);
    assert!(json.contains("\"username\":\"alice\""), "{}", json);
}

#[test]
fn login_orders_ten_minutes_and_three_days() {
    let grant = LoginGrant { user_id: ID, username: "alice".to_string() };
    let (access, refresh) = login_orders(grant);
    assert_eq!(access.user_id, ID);
    assert_eq!(access.username, "alice");
    assert_eq!(access.lifetime_secs, 600);
    assert_eq!(refresh.user_id, ID);
    assert_eq!(refresh.username, "alice");
    assert_eq!(refresh.lifetime_secs, 259_200);
}

#[test]
fn granted_login_gets_tokens_for_its_user() {
    let grant = LoginGrant { user_id: ID, username: "alice".to_string() };
    match login_reply(&codec(), Ok(grant)) {
        HttpReply::LoggedIn { access_token, refresh_cookie } => {
            let refresh = refresh_cookie.strip_prefix("Chat-Refresh=").unwrap();
            assert_eq!(life_of(&access_token), 600);
            assert_eq!(life_of(refresh), 259_200);
            for token in [access_token.as_str(), refresh] {
                let payload = decode_jwt_payload(&codec(), token).unwrap();
                assert_eq!(payload.id, ID);
                assert_eq!(payload.username, "alice");
            }
        },
        other => panic!("expected a login, got {:?}", other),
    }
}

#[test]
fn uuid_is_read_in_every_form() {
    for text in [
        "a1a2a3a4-b1b2-c1c2-d1d2-d3d4d5d6d7d8",
        "a1a2a3a4b1b2c1c2d1d2d3d4d5d6d7d8",
        "A1A2A3A4-B1B2-C1C2-D1D2-D3D4D5D6D7D8",
        "urn:uuid:a1a2a3a4-b1b2-c1c2-d1d2-d3d4d5d6d7d8",
        "{a1a2a3a4-b1b2-c1c2-d1d2-d3d4d5d6d7d8}",
    ] {
        let raw = RawClaims { id: Some(text.to_string()), username: Some("alice".to_string()) };
        assert_eq!(payload_from(raw).unwrap().id, ID, "{}", text);
    }
}

#[test]
fn outcomes_of_the_codec_are_mapped() {
    assert_eq!(signed(Ok("token".to_string())), Ok("token".to_string()));
    assert_eq!(signed(Err(jwt_simple::Error::msg("no"))), Err(TokenError::SigningFailed));
    assert!(matches!(decoded(Err(jwt_simple::Error::msg("no"))), Err(TokenError::Rejected)));
    let raw = RawClaims { id: None, username: None };
    assert!(matches!(decoded(Ok(raw)), Err(TokenError::MalformedClaims)));
    let claims = claims_for(order(60));
    let raw = RawClaims { id: Some(claims.id), username: Some(claims.username) };
    assert_eq!(decoded(Ok(raw)).unwrap().id, ID);
}

#[test]
fn foreign_token_is_rejected() {
    let other = CredentialCodec::new(b"another key of enough bytes".to_vec());
    let token = create_jwt_token(&other, order(ACCESS_TOKEN_SECS)).unwrap();
    assert!(matches!(decode_jwt_payload(&codec(), &token), Err(TokenError::Rejected)));
}

#[test]
fn garbage_is_rejected_without_panic() {
    for token in ["", "abc", "a.b.c", "....", "é.é.é", "  "] {
        assert!(matches!(decode_jwt_payload(&codec(), token), Err(TokenError::Rejected)));
    }
}

#[test]
fn tampered_token_is_rejected() {
    let token = create_jwt_token(&codec(), order(ACCESS_TOKEN_SECS)).unwrap();
    let mut tampered = token.clone();
    tampered.pop();
    tampered.push(if token.ends_with('A') { 'B' } else { 'A' });
    assert!(matches!(decode_jwt_payload(&codec(), &tampered), Err(TokenError::Rejected)));
}

#[test]
fn claims_must_name_a_user() {
    let raw = |id: Option<&str>, username: Option<&str>| RawClaims {
        id: id.map(|s| s.to_string()),
        username: username.map(|s| s.to_string()),
    };
    let payload = payload_from(raw(Some("a1a2a3a4-b1b2-c1c2-d1d2-d3d4d5d6d7d8"), Some("alice")))
        .expect("both claims are there");
    assert_eq!(payload.id, ID);
    assert_eq!(payload.username, "alice");
    assert!(matches!(
        payload_from(raw(None, Some("alice"))),
        Err(TokenError::MalformedClaims)
    ));
    assert!(matches!(
        payload_from(raw(Some("a1a2a3a4-b1b2-c1c2-d1d2-d3d4d5d6d7d8"), None)),
        Err(TokenError::MalformedClaims)
    ));
    assert!(matches!(
        payload_from(raw(Some("not a uuid"), Some("alice"))),
        Err(TokenError::MalformedClaims)
    ));
}

#[test]
fn header_is_scheme_space_token() {
    assert_eq!(bearer_token("Bearer abc"), Some("abc"));
    assert_eq!(bearer_token("Basic abc.def"), Some("abc.def"));
    assert_eq!(bearer_token("Bearer "), Some(""));
    assert_eq!(bearer_token(" abc"), Some("abc"));
    assert_eq!(bearer_token("Bearer"), None);
    assert_eq!(bearer_token(""), None);
    assert_eq!(bearer_token("Bearer abc def"), None);
    assert_eq!(bearer_token("Bearer  abc"), None);
    assert_eq!(bearer_token("Bearér äbc"), Some("äbc"));
}

#[test]
fn credential_resolves_from_header() {
    let token = create_jwt_token(&codec(), order(ACCESS_TOKEN_SECS)).unwrap();
    let header = format!("Bearer {}", token);
    let caller = resolve(&codec(), Some(&header)).expect("the caller is resolved");
    assert_eq!(caller.id, ID);
    assert_eq!(caller.username, "alice");
    assert!(resolve(&codec(), None).is_none());
    assert!(resolve(&codec(), Some(&token)).is_none());
    assert!(resolve(&codec(), Some("Bearer nonsense")).is_none());
    assert!(resolve(&codec(), Some(&format!("Bearer {} more", token))).is_none());
}

#[test]
fn rejected_token_leaves_nobody() {
    assert!(caller_from(Err(TokenError::Rejected)).is_none());
    assert!(caller_from(Err(TokenError::WeakKey)).is_none());
}
