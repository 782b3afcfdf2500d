use qa_service::claims::{claims_text, parse_claims};
use qa_service::auth::{
    auth, hash_password, issue_token, issue_token_at, session_from_claims, verify_password,
    verify_token, verify_token_at, MAX_TIMESTAMP, TOKEN_LIFETIME,
};
use qa_service::error::ServiceError;
use qa_service::types::{AccountId, Session};

const KEY: &[u8] = b"RANDOM WORDS WINTER MACINTOSH PC";

fn now() -> i64 {
    std::time::SystemTime::now()
        .duration_since(std::time::UNIX_EPOCH)
        .unwrap()
        .as_secs() as i64
}

#[test]
fn post_questions_auth() {
    let token = issue_token(AccountId(3), KEY).unwrap();
    let session = auth(Some(token.as_str()), KEY).unwrap();
    assert_eq!(session.account_id, AccountId(3));
}

#[test]
fn issued_token_verifies_to_its_account() {
    let token = issue_token(AccountId(17), KEY).unwrap();
    assert!(token.starts_with("v2.local."));
    let session = verify_token(&token, KEY).unwrap();
    assert_eq!(session.account_id, AccountId(17));
    assert_eq!(session.exp - session.nbf, TOKEN_LIFETIME);
}

#[test]
fn expired_token_is_unauthorized() {
    let issued = now() - 2 * TOKEN_LIFETIME;
    let token = issue_token_at(AccountId(4), KEY, issued).unwrap();
    assert_eq!(verify_token(&token, KEY), Err(ServiceError::Unauthorized));
}

#[test]
fn token_checked_at_a_chosen_time() {
    let issued = now();
    let token = issue_token_at(AccountId(8), KEY, issued).unwrap();
    let s = verify_token_at(&token, KEY, issued).unwrap();
    assert_eq!(s, Session { exp: issued + TOKEN_LIFETIME, account_id: AccountId(8), nbf: issued });
    assert_eq!(verify_token_at(&token, KEY, issued - 1), Err(ServiceError::Unauthorized));
    assert_eq!(
        verify_token_at(&token, KEY, issued + TOKEN_LIFETIME),
        Err(ServiceError::Unauthorized)
    );
}

#[test]
fn token_under_another_key_is_unauthorized() {
    let token = issue_token(AccountId(3), KEY).unwrap();
    let other: &[u8] = b"ANOTHER KEY OF THIRTY-TWO BYTES!";
    assert_eq!(verify_token(&token, other), Err(ServiceError::Unauthorized));
    assert_eq!(verify_token("garbage", KEY), Err(ServiceError::Unauthorized));
    assert_eq!(auth(None, KEY), Err(ServiceError::Unauthorized));
}

#[test]
fn issuing_needs_a_key_of_32_bytes_and_a_nameable_window() {
    assert_eq!(issue_token(AccountId(3), b"short"), Err(ServiceError::TokenIssueError));
    assert_eq!(issue_token_at(AccountId(3), KEY, -1), Err(ServiceError::TokenIssueError));
    assert_eq!(
        issue_token_at(AccountId(3), KEY, MAX_TIMESTAMP - TOKEN_LIFETIME + 1),
        Err(ServiceError::TokenIssueError)
    );
}

#[test]
fn claims_decide_the_session() {
    let ok = session_from_claims(Some(5), Some(200), Some(100), 150);
    assert_eq!(ok, Ok(Session { exp: 200, account_id: AccountId(5), nbf: 100 }));
    assert_eq!(session_from_claims(Some(5), Some(200), Some(100), 100).unwrap().nbf, 100);
    assert_eq!(session_from_claims(Some(5), Some(200), Some(100), 200), Err(ServiceError::Unauthorized));
    assert_eq!(session_from_claims(Some(5), Some(200), Some(100), 99), Err(ServiceError::Unauthorized));
    assert_eq!(session_from_claims(None, Some(200), Some(100), 150), Err(ServiceError::Unauthorized));
    assert_eq!(session_from_claims(Some(5), None, Some(100), 150), Err(ServiceError::Unauthorized));
    assert_eq!(session_from_claims(Some(5), Some(200), None, 150), Err(ServiceError::Unauthorized));
    assert_eq!(
        session_from_claims(Some(1 << 40), Some(200), Some(100), 150),
        Err(ServiceError::Unauthorized)
    );
}

#[test]
fn password_hash_is_salted_and_verifies() {
    let h1 = hash_password(b"pw1").unwrap();
    let h2 = hash_password(b"pw1").unwrap();
    assert_ne!(h1, "pw1");
    assert!(h1.starts_with("$argon2i$"));
    assert_ne!(h1, h2);
    assert_eq!(verify_password(&h1, b"pw1"), Ok(true));
    assert_eq!(verify_password(&h2, b"pw1"), Ok(true));
    assert_eq!(verify_password(&h1, b"wrong"), Ok(false));
    assert_eq!(verify_password("not a hash", b"pw1"), Err(ServiceError::ArgonLibraryError));
}

#[test]
fn malformed_tokens_are_unauthorized() {
    for token in ["v2.local.", "v2.local.AA", "v2.local.AAAAAAAAAAAAAAAAAAAAAAAAAAAAAA==", "v2.local.AAAAAAAAAAAAAAAAAAAAAAAAAAAAAA==AAAAAAAAAA", "v2.local.AAAAAAAAAAAAAAAAAAAAAAAAAAAAAAAA==", "v2.local.AAAA.AAAA", "v2.local", "", "v1.local.AAAAAAAAAAAAAAAAAAAAAAAAAAAAAAAAAAAAAAAAAAAA"] {
        assert_eq!(verify_token(token, KEY), Err(ServiceError::Unauthorized), "{}", token);
    }
    let mut token = issue_token(AccountId(3), KEY).unwrap();
    token.push('A');
    assert_eq!(verify_token(&token, KEY), Err(ServiceError::Unauthorized));
}

#[test]
fn claims_text_layout_and_reading() {
    let text = claims_text(3, 1_700_086_400, 1_700_000_000);
    assert_eq!(text, r#"{"account_id":"+0000000003","exp":"001700086400","nbf":"001700000000"}"#);
    assert_eq!(parse_claims(&text), Some((3, 1_700_086_400, 1_700_000_000)));
    let negative = claims_text(i32::MIN, 0, 0);
    assert_eq!(parse_claims(&negative), Some((i32::MIN as i64, 0, 0)));
    assert_eq!(parse_claims(r#"{"account_id":3}"#), None);
    assert_eq!(
        parse_claims(r#"{"account_id":"*0000000003","exp":"001700086400","nbf":"001700000000"}"#),
        None
    );
}
