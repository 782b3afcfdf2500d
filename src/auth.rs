use vstd::prelude::*;
use crate::error::ServiceError;
use crate::claims::{claims_message, claims_text, lemma_claims_round_trip, parse_claims, pow10, spec_parse_claims};
use crate::types::{AccountId, Session};

verus! {

/// The encoded Argon2 hash of a password with a salt, under the default parameters.
pub uninterp spec fn argon2_encoded(pwd: Seq<u8>, salt: Seq<u8>) -> Seq<char>;

/// Whether a password matches an encoded Argon2 hash.
pub uninterp spec fn argon2_matches(encoded: Seq<char>, pwd: Seq<u8>) -> bool;

/// Whether checking a password against an encoded Argon2 hash completes:
/// the text decodes as a hash and its parameters are admissible.
pub uninterp spec fn argon2_verify_ok(encoded: Seq<char>, pwd: Seq<u8>) -> bool;

/// What a v2.local token decrypts to under a key, if it authenticates.
pub uninterp spec fn v2_local_plaintext(token: Seq<char>, key: Seq<u8>) -> Option<Seq<char>>;

/// How long an issued token is valid: a day, in seconds.
pub const TOKEN_LIFETIME: i64 = 86400;

/// The last second that a token time can name: 9999-12-31T23:59:59Z.
pub const MAX_TIMESTAMP: i64 = 253402300799;

/// Relies on rand::random: 32 bytes from the thread-local generator.
#[verifier::external_body]
fn random_salt() -> (r: Vec<u8>)
    ensures
        r@.len() == 32,
{
    rand::random::<[u8; 32]>().to_vec()
}

/// Relies on argon2::hash_encoded with argon2::Config::default (Argon2i,
/// version 0x13, 4096 KiB, 3 passes, one lane, no secret): the encoded hash
/// depends on the password and salt alone. `Context::new` refuses only
/// lengths out of range, so a password of at most `u32::MAX` bytes and a
/// salt of 8 to `u32::MAX` bytes are hashed; verify_encoded recomputes the
/// hash from what the encoding records, so the result verifies its password.
#[verifier::external_body]
fn argon2_hash(pwd: &[u8], salt: &[u8]) -> (r: Result<String, argon2::Error>)
    ensures
        pwd@.len() <= u32::MAX && 8 <= salt@.len() <= u32::MAX ==> r is Ok,
        r is Ok ==> r->Ok_0@ == argon2_encoded(pwd@, salt@),
        r is Ok ==> argon2_verify_ok(r->Ok_0@, pwd@) && argon2_matches(r->Ok_0@, pwd@),
{
    argon2::hash_encoded(pwd, salt, &argon2::Config::default())
}

/// Relies on argon2::verify_encoded: whether the password hashes, under the
/// parameters and salt that the encoded hash records, to the hash it records.
#[verifier::external_body]
fn argon2_verify(encoded: &str, pwd: &[u8]) -> (r: Result<bool, argon2::Error>)
    ensures
        (r is Ok) == argon2_verify_ok(encoded@, pwd@),
        r is Ok ==> r->Ok_0 == argon2_matches(encoded@, pwd@),
{
    argon2::verify_encoded(encoded, pwd)
}

/// A letter of the URL-safe base64 alphabet: no padding, no dot.
pub open spec fn is_base64url(c: char) -> bool {
    ('A' <= c && c <= 'Z') || ('a' <= c && c <= 'z') || ('0' <= c && c <= '9') || c == '-' || c
        == '_'
}

/// A token that paseto's v2.local decryption can take apart: the
/// `v2.local.` header and then at least 32 URL-safe base64 letters, four
/// full blocks that decode to the 24 bytes of the nonce before anything
/// that follows is read.
pub open spec fn local_token_shape(t: Seq<char>) -> bool {
    &&& t.len() >= 41
    &&& t.subrange(0, 9) == "v2.local."@
    &&& forall|i: int| 9 <= i < 41 ==> is_base64url(#[trigger] t[i])
}

/// Whether a token has the shape that decryption can take apart.
pub fn has_local_token_shape(token: &str) -> (r: bool)
    ensures
        r == local_token_shape(token@),
{
    proof {
        reveal_strlit("v2.local.");
    }
    let n = token.unicode_len();
    if n < 41 {
        return false;
    }
    if String::from_str(token.substring_char(0, 9)) != String::from_str("v2.local.") {
        return false;
    }
    let mut i: usize = 9;
    while i < 41
        invariant
            9 <= i <= 41,
            41 <= n == token@.len(),
            forall|j: int| 9 <= j < i ==> is_base64url(#[trigger] token@[j]),
        decreases 41 - i,
    {
        let c = token.get_char(i);
        if !(('A' <= c && c <= 'Z') || ('a' <= c && c <= 'z') || ('0' <= c && c <= '9') || c == '-'
            || c == '_') {
            return false;
        }
        i += 1;
    }
    true
}

/// Relies on paseto::v2::local::decrypt_paseto (no footer): authenticates
/// and decrypts the token under `key`; the result depends on its arguments
/// alone. It splits the base64-decoded payload at 24 bytes without a
/// length check, and base64 0.13 also decodes a padded last block; the
/// `requires` admits only payloads whose first 32 characters are unpadded
/// base64 letters, which decode to at least 24 bytes or fail.
#[verifier::external_body]
fn decrypt_local_message(token: &str, key: &[u8]) -> (r: Result<String, failure::Error>)
    requires
        local_token_shape(token@),
    ensures
        match v2_local_plaintext(token@, key@) {
            Some(m) => r is Ok && r->Ok_0@ == m,
            None => r is Err,
        },
{
    paseto::v2::local::decrypt_paseto(token, None, key)
}

/// Relies on paseto::v2::local::local_paseto (no footer): encrypts `msg`
/// under `key` with a fresh random nonce, as `v2.local.` followed by the
/// unpadded URL-safe base64 of nonce, ciphertext and tag (at least 40
/// bytes); it refuses a key that is not 32 bytes long, and decrypt_paseto
/// gives `msg` back from the token under the same key.
#[verifier::external_body]
fn encrypt_local_message(msg: &str, key: &[u8]) -> (r: Result<String, failure::Error>)
    ensures
        key@.len() != 32 ==> r is Err,
        r is Ok ==> local_token_shape(r->Ok_0@),
        r is Ok ==> v2_local_plaintext(r->Ok_0@, key@) == Some(msg@),
{
    paseto::v2::local::local_paseto(msg, None, key)
}

/// Relies on chrono::Utc::now: the current time, as Unix seconds.
#[verifier::external_body]
fn current_timestamp() -> (r: i64) {
    chrono::Utc::now().timestamp()
}

/// The session that token claims describe at time `now`: every claim is
/// present, the account id fits, and `now` lies in `[nbf, exp)`.
pub open spec fn spec_session_from_claims(
    account_id: Option<i64>,
    exp: Option<i64>,
    nbf: Option<i64>,
    now: i64,
) -> Result<Session, ServiceError> {
    match (account_id, exp, nbf) {
        (Some(a), Some(e), Some(n)) => if i32::MIN <= a <= i32::MAX && n <= now < e {
            Ok(Session { exp: e, account_id: AccountId(a as i32), nbf: n })
        } else {
            Err(ServiceError::Unauthorized)
        },
        _ => Err(ServiceError::Unauthorized),
    }
}

/// Decides on the claims read from a decrypted token.
pub fn session_from_claims(account_id: Option<i64>, exp: Option<i64>, nbf: Option<i64>, now: i64) -> (r:
    Result<Session, ServiceError>)
    ensures
        r == spec_session_from_claims(account_id, exp, nbf, now),
{
    match (account_id, exp, nbf) {
        (Some(a), Some(e), Some(n)) => if i32::MIN as i64 <= a && a <= i32::MAX as i64 && n <= now
            && now < e {
            Ok(Session { exp: e, account_id: AccountId(a as i32), nbf: n })
        } else {
            Err(ServiceError::Unauthorized)
        },
        _ => Err(ServiceError::Unauthorized),
    }
}

/// What verifying a token at time `now` gives: the token must have the
/// v2.local shape, decrypt under the key, hold a claims text, and be valid
/// at `now`.
pub open spec fn spec_verify_token(token: Seq<char>, key: Seq<u8>, now: i64) -> Result<
    Session,
    ServiceError,
> {
    if !local_token_shape(token) {
        Err(ServiceError::Unauthorized)
    } else {
        match v2_local_plaintext(token, key) {
            None => Err(ServiceError::Unauthorized),
            Some(m) => match spec_parse_claims(m) {
                None => Err(ServiceError::Unauthorized),
                Some((a, e, n)) => spec_session_from_claims(Some(a), Some(e), Some(n), now),
            },
        }
    }
}

/// Verifies a bearer token at time `now`: it must decrypt under `key`, name
/// an account, and be valid at `now`.
pub fn verify_token_at(token: &str, key: &[u8], now: i64) -> (r: Result<Session, ServiceError>)
    ensures
        r == spec_verify_token(token@, key@, now),
{
    if !has_local_token_shape(token) {
        return Err(ServiceError::Unauthorized);
    }
    let message = match decrypt_local_message(token, key) {
        Ok(m) => m,
        Err(_) => return Err(ServiceError::Unauthorized),
    };
    match parse_claims(message.as_str()) {
        None => Err(ServiceError::Unauthorized),
        Some((a, e, n)) => session_from_claims(Some(a), Some(e), Some(n), now),
    }
}

/// Verifies a bearer token against the current time.
pub fn verify_token(token: &str, key: &[u8]) -> (r: Result<Session, ServiceError>)
    ensures
        exists|now: i64| r == #[trigger] spec_verify_token(token@, key@, now),
        r is Ok ==> r->Ok_0.nbf < r->Ok_0.exp,
        r is Err ==> r == Err::<Session, ServiceError>(ServiceError::Unauthorized),
{
    verify_token_at(token, key, current_timestamp())
}

/// The session of a request, from its `Authorization` header.
pub fn auth(authorization: Option<&str>, key: &[u8]) -> (r: Result<Session, ServiceError>)
    ensures
        authorization is None ==> r == Err::<Session, ServiceError>(ServiceError::Unauthorized),
        authorization is Some ==> exists|now: i64| r == #[trigger] spec_verify_token(
            authorization->0@,
            key@,
            now,
        ),
        r is Ok ==> r->Ok_0.nbf < r->Ok_0.exp,
        r is Err ==> r == Err::<Session, ServiceError>(ServiceError::Unauthorized),
{
    match authorization {
        Some(token) => verify_token(token, key),
        None => Err(ServiceError::Unauthorized),
    }
}

/// Whether a token can be issued at `now`: its whole validity window must
/// be nameable.
pub open spec fn can_issue_at(now: i64) -> bool {
    0 <= now <= MAX_TIMESTAMP - TOKEN_LIFETIME
}

/// Whether `token` was issued for `account_id` under `key` at some time at
/// which issuing was possible.
pub open spec fn issued_for(token: Seq<char>, key: Seq<u8>, account_id: i32) -> bool {
    exists|now: i64|
        can_issue_at(now) && local_token_shape(token) && #[trigger] v2_local_plaintext(token, key)
            == Some(claims_message(account_id as int, (now + TOKEN_LIFETIME) as nat, now as nat))
}

/// Issues a token for `account_id` at time `now`, valid from `now` for
/// `TOKEN_LIFETIME` seconds.
pub fn issue_token_at(account_id: AccountId, key: &[u8], now: i64) -> (r: Result<String, ServiceError>)
    ensures
        !can_issue_at(now) ==> r == Err::<String, ServiceError>(ServiceError::TokenIssueError),
        key@.len() != 32 ==> r == Err::<String, ServiceError>(ServiceError::TokenIssueError),
        r is Err ==> r == Err::<String, ServiceError>(ServiceError::TokenIssueError),
        r is Ok ==> local_token_shape(r->Ok_0@) && v2_local_plaintext(r->Ok_0@, key@) == Some(
            claims_message(account_id.0 as int, (now + TOKEN_LIFETIME) as nat, now as nat),
        ),
{
    if now < 0 || now > MAX_TIMESTAMP - TOKEN_LIFETIME {
        return Err(ServiceError::TokenIssueError);
    }
    let message = claims_text(account_id.0, now + TOKEN_LIFETIME, now);
    match encrypt_local_message(message.as_str(), key) {
        Ok(token) => Ok(token),
        Err(_) => Err(ServiceError::TokenIssueError),
    }
}

/// Issues a token for `account_id`, valid for a day from now.
pub fn issue_token(account_id: AccountId, key: &[u8]) -> (r: Result<String, ServiceError>)
    ensures
        key@.len() != 32 ==> r == Err::<String, ServiceError>(ServiceError::TokenIssueError),
        r is Err ==> r == Err::<String, ServiceError>(ServiceError::TokenIssueError),
        r is Ok ==> issued_for(r->Ok_0@, key@, account_id.0),
{
    let now = current_timestamp();
    let r = issue_token_at(account_id, key, now);
    proof {
        if r is Ok {
            assert(can_issue_at(now));
            assert(v2_local_plaintext(r->Ok_0@, key@) == Some(
                claims_message(account_id.0 as int, (now + TOKEN_LIFETIME) as nat, now as nat),
            ));
        }
    }
    r
}

/// A token issued for an account at time `issued` verifies, under the same
/// key and within its day, to a session of that account with exactly that
/// window, and is refused before it and from its expiry on.
pub proof fn lemma_issued_token_verifies(
    token: Seq<char>,
    key: Seq<u8>,
    account_id: AccountId,
    issued: i64,
    t: i64,
)
    requires
        can_issue_at(issued),
        local_token_shape(token),
        v2_local_plaintext(token, key) == Some(
            claims_message(account_id.0 as int, (issued + TOKEN_LIFETIME) as nat, issued as nat),
        ),
    ensures
        issued <= t < issued + TOKEN_LIFETIME ==> spec_verify_token(token, key, t) == Ok::<
            Session,
            ServiceError,
        >(Session { exp: (issued + TOKEN_LIFETIME) as i64, account_id, nbf: issued }),
        (t < issued || t >= issued + TOKEN_LIFETIME) ==> spec_verify_token(token, key, t) == Err::<
            Session,
            ServiceError,
        >(ServiceError::Unauthorized),
{
    assert(pow10(12) == 1000000000000) by {
        reveal_with_fuel(pow10, 13);
    }
    lemma_claims_round_trip(account_id.0, (issued + TOKEN_LIFETIME) as i64, issued);
}

/// Hashes a password with a fresh 32-byte random salt.
pub fn hash_password(password: &[u8]) -> (r: Result<String, ServiceError>)
    ensures
        password@.len() <= u32::MAX ==> r is Ok,
        r is Ok ==> exists|salt: Seq<u8>|
            salt.len() == 32 && r->Ok_0@ == #[trigger] argon2_encoded(password@, salt),
        r is Ok ==> argon2_verify_ok(r->Ok_0@, password@) && argon2_matches(r->Ok_0@, password@),
        r is Err ==> r == Err::<String, ServiceError>(ServiceError::ArgonLibraryError),
{
    let salt = random_salt();
    let salt_bytes = salt.as_slice();
    match argon2_hash(password, salt_bytes) {
        Ok(h) => {
            proof {
                assert(salt_bytes@ == salt@);
            }
            Ok(h)
        },
        Err(_) => Err(ServiceError::ArgonLibraryError),
    }
}

/// Whether a password matches a stored hash.
pub fn verify_password(hash: &str, password: &[u8]) -> (r: Result<bool, ServiceError>)
    ensures
        (r is Ok) == argon2_verify_ok(hash@, password@),
        r is Ok ==> r->Ok_0 == argon2_matches(hash@, password@),
        r is Err ==> r == Err::<bool, ServiceError>(ServiceError::ArgonLibraryError),
{
    match argon2_verify(hash, password) {
        Ok(b) => Ok(b),
        Err(_) => Err(ServiceError::ArgonLibraryError),
    }
}

} // verus!
