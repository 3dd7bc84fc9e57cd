use auth_core::config::AppConfig;
use auth_core::effect::{Effect, Reply, Step};
use auth_core::error::{ErrorKind, Failure};
use auth_core::login::{
    login_begin, login_handler, login_step, verify_digest, LoginSchema, LoginState, LoginTokens,
};
use auth_core::timestamp::Timestamp;
use auth_core::token::{TokenKind, TokenRecord};
use auth_core::user::{User, UserRole};

fn config() -> AppConfig {
    AppConfig {
        database_url: String::from("postgres://postgres@localhost/test_db"),
        hmac_key: String::from("server-secret"),
        refresh_token_ttl_in_hr: 24,
        access_token_ttl_in_min: 15,
        activation_token_ttl_in_hr: 2,
    }
}

fn now() -> Timestamp {
    Timestamp::new(1_700_000_000, 5).unwrap()
}

fn failure(kind: ErrorKind, message: &str) -> Step<LoginState, LoginTokens> {
    Step::Finished(Err(Failure { kind, message: String::from(message) }))
}

fn alice() -> User {
    User {
        id: 41,
        username: String::from("alice"),
        email: String::from("a@x.com"),
        password_hash: String::from("digest"),
        role: UserRole::Normal,
        confirmed: false,
    }
}

fn awaiting_digest() -> LoginState {
    LoginState::AwaitingDigest { user_id: 41, stored_digest: String::from("digest") }
}

#[test]
fn login_begins_by_fetching_the_user() {
    let body = LoginSchema { username: String::from("alice"), password: String::from("secret1") };
    assert_eq!(
        login_begin(body),
        Step::Continue {
            state: LoginState::AwaitingUser { password: String::from("secret1") },
            effect: Effect::FetchUser { username: String::from("alice") },
        }
    );
}

#[test]
fn login_hashes_the_supplied_password_once_the_user_is_found() {
    let state = LoginState::AwaitingUser { password: String::from("secret1") };
    assert_eq!(
        login_step(&config(), state, Reply::UserFound(alice()), Some(now())),
        Step::Continue {
            state: awaiting_digest(),
            effect: Effect::HashPassword { plaintext: String::from("secret1") },
        }
    );
}

#[test]
fn login_answers_an_unknown_user_like_a_wrong_password() {
    let state = LoginState::AwaitingUser { password: String::from("secret1") };
    let unknown =
        login_step(&config(), state, Reply::NotFound(String::from("no rows")), Some(now()));
    let wrong =
        login_step(&config(), awaiting_digest(), Reply::Digest(String::from("other")), Some(now()));
    assert_eq!(unknown, failure(ErrorKind::Unauthorized, "incorrect credential"));
    assert_eq!(unknown, wrong);
}

#[test]
fn login_does_not_quote_the_store_for_an_unknown_user() {
    let first = login_step(
        &config(),
        LoginState::AwaitingUser { password: String::from("secret1") },
        Reply::NotFound(String::from("no rows")),
        None,
    );
    let second = login_step(
        &config(),
        LoginState::AwaitingUser { password: String::from("x") },
        Reply::NotFound(String::new()),
        Some(now()),
    );
    assert_eq!(first, second);
}

#[test]
fn login_reports_a_user_of_the_wrong_shape() {
    let state = LoginState::AwaitingUser { password: String::from("secret1") };
    assert_eq!(
        login_step(&config(), state, Reply::Malformed(String::from("missing field")), Some(now())),
        failure(ErrorKind::StorageFailure, "User conversion error missing field")
    );
}

#[test]
fn login_signs_an_access_token_when_the_digests_match() {
    assert_eq!(
        login_step(&config(), awaiting_digest(), Reply::Digest(String::from("digest")), Some(now())),
        Step::Continue {
            state: LoginState::AwaitingAccessSignature { user_id: 41 },
            effect: Effect::SignToken { secret: String::from("server-secret"), subject_id: 41 },
        }
    );
}

#[test]
fn login_is_unauthorized_when_the_digests_differ() {
    assert_eq!(
        login_step(&config(), awaiting_digest(), Reply::Digest(String::from("other")), Some(now())),
        failure(ErrorKind::Unauthorized, "incorrect credential")
    );
    assert_eq!(
        login_step(&config(), awaiting_digest(), Reply::Digest(String::new()), Some(now())),
        failure(ErrorKind::Unauthorized, "incorrect credential")
    );
    assert_eq!(
        login_step(&config(), awaiting_digest(), Reply::Digest(String::from("digest ")), Some(now())),
        failure(ErrorKind::Unauthorized, "incorrect credential")
    );
}

#[test]
fn login_reports_a_failed_hash() {
    assert_eq!(
        login_step(
            &config(),
            awaiting_digest(),
            Reply::CryptoError(String::from("no entropy")),
            Some(now())
        ),
        failure(ErrorKind::CryptoFailure, "crypto failed,no entropy")
    );
}

#[test]
fn login_does_not_sign_with_an_empty_secret() {
    let unkeyed = AppConfig { hmac_key: String::new(), ..config() };
    assert_eq!(
        login_step(&unkeyed, awaiting_digest(), Reply::Digest(String::from("digest")), Some(now())),
        failure(ErrorKind::CryptoFailure, "Crypto error,the signing secret is empty")
    );
    assert_eq!(
        login_step(
            &unkeyed,
            LoginState::AwaitingAccessInsert { user_id: 41, access_token: String::from("a") },
            Reply::Stored,
            Some(now())
        ),
        failure(ErrorKind::CryptoFailure, "Crypto error,the signing secret is empty")
    );
}

#[test]
fn login_stores_an_access_token_that_expires_after_the_configured_minutes() {
    assert_eq!(
        login_step(
            &config(),
            LoginState::AwaitingAccessSignature { user_id: 41 },
            Reply::Signature(String::from("access")),
            Some(now())
        ),
        Step::Continue {
            state: LoginState::AwaitingAccessInsert {
                user_id: 41,
                access_token: String::from("access"),
            },
            effect: Effect::InsertToken {
                token: TokenRecord {
                    subject_id: 41,
                    token_string: String::from("access"),
                    kind: TokenKind::AccessToken,
                    expiry: Timestamp::new(1_700_000_900, 5).unwrap(),
                },
            },
        }
    );
}

#[test]
fn login_signs_a_refresh_token_once_the_access_token_is_stored() {
    assert_eq!(
        login_step(
            &config(),
            LoginState::AwaitingAccessInsert { user_id: 41, access_token: String::from("access") },
            Reply::Stored,
            Some(now())
        ),
        Step::Continue {
            state: LoginState::AwaitingRefreshSignature {
                user_id: 41,
                access_token: String::from("access"),
            },
            effect: Effect::SignToken { secret: String::from("server-secret"), subject_id: 41 },
        }
    );
}

#[test]
fn login_stores_a_refresh_token_whose_lifetime_counts_minutes() {
    assert_eq!(
        login_step(
            &config(),
            LoginState::AwaitingRefreshSignature {
                user_id: 41,
                access_token: String::from("access"),
            },
            Reply::Signature(String::from("refresh")),
            Some(now())
        ),
        Step::Continue {
            state: LoginState::AwaitingRefreshInsert {
                access_token: String::from("access"),
                refresh_token: String::from("refresh"),
            },
            effect: Effect::InsertToken {
                token: TokenRecord {
                    subject_id: 41,
                    token_string: String::from("refresh"),
                    kind: TokenKind::RefreshToken,
                    expiry: Timestamp::new(1_700_001_440, 5).unwrap(),
                },
            },
        }
    );
}

#[test]
fn login_hands_back_both_tokens_once_the_refresh_token_is_stored() {
    assert_eq!(
        login_step(
            &config(),
            LoginState::AwaitingRefreshInsert {
                access_token: String::from("access"),
                refresh_token: String::from("refresh"),
            },
            Reply::Stored,
            Some(now())
        ),
        Step::Finished(Ok(LoginTokens {
            access_token: String::from("access"),
            refresh_token: String::from("refresh"),
        }))
    );
}

#[test]
fn login_reports_a_failed_signature() {
    assert_eq!(
        login_step(
            &config(),
            LoginState::AwaitingAccessSignature { user_id: 41 },
            Reply::CryptoError(String::from("bad key")),
            Some(now())
        ),
        failure(ErrorKind::CryptoFailure, "Crypto error,bad key")
    );
    assert_eq!(
        login_step(
            &config(),
            LoginState::AwaitingRefreshSignature { user_id: 41, access_token: String::from("a") },
            Reply::CryptoError(String::from("bad key")),
            Some(now())
        ),
        failure(ErrorKind::CryptoFailure, "Crypto error,bad key")
    );
}

#[test]
fn login_reports_a_failed_token_insert_and_returns_no_token() {
    assert_eq!(
        login_step(
            &config(),
            LoginState::AwaitingAccessInsert { user_id: 41, access_token: String::from("a") },
            Reply::StoreError(String::from("disk full")),
            Some(now())
        ),
        failure(ErrorKind::StorageFailure, "Could not store activation data,disk full")
    );
    assert_eq!(
        login_step(
            &config(),
            LoginState::AwaitingRefreshInsert {
                access_token: String::from("a"),
                refresh_token: String::from("r"),
            },
            Reply::StoreError(String::from("disk full")),
            Some(now())
        ),
        failure(ErrorKind::StorageFailure, "Could not store activation data,disk full")
    );
    assert_eq!(
        login_step(
            &config(),
            LoginState::AwaitingRefreshInsert {
                access_token: String::from("a"),
                refresh_token: String::from("a"),
            },
            Reply::Duplicate(String::from("tokens_token_string_key")),
            Some(now())
        ),
        failure(ErrorKind::Conflict, "Could not store activation data,tokens_token_string_key")
    );
}

#[test]
fn login_reports_an_expiry_out_of_range() {
    let endless = AppConfig { access_token_ttl_in_min: usize::MAX, ..config() };
    assert_eq!(
        login_step(
            &endless,
            LoginState::AwaitingAccessSignature { user_id: 41 },
            Reply::Signature(String::from("access")),
            Some(now())
        ),
        failure(ErrorKind::CryptoFailure, "Crypto error,the expiry is out of range")
    );
}

#[test]
fn login_fails_on_a_reply_that_answers_another_effect() {
    assert_eq!(
        login_step(
            &config(),
            LoginState::AwaitingUser { password: String::from("secret1") },
            Reply::Stored,
            Some(now())
        ),
        failure(ErrorKind::StorageFailure, "unexpected reply")
    );
    assert_eq!(
        login_step(&config(), awaiting_digest(), Reply::Signature(String::from("s")), Some(now())),
        failure(ErrorKind::CryptoFailure, "unexpected reply")
    );
    assert_eq!(
        login_step(
            &config(),
            LoginState::AwaitingAccessSignature { user_id: 41 },
            Reply::Stored,
            Some(now())
        ),
        failure(ErrorKind::CryptoFailure, "unexpected reply")
    );
    assert_eq!(
        login_step(
            &config(),
            LoginState::AwaitingRefreshInsert {
                access_token: String::from("a"),
                refresh_token: String::from("r"),
            },
            Reply::NotFound(String::from("gone")),
            Some(now())
        ),
        failure(ErrorKind::StorageFailure, "unexpected reply")
    );
}

#[test]
fn verify_digest_compares_by_value() {
    assert!(verify_digest(&String::from("abc"), &String::from("abc")));
    assert!(!verify_digest(&String::from("abc"), &String::from("abd")));
    assert!(!verify_digest(&String::from("abc"), &String::from("ab")));
    assert!(verify_digest(&String::new(), &String::new()));
}

#[test]
fn login_handler_stamps_the_tokens_with_the_clock() {
    let before = Timestamp::now().unwrap();
    let step = login_handler(
        &config(),
        LoginState::AwaitingAccessSignature { user_id: 41 },
        Reply::Signature(String::from("access")),
    );
    let after = Timestamp::now().unwrap();
    match step {
        Step::Continue { effect: Effect::InsertToken { token }, .. } => {
            assert_eq!(token.kind, TokenKind::AccessToken);
            assert!(token.expiry.secs() >= before.secs() + 900);
            assert!(token.expiry.secs() <= after.secs() + 900);
        }
        other => panic!("unexpected step: {:?}", other),
    }
}

#[test]
fn login_issues_no_token_without_a_clock_reading() {
    assert_eq!(
        login_step(
            &config(),
            LoginState::AwaitingAccessSignature { user_id: 41 },
            Reply::Signature(String::from("access")),
            None
        ),
        failure(ErrorKind::CryptoFailure, "Crypto error,the clock cannot be read")
    );
    assert_eq!(
        login_step(
            &config(),
            LoginState::AwaitingRefreshSignature { user_id: 41, access_token: String::from("a") },
            Reply::Signature(String::from("refresh")),
            None
        ),
        failure(ErrorKind::CryptoFailure, "Crypto error,the clock cannot be read")
    );
}

#[test]
fn login_needs_no_clock_where_no_token_is_issued() {
    assert_eq!(
        login_step(&config(), awaiting_digest(), Reply::Digest(String::from("digest")), None),
        login_step(&config(), awaiting_digest(), Reply::Digest(String::from("digest")), Some(now()))
    );
    assert_eq!(
        login_step(
            &config(),
            LoginState::AwaitingRefreshInsert {
                access_token: String::from("access"),
                refresh_token: String::from("refresh"),
            },
            Reply::Stored,
            None
        ),
        Step::Finished(Ok(LoginTokens {
            access_token: String::from("access"),
            refresh_token: String::from("refresh"),
        }))
    );
}
