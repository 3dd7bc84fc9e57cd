use auth_core::config::AppConfig;
use auth_core::error::{ErrorKind, Failure};
use auth_core::timestamp::Timestamp;
use auth_core::token::{expiry_for, lifetime_seconds, TokenKind, TokenRecord};

fn config(refresh: usize, access: usize, activation: usize) -> AppConfig {
    AppConfig {
        database_url: String::from("postgres://postgres@localhost/test_db"),
        hmac_key: String::from("server-secret"),
        refresh_token_ttl_in_hr: refresh,
        access_token_ttl_in_min: access,
        activation_token_ttl_in_hr: activation,
    }
}

#[test]
fn lifetime_counts_minutes_for_access_and_refresh_and_hours_for_activation() {
    let c = config(24, 15, 2);
    assert_eq!(lifetime_seconds(&c, TokenKind::AccessToken), Some(900));
    assert_eq!(lifetime_seconds(&c, TokenKind::RefreshToken), Some(1_440));
    assert_eq!(lifetime_seconds(&c, TokenKind::ActivationToken), Some(7_200));
}

#[test]
fn lifetime_of_zero_is_zero() {
    let c = config(0, 0, 0);
    assert_eq!(lifetime_seconds(&c, TokenKind::AccessToken), Some(0));
    assert_eq!(lifetime_seconds(&c, TokenKind::RefreshToken), Some(0));
    assert_eq!(lifetime_seconds(&c, TokenKind::ActivationToken), Some(0));
}

#[test]
fn lifetime_that_overflows_is_none() {
    let c = config(usize::MAX, usize::MAX, usize::MAX);
    assert_eq!(lifetime_seconds(&c, TokenKind::AccessToken), None);
    assert_eq!(lifetime_seconds(&c, TokenKind::RefreshToken), None);
    assert_eq!(lifetime_seconds(&c, TokenKind::ActivationToken), None);
}

#[test]
fn expiry_is_the_lifetime_after_now() {
    let c = config(24, 15, 2);
    let now = Timestamp::new(1_700_000_000, 42).unwrap();
    assert_eq!(expiry_for(&c, TokenKind::AccessToken, &now), Timestamp::new(1_700_000_900, 42));
    assert_eq!(expiry_for(&c, TokenKind::RefreshToken, &now), Timestamp::new(1_700_001_440, 42));
    assert_eq!(
        expiry_for(&c, TokenKind::ActivationToken, &now),
        Timestamp::new(1_700_007_200, 42)
    );
}

#[test]
fn expiry_out_of_the_calendar_is_none() {
    let c = config(1, usize::MAX / 60, 1);
    let now = Timestamp::new(1_700_000_000, 0).unwrap();
    assert_eq!(expiry_for(&c, TokenKind::AccessToken, &now), None);
}

#[test]
fn issue_builds_the_record_with_its_expiry() {
    let c = config(24, 15, 2);
    let now = Timestamp::new(1_700_000_000, 7).unwrap();
    let record =
        TokenRecord::issue(&c, 12, String::from("tok"), TokenKind::ActivationToken, &now);
    assert_eq!(
        record,
        Ok(TokenRecord {
            subject_id: 12,
            token_string: String::from("tok"),
            kind: TokenKind::ActivationToken,
            expiry: Timestamp::new(1_700_007_200, 7).unwrap(),
        })
    );
    let issued = record.unwrap();
    assert!(now.is_before(&issued.expiry));
    assert_eq!(issued.expiry.secs() - now.secs(), 7_200);
}

#[test]
fn issue_fails_when_the_expiry_cannot_be_represented() {
    let c = config(usize::MAX, 15, 2);
    let now = Timestamp::new(1_700_000_000, 0).unwrap();
    let record = TokenRecord::issue(&c, 1, String::from("tok"), TokenKind::RefreshToken, &now);
    assert_eq!(
        record,
        Err(Failure {
            kind: ErrorKind::CryptoFailure,
            message: String::from("Crypto error,the expiry is out of range"),
        })
    );
}

#[test]
fn with_expiry_takes_the_calendars_answer() {
    let expiry = Timestamp::new(99, 1).unwrap();
    assert_eq!(
        TokenRecord::with_expiry(3, String::from("abc"), TokenKind::AccessToken, Some(expiry)),
        Ok(TokenRecord {
            subject_id: 3,
            token_string: String::from("abc"),
            kind: TokenKind::AccessToken,
            expiry,
        })
    );
    assert_eq!(
        TokenRecord::with_expiry(3, String::from("abc"), TokenKind::AccessToken, None),
        Err(Failure {
            kind: ErrorKind::CryptoFailure,
            message: String::from("Crypto error,the expiry is out of range"),
        })
    );
}

#[test]
fn a_token_is_expired_from_its_expiry_on() {
    let record = TokenRecord {
        subject_id: 1,
        token_string: String::from("t"),
        kind: TokenKind::AccessToken,
        expiry: Timestamp::new(1_000, 500).unwrap(),
    };
    assert!(!record.is_expired_at(&Timestamp::new(999, 999_999_999).unwrap()));
    assert!(!record.is_expired_at(&Timestamp::new(1_000, 499).unwrap()));
    assert!(record.is_expired_at(&Timestamp::new(1_000, 500).unwrap()));
    assert!(record.is_expired_at(&Timestamp::new(1_001, 0).unwrap()));
}

#[test]
fn issue_by_clock_needs_a_reading() {
    let c = config(24, 15, 2);
    let now = Timestamp::new(1_700_000_000, 7).unwrap();
    assert_eq!(
        TokenRecord::issue_by_clock(&c, 12, String::from("tok"), TokenKind::AccessToken, Some(now)),
        TokenRecord::issue(&c, 12, String::from("tok"), TokenKind::AccessToken, &now)
    );
    assert_eq!(
        TokenRecord::issue_by_clock(&c, 12, String::from("tok"), TokenKind::AccessToken, None),
        Err(Failure {
            kind: ErrorKind::CryptoFailure,
            message: String::from("Crypto error,the clock cannot be read"),
        })
    );
}

#[test]
fn issue_reaches_the_last_second_of_the_calendar_and_no_further() {
    let c = config(24, 1, 2);
    let last = 8_210_266_876_799;
    let fits = Timestamp::new(last - 60, 1).unwrap();
    let late = Timestamp::new(last - 59, 1).unwrap();
    assert_eq!(
        TokenRecord::issue(&c, 1, String::from("t"), TokenKind::AccessToken, &fits)
            .map(|token| token.expiry),
        Ok(Timestamp::new(last, 1).unwrap())
    );
    assert_eq!(
        TokenRecord::issue(&c, 1, String::from("t"), TokenKind::AccessToken, &late)
            .map_err(|failure| failure.message),
        Err(String::from("Crypto error,the expiry is out of range"))
    );
}
