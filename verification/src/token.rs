//! Token records: their kinds, their lifetimes and how a fresh one gets its expiry.

use crate::config::{AppConfig, AppConfigView};
use crate::error::{detailed, ErrorKind, Failure, FailureView};
use crate::model::{option_view, result_view};
use crate::timestamp::{Instant, Timestamp};
use vstd::prelude::*;

verus! {

/// The purpose a token was issued for.
#[derive(Clone, Copy, Debug, PartialEq, Eq, Structural)]
pub enum TokenKind {
    AccessToken,
    RefreshToken,
    ActivationToken,
}

/// A bearer token as the store holds it.  Records are never mutated after creation.
#[derive(Clone, Debug, PartialEq, Eq)]
pub struct TokenRecord {
    /// The user the token was issued to.
    pub subject_id: i64,
    pub token_string: String,
    pub kind: TokenKind,
    /// The instant from which the token is no longer valid.
    pub expiry: Timestamp,
}

/// Mathematical model of a [`TokenRecord`].
pub struct TokenRecordView {
    pub subject_id: i64,
    pub token_string: Seq<char>,
    pub kind: TokenKind,
    pub expiry: Instant,
}

impl View for TokenRecord {
    type V = TokenRecordView;

    open spec fn view(&self) -> TokenRecordView {
        TokenRecordView {
            subject_id: self.subject_id,
            token_string: self.token_string@,
            kind: self.kind,
            expiry: self.expiry@,
        }
    }
}

pub const SECONDS_PER_MINUTE: u64 = 60;

pub const SECONDS_PER_HOUR: u64 = 3600;

/// The configured lifetime of a token of the given kind, in seconds.  Access and refresh
/// lifetimes count minutes, the activation lifetime counts hours.
pub open spec fn ttl_seconds(config: AppConfigView, kind: TokenKind) -> int {
    match kind {
        TokenKind::AccessToken => config.access_token_ttl_in_min * SECONDS_PER_MINUTE,
        TokenKind::RefreshToken => config.refresh_token_ttl_in_hr * SECONDS_PER_MINUTE,
        TokenKind::ActivationToken => config.activation_token_ttl_in_hr * SECONDS_PER_HOUR,
    }
}

/// The expiry of a token of the given kind issued at `now`: the configured lifetime later,
/// when the calendar can represent that instant.
pub open spec fn expiry_of(config: AppConfigView, kind: TokenKind, now: Instant) -> Option<
    Instant,
> {
    now.shifted(ttl_seconds(config, kind))
}

/// The failure reported when a token's expiry cannot be represented.
pub open spec fn expiry_out_of_range() -> FailureView {
    detailed(ErrorKind::CryptoFailure, "Crypto error,"@, "the expiry is out of range"@)
}

/// The record of a token given the calendar's answer for its expiry.
pub open spec fn record_with(
    subject_id: i64,
    token_string: Seq<char>,
    kind: TokenKind,
    expiry: Option<Instant>,
) -> Result<TokenRecordView, FailureView> {
    match expiry {
        Some(expiry) => Ok(TokenRecordView { subject_id, token_string, kind, expiry }),
        None => Err(expiry_out_of_range()),
    }
}

/// The record of a token of the given kind issued to `subject_id` at `now`.
pub open spec fn issued(
    config: AppConfigView,
    subject_id: i64,
    token_string: Seq<char>,
    kind: TokenKind,
    now: Instant,
) -> Result<TokenRecordView, FailureView> {
    record_with(subject_id, token_string, kind, expiry_of(config, kind, now))
}

/// The failure reported when a token is due but the system clock gives no reading.
pub open spec fn clock_unreadable() -> FailureView {
    detailed(ErrorKind::CryptoFailure, "Crypto error,"@, "the clock cannot be read"@)
}

/// The record of a token of the given kind issued to `subject_id` at the clock's reading.
pub open spec fn issued_by_clock(
    config: AppConfigView,
    subject_id: i64,
    token_string: Seq<char>,
    kind: TokenKind,
    clock: Option<Instant>,
) -> Result<TokenRecordView, FailureView> {
    match clock {
        Some(now) => issued(config, subject_id, token_string, kind, now),
        None => Err(clock_unreadable()),
    }
}

/// The configured lifetime of a token of the given kind in seconds, or `None` when it
/// exceeds what a signed 64-bit count of seconds can hold.
pub fn lifetime_seconds(config: &AppConfig, kind: TokenKind) -> (r: Option<i64>)
    ensures
        r is Some <==> ttl_seconds(config@, kind) <= i64::MAX,
        r matches Some(seconds) ==> seconds == ttl_seconds(config@, kind),
{
    let (count, unit): (usize, u64) = match kind {
        TokenKind::AccessToken => (config.access_token_ttl_in_min, SECONDS_PER_MINUTE),
        TokenKind::RefreshToken => (config.refresh_token_ttl_in_hr, SECONDS_PER_MINUTE),
        TokenKind::ActivationToken => (config.activation_token_ttl_in_hr, SECONDS_PER_HOUR),
    };
    let limit: u64 = 0x7fff_ffff_ffff_ffff;
    match (count as u64).checked_mul(unit) {
        Some(seconds) => if seconds <= limit {
            Some(seconds as i64)
        } else {
            None
        },
        None => None,
    }
}

/// The expiry of a token of the given kind issued at `now`.
pub fn expiry_for(config: &AppConfig, kind: TokenKind, now: &Timestamp) -> (r: Option<Timestamp>)
    ensures
        option_view(r) == expiry_of(config@, kind, now@),
{
    match lifetime_seconds(config, kind) {
        Some(seconds) => now.checked_add_seconds(seconds),
        None => None,
    }
}

impl TokenRecord {
    /// The record of a token whose expiry the calendar has already answered for: the record
    /// when there is an expiry, a crypto failure when there is none.
    pub fn with_expiry(
        subject_id: i64,
        token_string: String,
        kind: TokenKind,
        expiry: Option<Timestamp>,
    ) -> (r: Result<TokenRecord, Failure>)
        ensures
            result_view(r) == record_with(subject_id, token_string@, kind, option_view(expiry)),
    {
        match expiry {
            Some(expiry) => Ok(TokenRecord { subject_id, token_string, kind, expiry }),
            None => Err(
                Failure::with_detail(
                    ErrorKind::CryptoFailure,
                    "Crypto error,",
                    "the expiry is out of range",
                ),
            ),
        }
    }

    /// Issues a token of the given kind to `subject_id` at `now`.  Its expiry lies exactly the
    /// configured lifetime after `now`.
    pub fn issue(
        config: &AppConfig,
        subject_id: i64,
        token_string: String,
        kind: TokenKind,
        now: &Timestamp,
    ) -> (r: Result<TokenRecord, Failure>)
        ensures
            result_view(r) == issued(config@, subject_id, token_string@, kind, now@),
    {
        let expiry = expiry_for(config, kind, now);
        TokenRecord::with_expiry(subject_id, token_string, kind, expiry)
    }

    /// Issues a token of the given kind to `subject_id` at the clock's reading.  Without a
    /// reading no token is issued.
    pub fn issue_by_clock(
        config: &AppConfig,
        subject_id: i64,
        token_string: String,
        kind: TokenKind,
        clock: Option<Timestamp>,
    ) -> (r: Result<TokenRecord, Failure>)
        ensures
            result_view(r) == issued_by_clock(
                config@,
                subject_id,
                token_string@,
                kind,
                option_view(clock),
            ),
    {
        match clock {
            Some(now) => TokenRecord::issue(config, subject_id, token_string, kind, &now),
            None => Err(
                Failure::with_detail(
                    ErrorKind::CryptoFailure,
                    "Crypto error,",
                    "the clock cannot be read",
                ),
            ),
        }
    }

    /// Whether the token is no longer valid at `now`.
    pub fn is_expired_at(&self, now: &Timestamp) -> (r: bool)
        ensures
            r == !now@.is_before(self@.expiry),
    {
        !now.is_before(&self.expiry)
    }
}

} // verus!
