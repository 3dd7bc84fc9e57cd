//! Login: fetch the user, compare the digest of the supplied password with the stored one,
//! then issue and persist an access token and a refresh token.  An unknown username and a
//! wrong password get the same answer, so that neither kind nor message tells them apart.

use crate::config::{AppConfig, AppConfigView};
use crate::effect::{
    failed, failed_with, sign_request, unexpected, Effect, EffectView, Reply, ReplyView, Step,
    StepView,
};
use crate::error::ErrorKind;
use crate::model::option_view;
use crate::timestamp::{is_clock_reading, Instant, Timestamp};
use crate::token::{issued_by_clock, TokenKind, TokenRecord};
use vstd::prelude::*;

verus! {

/// The body of a login request.
#[derive(Clone, Debug, PartialEq, Eq)]
pub struct LoginSchema {
    pub username: String,
    pub password: String,
}

/// Mathematical model of a [`LoginSchema`].
pub struct LoginSchemaView {
    pub username: Seq<char>,
    pub password: Seq<char>,
}

impl View for LoginSchema {
    type V = LoginSchemaView;

    open spec fn view(&self) -> LoginSchemaView {
        LoginSchemaView { username: self.username@, password: self.password@ }
    }
}

/// What a successful login hands back.
#[derive(Clone, Debug, PartialEq, Eq)]
pub struct LoginTokens {
    pub access_token: String,
    pub refresh_token: String,
}

/// Mathematical model of [`LoginTokens`].
pub struct LoginTokensView {
    pub access_token: Seq<char>,
    pub refresh_token: Seq<char>,
}

impl View for LoginTokens {
    type V = LoginTokensView;

    open spec fn view(&self) -> LoginTokensView {
        LoginTokensView { access_token: self.access_token@, refresh_token: self.refresh_token@ }
    }
}

/// Where a login stands between two effects.
#[derive(Clone, Debug, PartialEq, Eq)]
pub enum LoginState {
    /// The user is being fetched.
    AwaitingUser { password: String },
    /// The supplied password is being hashed.
    AwaitingDigest { user_id: i64, stored_digest: String },
    /// The access token string is being signed.
    AwaitingAccessSignature { user_id: i64 },
    /// The access token is being inserted.
    AwaitingAccessInsert { user_id: i64, access_token: String },
    /// The refresh token string is being signed.
    AwaitingRefreshSignature { user_id: i64, access_token: String },
    /// The refresh token is being inserted.
    AwaitingRefreshInsert { access_token: String, refresh_token: String },
}

/// Mathematical model of a [`LoginState`].
pub enum LoginStateView {
    AwaitingUser { password: Seq<char> },
    AwaitingDigest { user_id: i64, stored_digest: Seq<char> },
    AwaitingAccessSignature { user_id: i64 },
    AwaitingAccessInsert { user_id: i64, access_token: Seq<char> },
    AwaitingRefreshSignature { user_id: i64, access_token: Seq<char> },
    AwaitingRefreshInsert { access_token: Seq<char>, refresh_token: Seq<char> },
}

impl View for LoginState {
    type V = LoginStateView;

    open spec fn view(&self) -> LoginStateView {
        match *self {
            LoginState::AwaitingUser { password } => LoginStateView::AwaitingUser {
                password: password@,
            },
            LoginState::AwaitingDigest { user_id, stored_digest } => {
                LoginStateView::AwaitingDigest { user_id, stored_digest: stored_digest@ }
            },
            LoginState::AwaitingAccessSignature { user_id } => {
                LoginStateView::AwaitingAccessSignature { user_id }
            },
            LoginState::AwaitingAccessInsert { user_id, access_token } => {
                LoginStateView::AwaitingAccessInsert { user_id, access_token: access_token@ }
            },
            LoginState::AwaitingRefreshSignature { user_id, access_token } => {
                LoginStateView::AwaitingRefreshSignature { user_id, access_token: access_token@ }
            },
            LoginState::AwaitingRefreshInsert { access_token, refresh_token } => {
                LoginStateView::AwaitingRefreshInsert {
                    access_token: access_token@,
                    refresh_token: refresh_token@,
                }
            },
        }
    }
}

/// The first step of a login: fetch the user by its username.
pub open spec fn login_start(body: LoginSchemaView) -> StepView<LoginStateView, LoginTokensView> {
    StepView::Continue {
        state: LoginStateView::AwaitingUser { password: body.password },
        effect: EffectView::FetchUser { username: body.username },
    }
}

/// The step that a login in `state` takes when `reply` arrives and the clock reads `clock`.
/// Only the issuance of a token consults the clock, and fails without a reading.
pub open spec fn login_transition(
    config: AppConfigView,
    state: LoginStateView,
    reply: ReplyView,
    clock: Option<Instant>,
) -> StepView<LoginStateView, LoginTokensView> {
    match state {
        LoginStateView::AwaitingUser { password } => match reply {
            ReplyView::UserFound(user) => StepView::Continue {
                state: LoginStateView::AwaitingDigest {
                    user_id: user.id,
                    stored_digest: user.password_hash,
                },
                effect: EffectView::HashPassword { plaintext: password },
            },
            ReplyView::NotFound(_) => failed(ErrorKind::Unauthorized, "incorrect credential"@),
            ReplyView::Malformed(detail) => failed_with(
                ErrorKind::StorageFailure,
                "User conversion error "@,
                detail,
            ),
            _ => unexpected(ErrorKind::StorageFailure),
        },
        LoginStateView::AwaitingDigest { user_id, stored_digest } => match reply {
            ReplyView::Digest(digest) => if digest == stored_digest {
                sign_request(
                    config,
                    LoginStateView::AwaitingAccessSignature { user_id },
                    user_id,
                )
            } else {
                failed(ErrorKind::Unauthorized, "incorrect credential"@)
            },
            ReplyView::CryptoError(detail) => failed_with(
                ErrorKind::CryptoFailure,
                "crypto failed,"@,
                detail,
            ),
            _ => unexpected(ErrorKind::CryptoFailure),
        },
        LoginStateView::AwaitingAccessSignature { user_id } => match reply {
            ReplyView::Signature(token_string) => match issued_by_clock(
                config,
                user_id,
                token_string,
                TokenKind::AccessToken,
                clock,
            ) {
                Ok(token) => StepView::Continue {
                    state: LoginStateView::AwaitingAccessInsert {
                        user_id,
                        access_token: token_string,
                    },
                    effect: EffectView::InsertToken { token },
                },
                Err(failure) => StepView::Finished(Err(failure)),
            },
            ReplyView::CryptoError(detail) => failed_with(
                ErrorKind::CryptoFailure,
                "Crypto error,"@,
                detail,
            ),
            _ => unexpected(ErrorKind::CryptoFailure),
        },
        LoginStateView::AwaitingAccessInsert { user_id, access_token } => match reply {
            ReplyView::Stored => sign_request(
                config,
                LoginStateView::AwaitingRefreshSignature { user_id, access_token },
                user_id,
            ),
            ReplyView::Duplicate(detail) => failed_with(
                ErrorKind::Conflict,
                "Could not store activation data,"@,
                detail,
            ),
            ReplyView::StoreError(detail) => failed_with(
                ErrorKind::StorageFailure,
                "Could not store activation data,"@,
                detail,
            ),
            _ => unexpected(ErrorKind::StorageFailure),
        },
        LoginStateView::AwaitingRefreshSignature { user_id, access_token } => match reply {
            ReplyView::Signature(token_string) => match issued_by_clock(
                config,
                user_id,
                token_string,
                TokenKind::RefreshToken,
                clock,
            ) {
                Ok(token) => StepView::Continue {
                    state: LoginStateView::AwaitingRefreshInsert {
                        access_token,
                        refresh_token: token_string,
                    },
                    effect: EffectView::InsertToken { token },
                },
                Err(failure) => StepView::Finished(Err(failure)),
            },
            ReplyView::CryptoError(detail) => failed_with(
                ErrorKind::CryptoFailure,
                "Crypto error,"@,
                detail,
            ),
            _ => unexpected(ErrorKind::CryptoFailure),
        },
        LoginStateView::AwaitingRefreshInsert { access_token, refresh_token } => match reply {
            ReplyView::Stored => StepView::Finished(
                Ok(LoginTokensView { access_token, refresh_token }),
            ),
            ReplyView::Duplicate(detail) => failed_with(
                ErrorKind::Conflict,
                "Could not store activation data,"@,
                detail,
            ),
            ReplyView::StoreError(detail) => failed_with(
                ErrorKind::StorageFailure,
                "Could not store activation data,"@,
                detail,
            ),
            _ => unexpected(ErrorKind::StorageFailure),
        },
    }
}

/// Whether the digest of the supplied password is the stored digest.  The two are compared
/// by value.
pub fn verify_digest(computed: &String, stored: &String) -> (r: bool)
    ensures
        r == (computed@ == stored@),
{
    *computed == *stored
}

/// Starts a login.
pub fn login_begin(body: LoginSchema) -> (r: Step<LoginState, LoginTokens>)
    ensures
        r@ == login_start(body@),
{
    Step::Continue {
        state: LoginState::AwaitingUser { password: body.password },
        effect: Effect::FetchUser { username: body.username },
    }
}

/// Advances a login by one reply, with the clock's reading given by the caller.
pub fn login_step(config: &AppConfig, state: LoginState, reply: Reply, clock: Option<Timestamp>) -> (r:
    Step<LoginState, LoginTokens>)
    ensures
        r@ == login_transition(config@, state@, reply@, option_view(clock)),
{
    match state {
        LoginState::AwaitingUser { password } => match reply {
            Reply::UserFound(user) => Step::Continue {
                state: LoginState::AwaitingDigest {
                    user_id: user.id,
                    stored_digest: user.password_hash,
                },
                effect: Effect::HashPassword { plaintext: password },
            },
            Reply::NotFound(_) => Step::fail(ErrorKind::Unauthorized, "incorrect credential"),
            Reply::Malformed(detail) => Step::fail_with(
                ErrorKind::StorageFailure,
                "User conversion error ",
                detail.as_str(),
            ),
            _ => Step::unexpected_reply(ErrorKind::StorageFailure),
        },
        LoginState::AwaitingDigest { user_id, stored_digest } => match reply {
            Reply::Digest(digest) => {
                if verify_digest(&digest, &stored_digest) {
                    Step::sign(config, LoginState::AwaitingAccessSignature { user_id }, user_id)
                } else {
                    Step::fail(ErrorKind::Unauthorized, "incorrect credential")
                }
            },
            Reply::CryptoError(detail) => Step::fail_with(
                ErrorKind::CryptoFailure,
                "crypto failed,",
                detail.as_str(),
            ),
            _ => Step::unexpected_reply(ErrorKind::CryptoFailure),
        },
        LoginState::AwaitingAccessSignature { user_id } => match reply {
            Reply::Signature(token_string) => {
                let access_token = token_string.clone();
                match TokenRecord::issue_by_clock(
                    config,
                    user_id,
                    token_string,
                    TokenKind::AccessToken,
                    clock,
                ) {
                    Ok(token) => Step::Continue {
                        state: LoginState::AwaitingAccessInsert { user_id, access_token },
                        effect: Effect::InsertToken { token },
                    },
                    Err(failure) => Step::Finished(Err(failure)),
                }
            },
            Reply::CryptoError(detail) => Step::fail_with(
                ErrorKind::CryptoFailure,
                "Crypto error,",
                detail.as_str(),
            ),
            _ => Step::unexpected_reply(ErrorKind::CryptoFailure),
        },
        LoginState::AwaitingAccessInsert { user_id, access_token } => match reply {
            Reply::Stored => Step::sign(
                config,
                LoginState::AwaitingRefreshSignature { user_id, access_token },
                user_id,
            ),
            Reply::Duplicate(detail) => Step::fail_with(
                ErrorKind::Conflict,
                "Could not store activation data,",
                detail.as_str(),
            ),
            Reply::StoreError(detail) => Step::fail_with(
                ErrorKind::StorageFailure,
                "Could not store activation data,",
                detail.as_str(),
            ),
            _ => Step::unexpected_reply(ErrorKind::StorageFailure),
        },
        LoginState::AwaitingRefreshSignature { user_id, access_token } => match reply {
            Reply::Signature(token_string) => {
                let refresh_token = token_string.clone();
                match TokenRecord::issue_by_clock(
                    config,
                    user_id,
                    token_string,
                    TokenKind::RefreshToken,
                    clock,
                ) {
                    Ok(token) => Step::Continue {
                        state: LoginState::AwaitingRefreshInsert { access_token, refresh_token },
                        effect: Effect::InsertToken { token },
                    },
                    Err(failure) => Step::Finished(Err(failure)),
                }
            },
            Reply::CryptoError(detail) => Step::fail_with(
                ErrorKind::CryptoFailure,
                "Crypto error,",
                detail.as_str(),
            ),
            _ => Step::unexpected_reply(ErrorKind::CryptoFailure),
        },
        LoginState::AwaitingRefreshInsert { access_token, refresh_token } => match reply {
            Reply::Stored => Step::Finished(Ok(LoginTokens { access_token, refresh_token })),
            Reply::Duplicate(detail) => Step::fail_with(
                ErrorKind::Conflict,
                "Could not store activation data,",
                detail.as_str(),
            ),
            Reply::StoreError(detail) => Step::fail_with(
                ErrorKind::StorageFailure,
                "Could not store activation data,",
                detail.as_str(),
            ),
            _ => Step::unexpected_reply(ErrorKind::StorageFailure),
        },
    }
}

/// Advances a login by one reply.  The clock is read for the step; its reading matters only
/// where a token is issued, and there a clock without a reading ends the login in a failure.
pub fn login_handler(config: &AppConfig, state: LoginState, reply: Reply) -> (r: Step<
    LoginState,
    LoginTokens,
>)
    ensures
        login_transition(config@, state@, reply@, None) == r@ || exists|now: Instant|
            is_clock_reading(Some(now)) && #[trigger] login_transition(
                config@,
                state@,
                reply@,
                Some(now),
            ) == r@,
        !((state@ is AwaitingAccessSignature || state@ is AwaitingRefreshSignature)
            && reply@ is Signature) ==> forall|clock: Option<Instant>|
            #[trigger] login_transition(config@, state@, reply@, clock) == r@,
{
    let clock = Timestamp::now();
    login_step(config, state, reply, clock)
}

} // verus!
