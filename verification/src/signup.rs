//! Signup: hash the password, persist the unconfirmed user, learn its identifier, then issue
//! and persist an activation token.

use crate::config::{AppConfig, AppConfigView};
use crate::effect::{
    failed, failed_with, sign_request, unexpected, Effect, EffectView, Reply, ReplyView, Step,
    StepView,
};
use crate::error::ErrorKind;
use crate::model::option_view;
use crate::timestamp::{is_clock_reading, Instant, Timestamp};
use crate::token::{issued_by_clock, TokenKind, TokenRecord};
use crate::user::{NewUser, NewUserView, UserRole};
use vstd::prelude::*;

verus! {

/// The body of a signup request.
#[derive(Clone, Debug, PartialEq, Eq)]
pub struct SignupSchema {
    pub username: String,
    pub email: String,
    pub password: String,
}

/// Mathematical model of a [`SignupSchema`].
pub struct SignupSchemaView {
    pub username: Seq<char>,
    pub email: Seq<char>,
    pub password: Seq<char>,
}

impl View for SignupSchema {
    type V = SignupSchemaView;

    open spec fn view(&self) -> SignupSchemaView {
        SignupSchemaView {
            username: self.username@,
            email: self.email@,
            password: self.password@,
        }
    }
}

/// Where a signup stands between two effects.
#[derive(Clone, Debug, PartialEq, Eq)]
pub enum SignupState {
    /// The password is being hashed.  The plaintext is kept only to refuse a digest that
    /// repeats it.
    AwaitingDigest { username: String, email: String, password: String },
    /// The unconfirmed user is being inserted.
    AwaitingUserInsert { username: String },
    /// The inserted user is being fetched for its identifier.
    AwaitingUserFetch,
    /// The activation token string is being signed.
    AwaitingSignature { user_id: i64 },
    /// The activation token is being inserted.
    AwaitingTokenInsert,
}

/// Mathematical model of a [`SignupState`].
pub enum SignupStateView {
    AwaitingDigest { username: Seq<char>, email: Seq<char>, password: Seq<char> },
    AwaitingUserInsert { username: Seq<char> },
    AwaitingUserFetch,
    AwaitingSignature { user_id: i64 },
    AwaitingTokenInsert,
}

impl View for SignupState {
    type V = SignupStateView;

    open spec fn view(&self) -> SignupStateView {
        match *self {
            SignupState::AwaitingDigest { username, email, password } => {
                SignupStateView::AwaitingDigest {
                    username: username@,
                    email: email@,
                    password: password@,
                }
            },
            SignupState::AwaitingUserInsert { username } => SignupStateView::AwaitingUserInsert {
                username: username@,
            },
            SignupState::AwaitingUserFetch => SignupStateView::AwaitingUserFetch,
            SignupState::AwaitingSignature { user_id } => SignupStateView::AwaitingSignature {
                user_id,
            },
            SignupState::AwaitingTokenInsert => SignupStateView::AwaitingTokenInsert,
        }
    }
}

/// The first step of a signup.  A request with an empty field fails at once; any other asks
/// for the digest of the password.
pub open spec fn signup_start(body: SignupSchemaView) -> StepView<SignupStateView, ()> {
    if body.username.len() == 0 || body.email.len() == 0 || body.password.len() == 0 {
        failed(ErrorKind::InvalidInput, "Invalid email, password or username"@)
    } else {
        StepView::Continue {
            state: SignupStateView::AwaitingDigest {
                username: body.username,
                email: body.email,
                password: body.password,
            },
            effect: EffectView::HashPassword { plaintext: body.password },
        }
    }
}

/// The step that a signup in `state` takes when `reply` arrives and the clock reads `clock`.
/// Only the issuance of a token consults the clock, and fails without a reading.
pub open spec fn signup_transition(
    config: AppConfigView,
    state: SignupStateView,
    reply: ReplyView,
    clock: Option<Instant>,
) -> StepView<SignupStateView, ()> {
    match state {
        SignupStateView::AwaitingDigest { username, email, password } => match reply {
            ReplyView::Digest(digest) => if digest == password {
                failed_with(
                    ErrorKind::CryptoFailure,
                    "crypto failed,"@,
                    "the digest repeats the password"@,
                )
            } else {
                StepView::Continue {
                    state: SignupStateView::AwaitingUserInsert { username },
                    effect: EffectView::InsertUser {
                        user: NewUserView {
                            username,
                            email,
                            password_hash: digest,
                            role: UserRole::Normal,
                            confirmed: false,
                        },
                    },
                }
            },
            ReplyView::CryptoError(detail) => failed_with(
                ErrorKind::CryptoFailure,
                "crypto failed,"@,
                detail,
            ),
            _ => unexpected(ErrorKind::CryptoFailure),
        },
        SignupStateView::AwaitingUserInsert { username } => match reply {
            ReplyView::Stored => StepView::Continue {
                state: SignupStateView::AwaitingUserFetch,
                effect: EffectView::FetchUser { username },
            },
            ReplyView::Duplicate(detail) => failed_with(
                ErrorKind::Conflict,
                "Could not store user data,"@,
                detail,
            ),
            ReplyView::StoreError(detail) => failed_with(
                ErrorKind::StorageFailure,
                "Could not store user data,"@,
                detail,
            ),
            _ => unexpected(ErrorKind::StorageFailure),
        },
        SignupStateView::AwaitingUserFetch => match reply {
            ReplyView::UserFound(user) => sign_request(
                config,
                SignupStateView::AwaitingSignature { user_id: user.id },
                user.id,
            ),
            ReplyView::NotFound(detail) => failed_with(
                ErrorKind::NotFound,
                "user retrieval Error,"@,
                detail,
            ),
            ReplyView::Malformed(detail) => failed_with(
                ErrorKind::StorageFailure,
                "user retrieval Error,"@,
                detail,
            ),
            _ => unexpected(ErrorKind::StorageFailure),
        },
        SignupStateView::AwaitingSignature { user_id } => match reply {
            ReplyView::Signature(token_string) => match issued_by_clock(
                config,
                user_id,
                token_string,
                TokenKind::ActivationToken,
                clock,
            ) {
                Ok(token) => StepView::Continue {
                    state: SignupStateView::AwaitingTokenInsert,
                    effect: EffectView::InsertToken { token },
                },
                Err(failure) => StepView::Finished(Err(failure)),
            },
            ReplyView::CryptoError(detail) => failed_with(
                ErrorKind::CryptoFailure,
                "Crypto error,"@,
                detail,
            ),
            _ => unexpected(ErrorKind::CryptoFailure),
        },
        SignupStateView::AwaitingTokenInsert => match reply {
            ReplyView::Stored => StepView::Finished(Ok(())),
            ReplyView::Duplicate(detail) => failed_with(
                ErrorKind::Conflict,
                "Could not store activation data,"@,
                detail,
            ),
            ReplyView::StoreError(detail) => failed_with(
                ErrorKind::StorageFailure,
                "Could not store activation data,"@,
                detail,
            ),
            _ => unexpected(ErrorKind::StorageFailure),
        },
    }
}

/// Starts a signup.
pub fn signup_begin(body: SignupSchema) -> (r: Step<SignupState, ()>)
    ensures
        r@ == signup_start(body@),
{
    if body.username.as_str().is_empty() || body.email.as_str().is_empty()
        || body.password.as_str().is_empty() {
        Step::fail(ErrorKind::InvalidInput, "Invalid email, password or username")
    } else {
        let plaintext = body.password.clone();
        Step::Continue {
            state: SignupState::AwaitingDigest {
                username: body.username,
                email: body.email,
                password: body.password,
            },
            effect: Effect::HashPassword { plaintext },
        }
    }
}

/// Advances a signup by one reply, with the clock's reading given by the caller.
pub fn signup_step(config: &AppConfig, state: SignupState, reply: Reply, clock: Option<Timestamp>) -> (r:
    Step<SignupState, ()>)
    ensures
        r@ == signup_transition(config@, state@, reply@, option_view(clock)),
{
    match state {
        SignupState::AwaitingDigest { username, email, password } => match reply {
            Reply::Digest(digest) => {
                if digest == password {
                    Step::fail_with(
                        ErrorKind::CryptoFailure,
                        "crypto failed,",
                        "the digest repeats the password",
                    )
                } else {
                    let lookup = username.clone();
                    let user = NewUser::new(username, digest, email, UserRole::Normal);
                    Step::Continue {
                        state: SignupState::AwaitingUserInsert { username: lookup },
                        effect: Effect::InsertUser { user },
                    }
                }
            },
            Reply::CryptoError(detail) => Step::fail_with(
                ErrorKind::CryptoFailure,
                "crypto failed,",
                detail.as_str(),
            ),
            _ => Step::unexpected_reply(ErrorKind::CryptoFailure),
        },
        SignupState::AwaitingUserInsert { username } => match reply {
            Reply::Stored => Step::Continue {
                state: SignupState::AwaitingUserFetch,
                effect: Effect::FetchUser { username },
            },
            Reply::Duplicate(detail) => Step::fail_with(
                ErrorKind::Conflict,
                "Could not store user data,",
                detail.as_str(),
            ),
            Reply::StoreError(detail) => Step::fail_with(
                ErrorKind::StorageFailure,
                "Could not store user data,",
                detail.as_str(),
            ),
            _ => Step::unexpected_reply(ErrorKind::StorageFailure),
        },
        SignupState::AwaitingUserFetch => match reply {
            Reply::UserFound(user) => Step::sign(
                config,
                SignupState::AwaitingSignature { user_id: user.id },
                user.id,
            ),
            Reply::NotFound(detail) => Step::fail_with(
                ErrorKind::NotFound,
                "user retrieval Error,",
                detail.as_str(),
            ),
            Reply::Malformed(detail) => Step::fail_with(
                ErrorKind::StorageFailure,
                "user retrieval Error,",
                detail.as_str(),
            ),
            _ => Step::unexpected_reply(ErrorKind::StorageFailure),
        },
        SignupState::AwaitingSignature { user_id } => match reply {
            Reply::Signature(token_string) => match TokenRecord::issue_by_clock(
                config,
                user_id,
                token_string,
                TokenKind::ActivationToken,
                clock,
            ) {
                Ok(token) => Step::Continue {
                    state: SignupState::AwaitingTokenInsert,
                    effect: Effect::InsertToken { token },
                },
                Err(failure) => Step::Finished(Err(failure)),
            },
            Reply::CryptoError(detail) => Step::fail_with(
                ErrorKind::CryptoFailure,
                "Crypto error,",
                detail.as_str(),
            ),
            _ => Step::unexpected_reply(ErrorKind::CryptoFailure),
        },
        SignupState::AwaitingTokenInsert => match reply {
            Reply::Stored => Step::Finished(Ok(())),
            Reply::Duplicate(detail) => Step::fail_with(
                ErrorKind::Conflict,
                "Could not store activation data,",
                detail.as_str(),
            ),
            Reply::StoreError(detail) => Step::fail_with(
                ErrorKind::StorageFailure,
                "Could not store activation data,",
                detail.as_str(),
            ),
            _ => Step::unexpected_reply(ErrorKind::StorageFailure),
        },
    }
}

/// Advances a signup by one reply.  The clock is read for the step; its reading matters
/// only where the activation token is issued, and there a clock without a reading ends the
/// signup in a failure.
pub fn signup_handler(config: &AppConfig, state: SignupState, reply: Reply) -> (r: Step<
    SignupState,
    (),
>)
    ensures
        signup_transition(config@, state@, reply@, None) == r@ || exists|now: Instant|
            is_clock_reading(Some(now)) && #[trigger] signup_transition(
                config@,
                state@,
                reply@,
                Some(now),
            ) == r@,
        !(state@ is AwaitingSignature && reply@ is Signature) ==> forall|clock: Option<Instant>|
            #[trigger] signup_transition(config@, state@, reply@, clock) == r@,
{
    let clock = Timestamp::now();
    signup_step(config, state, reply, clock)
}

} // verus!
