//! The boundary between a workflow and its collaborators: what a workflow asks for, what it
//! may be answered, and the shape of one step.

use crate::config::{AppConfig, AppConfigView};
use crate::error::{detailed, ErrorKind, Failure, FailureView};
use crate::token::{TokenRecord, TokenRecordView};
use crate::user::{NewUser, NewUserView, User, UserPatch, UserView};
use vstd::prelude::*;
use vstd::string::*;

verus! {

/// One piece of outside work that a workflow asks its caller to carry out.
#[derive(Clone, Debug, PartialEq, Eq)]
pub enum Effect {
    /// Hash the plaintext password.
    HashPassword { plaintext: String },
    /// Sign a token string for the subject under the server secret.
    SignToken { secret: String, subject_id: i64 },
    /// Insert a new user; the store assigns its identifier.
    InsertUser { user: NewUser },
    /// Fetch the user with this username.
    FetchUser { username: String },
    /// Insert a token record.
    InsertToken { token: TokenRecord },
    /// Find the token records whose token string matches exactly.
    FindTokens { token_string: String },
    /// Apply a partial update to the user with this identifier.
    PatchUser { user_id: i64, patch: UserPatch },
}

/// Mathematical model of an [`Effect`].
pub enum EffectView {
    HashPassword { plaintext: Seq<char> },
    SignToken { secret: Seq<char>, subject_id: i64 },
    InsertUser { user: NewUserView },
    FetchUser { username: Seq<char> },
    InsertToken { token: TokenRecordView },
    FindTokens { token_string: Seq<char> },
    PatchUser { user_id: i64, patch: UserPatch },
}

impl View for Effect {
    type V = EffectView;

    open spec fn view(&self) -> EffectView {
        match *self {
            Effect::HashPassword { plaintext } => EffectView::HashPassword {
                plaintext: plaintext@,
            },
            Effect::SignToken { secret, subject_id } => EffectView::SignToken {
                secret: secret@,
                subject_id,
            },
            Effect::InsertUser { user } => EffectView::InsertUser { user: user@ },
            Effect::FetchUser { username } => EffectView::FetchUser { username: username@ },
            Effect::InsertToken { token } => EffectView::InsertToken { token: token@ },
            Effect::FindTokens { token_string } => EffectView::FindTokens {
                token_string: token_string@,
            },
            Effect::PatchUser { user_id, patch } => EffectView::PatchUser { user_id, patch },
        }
    }
}

/// One row of a token lookup, decoded at the storage boundary.
#[derive(Clone, Debug, PartialEq, Eq)]
pub enum TokenRow {
    /// The row has the shape of a token record.
    Decoded(TokenRecord),
    /// The row does not; the text says why.
    Malformed(String),
}

/// Mathematical model of a [`TokenRow`].
pub enum TokenRowView {
    Decoded(TokenRecordView),
    Malformed(Seq<char>),
}

impl View for TokenRow {
    type V = TokenRowView;

    open spec fn view(&self) -> TokenRowView {
        match *self {
            TokenRow::Decoded(record) => TokenRowView::Decoded(record@),
            TokenRow::Malformed(detail) => TokenRowView::Malformed(detail@),
        }
    }
}

/// What a collaborator answered to an [`Effect`].
#[derive(Clone, Debug, PartialEq, Eq)]
pub enum Reply {
    /// The digest of the password.
    Digest(String),
    /// The signed token string.
    Signature(String),
    /// Hashing or signing failed.
    CryptoError(String),
    /// The insert or the patch was written.
    Stored,
    /// The insert hit a value that must be unique.
    Duplicate(String),
    /// The insert or the patch failed for another reason.
    StoreError(String),
    /// The user that was asked for.
    UserFound(User),
    /// The rows that match the token string, in the store's order.
    TokensFound(Vec<TokenRow>),
    /// The lookup found nothing.
    NotFound(String),
    /// The lookup found a record of the wrong shape.
    Malformed(String),
}

/// Mathematical model of a [`Reply`].
pub enum ReplyView {
    Digest(Seq<char>),
    Signature(Seq<char>),
    CryptoError(Seq<char>),
    Stored,
    Duplicate(Seq<char>),
    StoreError(Seq<char>),
    UserFound(UserView),
    TokensFound(Seq<TokenRowView>),
    NotFound(Seq<char>),
    Malformed(Seq<char>),
}

impl View for Reply {
    type V = ReplyView;

    open spec fn view(&self) -> ReplyView {
        match *self {
            Reply::Digest(digest) => ReplyView::Digest(digest@),
            Reply::Signature(token_string) => ReplyView::Signature(token_string@),
            Reply::CryptoError(detail) => ReplyView::CryptoError(detail@),
            Reply::Stored => ReplyView::Stored,
            Reply::Duplicate(detail) => ReplyView::Duplicate(detail@),
            Reply::StoreError(detail) => ReplyView::StoreError(detail@),
            Reply::UserFound(user) => ReplyView::UserFound(user@),
            Reply::TokensFound(rows) => ReplyView::TokensFound(
                rows@.map_values(|row: TokenRow| row@),
            ),
            Reply::NotFound(detail) => ReplyView::NotFound(detail@),
            Reply::Malformed(detail) => ReplyView::Malformed(detail@),
        }
    }
}

/// `word` stands in `text` from position `at` on.
pub open spec fn occurs_at(text: Seq<char>, word: Seq<char>, at: int) -> bool {
    &&& 0 <= at
    &&& at + word.len() <= text.len()
    &&& forall|k: int| 0 <= k < word.len() ==> text[at + k] == word[k]
}

/// `word` stands somewhere in `text`.
pub open spec fn mentions(text: Seq<char>, word: Seq<char>) -> bool {
    exists|at: int| occurs_at(text, word, at)
}

/// The reply that a failed insert amounts to.  A store on Postgres words a violated
/// unique constraint as a duplicate key; every other failure is a plain store error.
pub open spec fn insert_failure(detail: Seq<char>) -> ReplyView {
    if mentions(detail, "duplicate key"@) {
        ReplyView::Duplicate(detail)
    } else {
        ReplyView::StoreError(detail)
    }
}

/// Whether `word` stands somewhere in `text`.
pub fn text_mentions(text: &str, word: &str) -> (r: bool)
    ensures
        r == mentions(text@, word@),
{
    let length: usize = text.unicode_len();
    let span: usize = word.unicode_len();
    if span > length {
        assert forall|at: int| !occurs_at(text@, word@, at) by {}
        return false;
    }
    let mut at: usize = 0;
    while at <= length - span
        invariant
            length == text@.len(),
            span == word@.len(),
            span <= length,
            at <= length - span + 1,
            forall|earlier: int| 0 <= earlier < at ==> !occurs_at(text@, word@, earlier),
        decreases length - span + 1 - at,
    {
        let mut matched: usize = 0;
        while matched < span && text.get_char(at + matched) == word.get_char(matched)
            invariant
                length == text@.len(),
                span == word@.len(),
                at + span <= length,
                matched <= span,
                forall|k: int| 0 <= k < matched ==> text@[at + k] == word@[k],
            decreases span - matched,
        {
            matched = matched + 1;
        }
        if matched == span {
            assert(occurs_at(text@, word@, at as int));
            return true;
        }
        assert(!occurs_at(text@, word@, at as int)) by {
            assert(text@[at + matched] != word@[matched as int]);
        }
        at = at + 1;
    }
    assert forall|place: int| !occurs_at(text@, word@, place) by {
        if 0 <= place && place + span <= length {
            assert(place < at);
        }
    }
    false
}

impl Reply {
    /// The reply that a failed insert amounts to, told from the store's own words.
    pub fn from_insert_error(detail: String) -> (r: Reply)
        ensures
            r@ == insert_failure(detail@),
    {
        if text_mentions(detail.as_str(), "duplicate key") {
            Reply::Duplicate(detail)
        } else {
            Reply::StoreError(detail)
        }
    }
}

/// The text with which a reply explains a failure: the detail of a failing reply, or the
/// complaint about the first row of a lookup.  Every other reply carries none.
pub open spec fn detail_of(reply: ReplyView) -> Seq<char> {
    match reply {
        ReplyView::CryptoError(detail) => detail,
        ReplyView::Duplicate(detail) => detail,
        ReplyView::StoreError(detail) => detail,
        ReplyView::NotFound(detail) => detail,
        ReplyView::Malformed(detail) => detail,
        ReplyView::TokensFound(rows) => if rows.len() > 0 && rows[0] is Malformed {
            rows[0]->Malformed_0
        } else {
            Seq::empty()
        },
        _ => Seq::empty(),
    }
}

/// One step of a workflow: either more outside work is needed, or the workflow is over.
#[derive(Debug, PartialEq, Eq)]
pub enum Step<S, T> {
    /// Perform `effect` and come back with its reply and `state`.
    Continue { state: S, effect: Effect },
    /// The workflow is over, with its value or its failure.
    Finished(Result<T, Failure>),
}

/// Mathematical model of a [`Step`].
pub enum StepView<S, T> {
    Continue { state: S, effect: EffectView },
    Finished(Result<T, FailureView>),
}

impl<S: View, T: View> View for Step<S, T> {
    type V = StepView<S::V, T::V>;

    open spec fn view(&self) -> StepView<S::V, T::V> {
        match *self {
            Step::Continue { state, effect } => StepView::Continue {
                state: state@,
                effect: effect@,
            },
            Step::Finished(Ok(value)) => StepView::Finished(Ok(value@)),
            Step::Finished(Err(error)) => StepView::Finished(Err(error@)),
        }
    }
}

/// The step that ends a workflow with the failure of the given kind and message.
pub open spec fn failed<S, T>(kind: ErrorKind, message: Seq<char>) -> StepView<S, T> {
    StepView::Finished(Err(FailureView { kind, message }))
}

/// The step that ends a workflow with a failure whose message is `prefix` followed by
/// `detail`.
pub open spec fn failed_with<S, T>(
    kind: ErrorKind,
    prefix: Seq<char>,
    detail: Seq<char>,
) -> StepView<S, T> {
    StepView::Finished(Err(detailed(kind, prefix, detail)))
}

/// The step that ends a workflow because the reply does not answer the pending effect.  The
/// kind names the collaborator that was being waited for.
pub open spec fn unexpected<S, T>(kind: ErrorKind) -> StepView<S, T> {
    failed(kind, "unexpected reply"@)
}

/// The step that asks for a token string for `subject_id`, or the crypto failure that an
/// empty server secret amounts to.
pub open spec fn sign_request<S, T>(config: AppConfigView, state: S, subject_id: i64) -> StepView<
    S,
    T,
> {
    if config.hmac_key.len() == 0 {
        failed_with(ErrorKind::CryptoFailure, "Crypto error,"@, "the signing secret is empty"@)
    } else {
        StepView::Continue {
            state,
            effect: EffectView::SignToken { secret: config.hmac_key, subject_id },
        }
    }
}

impl<S: View, T: View> Step<S, T> {
    /// Ends the workflow with a failure.
    pub fn fail(kind: ErrorKind, message: &str) -> (r: Self)
        ensures
            r@ == failed::<S::V, T::V>(kind, message@),
    {
        Step::Finished(Err(Failure::new(kind, message)))
    }

    /// Ends the workflow with a failure whose message is `prefix` followed by `detail`.
    pub fn fail_with(kind: ErrorKind, prefix: &str, detail: &str) -> (r: Self)
        ensures
            r@ == failed_with::<S::V, T::V>(kind, prefix@, detail@),
    {
        Step::Finished(Err(Failure::with_detail(kind, prefix, detail)))
    }

    /// Ends the workflow because the reply does not answer the pending effect.
    pub fn unexpected_reply(kind: ErrorKind) -> (r: Self)
        ensures
            r@ == unexpected::<S::V, T::V>(kind),
    {
        Step::fail(kind, "unexpected reply")
    }

    /// Asks for a token string for `subject_id` under the configured secret.  An empty
    /// secret is a crypto failure, and nothing is asked.
    pub fn sign(config: &AppConfig, state: S, subject_id: i64) -> (r: Self)
        ensures
            r@ == sign_request::<S::V, T::V>(config@, state@, subject_id),
    {
        if config.hmac_key.as_str().is_empty() {
            Step::fail_with(
                ErrorKind::CryptoFailure,
                "Crypto error,",
                "the signing secret is empty",
            )
        } else {
            Step::Continue {
                state,
                effect: Effect::SignToken { secret: config.hmac_key.clone(), subject_id },
            }
        }
    }
}

} // verus!
