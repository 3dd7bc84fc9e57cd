//! What holds of the workflows whatever the collaborators answer.

use crate::activate::{activate_start, activate_transition, ActivateState};
use crate::config::AppConfigView;
use crate::effect::{
    detail_of, failed, failed_with, EffectView, ReplyView, StepView, TokenRowView,
};
use crate::error::ErrorKind;
use crate::login::{login_start, login_transition, LoginSchemaView, LoginStateView, LoginTokensView};
use crate::signup::{signup_start, signup_transition, SignupSchemaView, SignupStateView};
use crate::timestamp::{within_calendar, Instant};
use crate::token::{issued, ttl_seconds, TokenKind, TokenRecordView};
use crate::trace::{requested, run, Arrival};
use crate::user::{UserPatch, UserRole, UserView};
use vstd::prelude::*;

verus! {

/// The signup transition under a fixed configuration.
pub open spec fn signup_next(config: AppConfigView) -> spec_fn(
    SignupStateView,
    ReplyView,
    Option<Instant>,
) -> StepView<SignupStateView, ()> {
    |state: SignupStateView, reply: ReplyView, clock: Option<Instant>|
        signup_transition(config, state, reply, clock)
}

/// The login transition under a fixed configuration.
pub open spec fn login_next(config: AppConfigView) -> spec_fn(
    LoginStateView,
    ReplyView,
    Option<Instant>,
) -> StepView<LoginStateView, LoginTokensView> {
    |state: LoginStateView, reply: ReplyView, clock: Option<Instant>|
        login_transition(config, state, reply, clock)
}

/// The activation transition, which reads neither configuration nor clock.
pub open spec fn activate_next() -> spec_fn(
    ActivateState,
    ReplyView,
    Option<Instant>,
) -> StepView<ActivateState, ()> {
    |state: ActivateState, reply: ReplyView, clock: Option<Instant>|
        activate_transition(state, reply)
}

/// There is room in the calendar for a token of the given kind issued at the clock's
/// reading: the clock has a reading, and it and the expiry both lie within the calendar.
pub open spec fn has_room(config: AppConfigView, kind: TokenKind, clock: Option<Instant>) -> bool {
    clock matches Some(now) && now.in_calendar() && within_calendar(
        now.secs + ttl_seconds(config, kind),
    )
}

/// A token is issued exactly when the instant of issuance and the expiry both lie within the
/// calendar.  It then expires exactly its kind's configured lifetime after the instant of
/// issuance, and therefore strictly later.
pub proof fn expiry_is_lifetime_after_issuance(
    config: AppConfigView,
    subject_id: i64,
    token_string: Seq<char>,
    kind: TokenKind,
    now: Instant,
)
    requires
        config.wf(),
        now.wf(),
    ensures
        issued(config, subject_id, token_string, kind, now) is Ok <==> has_room(
            config,
            kind,
            Some(now),
        ),
        (issued(config, subject_id, token_string, kind, now) matches Ok(token) ==> {
            &&& token.expiry.secs == now.secs + ttl_seconds(config, kind)
            &&& token.expiry.nanos == now.nanos
            &&& now.is_before(token.expiry)
            &&& token.kind == kind
            &&& token.subject_id == subject_id
            &&& token.token_string == token_string
        }),
{
}

/// A signup asks for its effects in one fixed order, each at most once: hash the password,
/// insert the user, fetch the user, sign the token, insert the token.  It is over after five
/// replies at the latest.
pub proof fn signup_keeps_its_order(
    config: AppConfigView,
    body: SignupSchemaView,
    replies: Seq<Arrival>,
)
    ensures
        ({
            let effects = requested(signup_next(config), signup_start(body), replies);
            &&& effects.len() <= 5
            &&& effects.len() <= replies.len() + 1
            &&& effects.len() > 0 ==> effects[0] is HashPassword
            &&& effects.len() > 1 ==> effects[1] is InsertUser
            &&& effects.len() > 2 ==> effects[2] is FetchUser
            &&& effects.len() > 3 ==> effects[3] is SignToken
            &&& effects.len() > 4 ==> effects[4] is InsertToken
        }),
        replies.len() >= 5 ==> run(signup_next(config), signup_start(body), replies) is Finished,
{
    reveal_with_fuel(run, 7);
    reveal_with_fuel(requested, 7);
}

/// Whatever the collaborators answer, a signup hands the store at most one user, as the
/// second effect of the run.  That user is unconfirmed, has the normal role, carries the
/// request's username and email, and its password field holds the digest that the hasher
/// replied, which differs from the plaintext password.
pub proof fn signup_never_stores_the_plaintext(
    config: AppConfigView,
    body: SignupSchemaView,
    replies: Seq<Arrival>,
    i: int,
)
    requires
        0 <= i < requested(signup_next(config), signup_start(body), replies).len(),
        requested(signup_next(config), signup_start(body), replies)[i] is InsertUser,
    ensures
        i == 1,
        replies.len() > 0,
        ({
            let user = requested(
                signup_next(config),
                signup_start(body),
                replies,
            )[i]->InsertUser_user;
            &&& replies[0].reply == ReplyView::Digest(user.password_hash)
            &&& user.password_hash != body.password
            &&& user.username == body.username
            &&& user.email == body.email
            &&& user.role == UserRole::Normal
            &&& !user.confirmed
        }),
{
    reveal_with_fuel(requested, 7);
}

/// A signup whose user insert hits a taken username ends in `Conflict`.  Nothing is asked of
/// the store or the signer afterwards, so no activation token exists for the loser.
pub proof fn duplicate_username_is_a_conflict(
    config: AppConfigView,
    body: SignupSchemaView,
    replies: Seq<Arrival>,
)
    requires
        replies.len() >= 2,
        requested(signup_next(config), signup_start(body), replies).len() >= 2,
        replies[1].reply is Duplicate,
    ensures
        run(signup_next(config), signup_start(body), replies) == failed_with::<
            SignupStateView,
            (),
        >(ErrorKind::Conflict, "Could not store user data,"@, replies[1].reply->Duplicate_0),
        requested(signup_next(config), signup_start(body), replies).len() == 2,
        requested(signup_next(config), signup_start(body), replies)[1] is InsertUser,
{
    reveal_with_fuel(run, 4);
    reveal_with_fuel(requested, 4);
}

/// Of two signups for one username whose inserts the store answers differently, the one
/// answered as a duplicate ends in `Conflict` and asks for nothing after its insert, so it
/// overwrites no user and leaves no token; the one whose insert was written goes on to
/// fetch the user it wrote.  So the two never both succeed.  Which of two racing inserts
/// is written is the store's to decide.
pub proof fn of_two_signups_the_duplicate_loses(
    config: AppConfigView,
    winner: SignupSchemaView,
    loser: SignupSchemaView,
    won: Seq<Arrival>,
    lost: Seq<Arrival>,
)
    requires
        winner.username == loser.username,
        won.len() >= 2,
        lost.len() >= 2,
        requested(signup_next(config), signup_start(winner), won).len() >= 2,
        requested(signup_next(config), signup_start(loser), lost).len() >= 2,
        won[1].reply is Stored,
        lost[1].reply is Duplicate,
    ensures
        run(signup_next(config), signup_start(loser), lost) matches StepView::Finished(
            Err(failure),
        ) && failure.kind == ErrorKind::Conflict,
        requested(signup_next(config), signup_start(loser), lost).len() == 2,
        requested(signup_next(config), signup_start(winner), won).len() >= 3,
        requested(signup_next(config), signup_start(winner), won)[2] == (EffectView::FetchUser {
            username: winner.username,
        }),
{
    reveal_with_fuel(run, 7);
    reveal_with_fuel(requested, 7);
}

/// A signup that succeeds has stored the user and then an activation token for the
/// identifier that the store assigned, expiring the configured hours after it was signed.
pub proof fn signup_succeeds_only_with_user_and_token_stored(
    config: AppConfigView,
    body: SignupSchemaView,
    replies: Seq<Arrival>,
)
    requires
        run(signup_next(config), signup_start(body), replies) matches StepView::Finished(Ok(_)),
    ensures
        replies.len() >= 5,
        replies[1].reply is Stored,
        replies[4].reply is Stored,
        ({
            let effects = requested(signup_next(config), signup_start(body), replies);
            &&& effects.len() == 5
            &&& replies[2].reply matches ReplyView::UserFound(user)
            &&& replies[3].reply matches ReplyView::Signature(token_string)
            &&& effects[3] == EffectView::SignToken { secret: config.hmac_key, subject_id: user.id }
            &&& replies[3].at matches Some(now)
            &&& issued(config, user.id, token_string, TokenKind::ActivationToken, now)
                matches Ok(token)
            &&& effects[4] == EffectView::InsertToken { token }
        }),
{
    reveal_with_fuel(run, 7);
    reveal_with_fuel(requested, 7);
}

/// A signup with no empty field succeeds, provided that the digest differs from the
/// password, that the secret is not empty, that hasher, signer and store answer each
/// request, and that the clock reads a time from which the expiry lies within the calendar.
/// The token it stores expires the configured hours after that reading.
pub proof fn signup_succeeds_when_all_answer(
    config: AppConfigView,
    body: SignupSchemaView,
    digest: Seq<char>,
    user: UserView,
    token_string: Seq<char>,
    replies: Seq<Arrival>,
)
    requires
        body.username.len() > 0,
        body.email.len() > 0,
        body.password.len() > 0,
        digest != body.password,
        config.hmac_key.len() > 0,
        replies.len() == 5,
        replies[0].reply == ReplyView::Digest(digest),
        replies[1].reply == ReplyView::Stored,
        replies[2].reply == ReplyView::UserFound(user),
        replies[3].reply == ReplyView::Signature(token_string),
        replies[4].reply == ReplyView::Stored,
        has_room(config, TokenKind::ActivationToken, replies[3].at),
    ensures
        run(signup_next(config), signup_start(body), replies) == StepView::<
            SignupStateView,
            (),
        >::Finished(Ok(())),
        requested(signup_next(config), signup_start(body), replies)[4] == (
        EffectView::InsertToken {
            token: TokenRecordView {
                subject_id: user.id,
                token_string,
                kind: TokenKind::ActivationToken,
                expiry: replies[3].at->Some_0.plus_seconds(
                    ttl_seconds(config, TokenKind::ActivationToken),
                ),
            },
        }),
{
    reveal_with_fuel(run, 7);
    reveal_with_fuel(requested, 7);
}

/// A login asks for its effects in one fixed order, each at most once: fetch the user, hash
/// the password, then sign and insert the access token, then sign and insert the refresh
/// token.  It is over after six replies at the latest.
pub proof fn login_keeps_its_order(
    config: AppConfigView,
    body: LoginSchemaView,
    replies: Seq<Arrival>,
)
    ensures
        ({
            let effects = requested(login_next(config), login_start(body), replies);
            &&& 1 <= effects.len() <= 6
            &&& effects.len() <= replies.len() + 1
            &&& effects[0] is FetchUser
            &&& effects.len() > 1 ==> effects[1] is HashPassword
            &&& effects.len() > 2 ==> effects[2] is SignToken
            &&& effects.len() > 3 ==> (effects[3] matches EffectView::InsertToken { token }
                && token.kind == TokenKind::AccessToken)
            &&& effects.len() > 4 ==> effects[4] is SignToken
            &&& effects.len() > 5 ==> (effects[5] matches EffectView::InsertToken { token }
                && token.kind == TokenKind::RefreshToken)
        }),
        replies.len() >= 6 ==> run(login_next(config), login_start(body), replies) is Finished,
{
    reveal_with_fuel(run, 8);
    reveal_with_fuel(requested, 8);
}

/// A login that succeeds has fetched the user named in the request, has had the request's
/// password hashed, and has found the digest equal to the stored one.  The tokens it hands
/// back are the two strings that the signer replied.
pub proof fn login_succeeds_only_on_matching_digest(
    config: AppConfigView,
    body: LoginSchemaView,
    replies: Seq<Arrival>,
)
    requires
        run(login_next(config), login_start(body), replies) matches StepView::Finished(Ok(_)),
    ensures
        replies.len() >= 6,
        ({
            let effects = requested(login_next(config), login_start(body), replies);
            &&& effects[0] == EffectView::FetchUser { username: body.username }
            &&& effects[1] == EffectView::HashPassword { plaintext: body.password }
        }),
        replies[0].reply matches ReplyView::UserFound(user)
            && replies[1].reply == ReplyView::Digest(user.password_hash),
        run(login_next(config), login_start(body), replies) matches StepView::Finished(Ok(tokens))
            && replies[2].reply == ReplyView::Signature(tokens.access_token)
            && replies[4].reply == ReplyView::Signature(tokens.refresh_token),
{
    reveal_with_fuel(run, 8);
    reveal_with_fuel(requested, 3);
}

/// A login whose password hashes to anything but the stored digest ends in `Unauthorized`
/// before any token is signed or stored.
pub proof fn login_rejects_a_wrong_password(
    config: AppConfigView,
    body: LoginSchemaView,
    replies: Seq<Arrival>,
)
    requires
        replies.len() >= 2,
        replies[0].reply matches ReplyView::UserFound(user)
            && replies[1].reply matches ReplyView::Digest(digest) && digest
            != user.password_hash,
    ensures
        run(login_next(config), login_start(body), replies) == failed::<
            LoginStateView,
            LoginTokensView,
        >(ErrorKind::Unauthorized, "incorrect credential"@),
        requested(login_next(config), login_start(body), replies) == (seq![
            EffectView::FetchUser { username: body.username },
            EffectView::HashPassword { plaintext: body.password },
        ]),
{
    reveal_with_fuel(run, 4);
    reveal_with_fuel(requested, 4);
}

/// A login for a username that the store does not know gets the answer that a wrong
/// password gets, with the same kind and the same message, and asks for nothing further.
pub proof fn login_answers_an_unknown_user_like_a_wrong_password(
    config: AppConfigView,
    body: LoginSchemaView,
    replies: Seq<Arrival>,
)
    requires
        replies.len() >= 1,
        replies[0].reply is NotFound,
    ensures
        run(login_next(config), login_start(body), replies) == failed::<
            LoginStateView,
            LoginTokensView,
        >(ErrorKind::Unauthorized, "incorrect credential"@),
        requested(login_next(config), login_start(body), replies) == (seq![
            EffectView::FetchUser { username: body.username },
        ]),
{
    reveal_with_fuel(run, 3);
    reveal_with_fuel(requested, 3);
}

/// A login ends in `Unauthorized` only when the user was not found, or when the digest of
/// the supplied password differs from the stored digest.
pub proof fn login_is_unauthorized_only_without_a_match(
    config: AppConfigView,
    body: LoginSchemaView,
    replies: Seq<Arrival>,
)
    requires
        run(login_next(config), login_start(body), replies) matches StepView::Finished(
            Err(failure),
        ) && failure.kind == ErrorKind::Unauthorized,
    ensures
        replies.len() >= 1,
        replies[0].reply is NotFound || (replies.len() >= 2 && (
        replies[0].reply matches ReplyView::UserFound(user) && (
        replies[1].reply matches ReplyView::Digest(digest) && digest != user.password_hash))),
{
    reveal_with_fuel(run, 8);
}

/// A login whose password hashes to the stored digest succeeds with the two signed strings,
/// provided that the secret is not empty, that signer and store answer each request, and
/// that the clock reads a time from which both expiries lie within the calendar.
pub proof fn login_with_matching_digest_succeeds(
    config: AppConfigView,
    body: LoginSchemaView,
    user: UserView,
    access_token: Seq<char>,
    refresh_token: Seq<char>,
    replies: Seq<Arrival>,
)
    requires
        config.hmac_key.len() > 0,
        replies.len() == 6,
        replies[0].reply == ReplyView::UserFound(user),
        replies[1].reply == ReplyView::Digest(user.password_hash),
        replies[2].reply == ReplyView::Signature(access_token),
        replies[3].reply == ReplyView::Stored,
        replies[4].reply == ReplyView::Signature(refresh_token),
        replies[5].reply == ReplyView::Stored,
        has_room(config, TokenKind::AccessToken, replies[2].at),
        has_room(config, TokenKind::RefreshToken, replies[4].at),
    ensures
        run(login_next(config), login_start(body), replies) == StepView::<
            LoginStateView,
            LoginTokensView,
        >::Finished(Ok(LoginTokensView { access_token, refresh_token })),
{
    reveal_with_fuel(run, 8);
}

/// A login that succeeds has stored both tokens, each issued to the fetched user and
/// expiring its kind's configured lifetime after it was signed.
pub proof fn login_succeeds_only_with_both_tokens_stored(
    config: AppConfigView,
    body: LoginSchemaView,
    replies: Seq<Arrival>,
)
    requires
        run(login_next(config), login_start(body), replies) matches StepView::Finished(Ok(_)),
    ensures
        replies.len() >= 6,
        replies[3].reply is Stored,
        replies[5].reply is Stored,
        ({
            let effects = requested(login_next(config), login_start(body), replies);
            &&& effects.len() == 6
            &&& replies[0].reply matches ReplyView::UserFound(user)
            &&& replies[2].reply matches ReplyView::Signature(access_token)
            &&& replies[4].reply matches ReplyView::Signature(refresh_token)
            &&& replies[2].at matches Some(first)
            &&& replies[4].at matches Some(second)
            &&& issued(config, user.id, access_token, TokenKind::AccessToken, first)
                matches Ok(access)
            &&& issued(config, user.id, refresh_token, TokenKind::RefreshToken, second)
                matches Ok(refresh)
            &&& effects[3] == EffectView::InsertToken { token: access }
            &&& effects[5] == EffectView::InsertToken { token: refresh }
        }),
{
    reveal_with_fuel(run, 8);
    reveal_with_fuel(requested, 8);
}

/// Marking a user confirmed leaves it confirmed, changes no other field, and doing it a
/// second time changes nothing.
pub proof fn confirmation_is_idempotent(user: UserView)
    ensures
        UserPatch::confirmation().applied(user).confirmed,
        UserPatch::confirmation().applied(user) == (UserView { confirmed: true, ..user }),
        UserPatch::confirmation().applied(UserPatch::confirmation().applied(user))
            == UserPatch::confirmation().applied(user),
{
}

/// An activation asks for at most one patch, after the lookup, and that patch marks the
/// subject of the first row found as confirmed and touches nothing else.
pub proof fn activation_patches_the_subject_once(token_string: Seq<char>, replies: Seq<Arrival>)
    ensures
        ({
            let effects = requested(activate_next(), activate_start(token_string), replies);
            &&& 1 <= effects.len() <= 2
            &&& effects[0] == EffectView::FindTokens { token_string }
            &&& effects.len() == 2 ==> {
                &&& replies[0].reply matches ReplyView::TokensFound(rows)
                &&& rows.len() > 0
                &&& rows[0] matches TokenRowView::Decoded(record)
                &&& effects[1] == EffectView::PatchUser {
                    user_id: record.subject_id,
                    patch: UserPatch::confirmation(),
                }
            }
        }),
{
    reveal_with_fuel(requested, 4);
}

/// Activating with a token string that the store does not know ends in `NotFound`, and no
/// user is ever patched: the lookup is the only effect of the run.
pub proof fn unknown_token_is_not_found(token_string: Seq<char>, replies: Seq<Arrival>)
    requires
        replies.len() > 0,
        replies[0].reply is NotFound || replies[0].reply == ReplyView::TokensFound(Seq::empty()),
    ensures
        run(activate_next(), activate_start(token_string), replies) matches StepView::Finished(
            Err(failure),
        ) && failure.kind == ErrorKind::NotFound,
        requested(activate_next(), activate_start(token_string), replies) == (seq![
            EffectView::FindTokens { token_string },
        ]),
{
    reveal_with_fuel(run, 3);
    reveal_with_fuel(requested, 3);
}

/// An activation is over after two replies at the latest.
pub proof fn activation_finishes_within_two_replies(token_string: Seq<char>, replies: Seq<Arrival>)
    requires
        replies.len() >= 2,
    ensures
        run(activate_next(), activate_start(token_string), replies) is Finished,
{
    reveal_with_fuel(run, 4);
}

/// Only the step that issues a token reads the clock: every other step of a signup or a
/// login is the same at any two instants.
pub proof fn only_issuance_reads_the_clock(
    config: AppConfigView,
    signup: SignupStateView,
    login: LoginStateView,
    reply: ReplyView,
    now: Option<Instant>,
    later: Option<Instant>,
)
    ensures
        !(signup is AwaitingSignature && reply is Signature) ==> signup_transition(
            config,
            signup,
            reply,
            now,
        ) == signup_transition(config, signup, reply, later),
        !((login is AwaitingAccessSignature || login is AwaitingRefreshSignature)
            && reply is Signature) ==> login_transition(config, login, reply, now)
            == login_transition(config, login, reply, later),
{
}

/// The messages that a failing step can carry: a fixed text, or a fixed prefix followed by
/// the text with which the reply explained its failure.
pub open spec fn is_workflow_message(message: Seq<char>, detail: Seq<char>) -> bool {
    ||| message == "Invalid email, password or username"@
    ||| message == "unexpected reply"@
    ||| message == "incorrect credential"@
    ||| message == "Token Not Found"@
    ||| message == "crypto failed,"@ + "the digest repeats the password"@
    ||| message == "Crypto error,"@ + "the signing secret is empty"@
    ||| message == "Crypto error,"@ + "the expiry is out of range"@
    ||| message == "Crypto error,"@ + "the clock cannot be read"@
    ||| message == "crypto failed,"@ + detail
    ||| message == "Crypto error,"@ + detail
    ||| message == "Could not store user data,"@ + detail
    ||| message == "Could not store activation data,"@ + detail
    ||| message == "user retrieval Error,"@ + detail
    ||| message == "User conversion error "@ + detail
    ||| message == "Token Not Found,"@ + detail
    ||| message == "Token error,"@ + detail
}

/// No failure quotes a password, a digest or a token string: the message of a failing step
/// is a fixed text, at most followed by the collaborator's own explanation.
pub proof fn failures_quote_only_the_reply(
    config: AppConfigView,
    signup: SignupStateView,
    login: LoginStateView,
    activation: ActivateState,
    body: SignupSchemaView,
    reply: ReplyView,
    now: Option<Instant>,
)
    ensures
        signup_start(body) matches StepView::Finished(Err(failure)) ==> is_workflow_message(
            failure.message,
            Seq::empty(),
        ),
        signup_transition(config, signup, reply, now) matches StepView::Finished(Err(failure))
            ==> is_workflow_message(failure.message, detail_of(reply)),
        login_transition(config, login, reply, now) matches StepView::Finished(Err(failure))
            ==> is_workflow_message(failure.message, detail_of(reply)),
        activate_transition(activation, reply) matches StepView::Finished(Err(failure))
            ==> is_workflow_message(failure.message, detail_of(reply)),
{
}

} // verus!
