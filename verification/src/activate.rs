//! Activation: resolve a token string to its record and mark the user it was issued to as
//! confirmed.  The record's expiry and kind are not consulted: any stored token that the
//! string resolves to activates its subject.

use crate::effect::{
    failed, failed_with, unexpected, Effect, EffectView, Reply, ReplyView, Step, StepView,
    TokenRow, TokenRowView,
};
use crate::error::ErrorKind;
use crate::user::UserPatch;
use vstd::prelude::*;

verus! {

/// Where an activation stands between two effects.
#[derive(Clone, Copy, Debug, PartialEq, Eq)]
pub enum ActivateState {
    /// The token is being looked up.
    AwaitingToken,
    /// The user is being patched.
    AwaitingPatch,
}

impl View for ActivateState {
    type V = ActivateState;

    open spec fn view(&self) -> ActivateState {
        *self
    }
}

/// The first step of an activation: look the token string up.
pub open spec fn activate_start(token_string: Seq<char>) -> StepView<ActivateState, ()> {
    StepView::Continue {
        state: ActivateState::AwaitingToken,
        effect: EffectView::FindTokens { token_string },
    }
}

/// The step that an activation in `state` takes when `reply` arrives.  Of the rows that a
/// lookup returns only the first counts.
pub open spec fn activate_transition(state: ActivateState, reply: ReplyView) -> StepView<
    ActivateState,
    (),
> {
    match state {
        ActivateState::AwaitingToken => match reply {
            ReplyView::TokensFound(rows) => if rows.len() == 0 {
                failed(ErrorKind::NotFound, "Token Not Found"@)
            } else {
                match rows[0] {
                    TokenRowView::Decoded(record) => StepView::Continue {
                        state: ActivateState::AwaitingPatch,
                        effect: EffectView::PatchUser {
                            user_id: record.subject_id,
                            patch: UserPatch::confirmation(),
                        },
                    },
                    TokenRowView::Malformed(detail) => failed_with(
                        ErrorKind::StorageFailure,
                        "Token error,"@,
                        detail,
                    ),
                }
            },
            ReplyView::NotFound(detail) => failed_with(
                ErrorKind::NotFound,
                "Token Not Found,"@,
                detail,
            ),
            _ => unexpected(ErrorKind::StorageFailure),
        },
        ActivateState::AwaitingPatch => match reply {
            ReplyView::Stored => StepView::Finished(Ok(())),
            ReplyView::StoreError(detail) => failed_with(
                ErrorKind::StorageFailure,
                "user retrieval Error,"@,
                detail,
            ),
            _ => unexpected(ErrorKind::StorageFailure),
        },
    }
}

/// Starts an activation.
pub fn activate_begin(token_string: String) -> (r: Step<ActivateState, ()>)
    ensures
        r@ == activate_start(token_string@),
{
    Step::Continue {
        state: ActivateState::AwaitingToken,
        effect: Effect::FindTokens { token_string },
    }
}

/// Advances an activation by one reply.
pub fn activate_user_handler(state: ActivateState, reply: Reply) -> (r: Step<ActivateState, ()>)
    ensures
        r@ == activate_transition(state@, reply@),
{
    match state {
        ActivateState::AwaitingToken => match reply {
            Reply::TokensFound(rows) => {
                if rows.len() == 0 {
                    Step::fail(ErrorKind::NotFound, "Token Not Found")
                } else {
                    match &rows[0] {
                        TokenRow::Decoded(record) => Step::Continue {
                            state: ActivateState::AwaitingPatch,
                            effect: Effect::PatchUser {
                                user_id: record.subject_id,
                                patch: UserPatch::confirm(),
                            },
                        },
                        TokenRow::Malformed(detail) => Step::fail_with(
                            ErrorKind::StorageFailure,
                            "Token error,",
                            detail.as_str(),
                        ),
                    }
                }
            },
            Reply::NotFound(detail) => Step::fail_with(
                ErrorKind::NotFound,
                "Token Not Found,",
                detail.as_str(),
            ),
            _ => Step::unexpected_reply(ErrorKind::StorageFailure),
        },
        ActivateState::AwaitingPatch => match reply {
            Reply::Stored => Step::Finished(Ok(())),
            Reply::StoreError(detail) => Step::fail_with(
                ErrorKind::StorageFailure,
                "user retrieval Error,",
                detail.as_str(),
            ),
            _ => Step::unexpected_reply(ErrorKind::StorageFailure),
        },
    }
}

} // verus!
