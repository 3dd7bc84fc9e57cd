use auth_core::activate::{activate_begin, activate_user_handler, ActivateState};
use auth_core::effect::{Effect, Reply, Step, TokenRow};
use auth_core::error::{ErrorKind, Failure};
use auth_core::timestamp::Timestamp;
use auth_core::token::{TokenKind, TokenRecord};
use auth_core::user::UserPatch;

fn failure(kind: ErrorKind, message: &str) -> Step<ActivateState, ()> {
    Step::Finished(Err(Failure { kind, message: String::from(message) }))
}

fn record(subject_id: i64, token_string: &str, expiry_secs: i64) -> TokenRecord {
    TokenRecord {
        subject_id,
        token_string: String::from(token_string),
        kind: TokenKind::ActivationToken,
        expiry: Timestamp::new(expiry_secs, 0).unwrap(),
    }
}

#[test]
fn activation_begins_by_looking_the_token_up() {
    assert_eq!(
        activate_begin(String::from("tok")),
        Step::Continue {
            state: ActivateState::AwaitingToken,
            effect: Effect::FindTokens { token_string: String::from("tok") },
        }
    );
}

#[test]
fn activation_confirms_the_subject_of_the_token() {
    let rows = vec![TokenRow::Decoded(record(41, "tok", 1_700_007_200))];
    assert_eq!(
        activate_user_handler(ActivateState::AwaitingToken, Reply::TokensFound(rows)),
        Step::Continue {
            state: ActivateState::AwaitingPatch,
            effect: Effect::PatchUser { user_id: 41, patch: UserPatch { confirmed: Some(true) } },
        }
    );
}

#[test]
fn activation_reads_only_the_first_row() {
    let rows = vec![
        TokenRow::Decoded(record(41, "tok", 1_700_007_200)),
        TokenRow::Malformed(String::from("broken")),
        TokenRow::Decoded(record(42, "tok", 1_700_007_200)),
    ];
    assert_eq!(
        activate_user_handler(ActivateState::AwaitingToken, Reply::TokensFound(rows)),
        Step::Continue {
            state: ActivateState::AwaitingPatch,
            effect: Effect::PatchUser { user_id: 41, patch: UserPatch::confirm() },
        }
    );
    let broken_first = vec![
        TokenRow::Malformed(String::from("broken")),
        TokenRow::Decoded(record(42, "tok", 1_700_007_200)),
    ];
    assert_eq!(
        activate_user_handler(ActivateState::AwaitingToken, Reply::TokensFound(broken_first)),
        failure(ErrorKind::StorageFailure, "Token error,broken")
    );
}

#[test]
fn activation_does_not_consult_the_expiry() {
    let rows = vec![TokenRow::Decoded(record(41, "tok", 0))];
    assert_eq!(
        activate_user_handler(ActivateState::AwaitingToken, Reply::TokensFound(rows)),
        Step::Continue {
            state: ActivateState::AwaitingPatch,
            effect: Effect::PatchUser { user_id: 41, patch: UserPatch::confirm() },
        }
    );
}

#[test]
fn activation_with_no_matching_row_is_not_found() {
    assert_eq!(
        activate_user_handler(ActivateState::AwaitingToken, Reply::TokensFound(vec![])),
        failure(ErrorKind::NotFound, "Token Not Found")
    );
}

#[test]
fn activation_with_a_failed_lookup_is_not_found() {
    assert_eq!(
        activate_user_handler(ActivateState::AwaitingToken, Reply::NotFound(String::from("no rows"))),
        failure(ErrorKind::NotFound, "Token Not Found,no rows")
    );
}

#[test]
fn activation_succeeds_once_the_user_is_patched() {
    assert_eq!(
        activate_user_handler(ActivateState::AwaitingPatch, Reply::Stored),
        Step::Finished(Ok(()))
    );
}

#[test]
fn activation_reports_a_failed_patch() {
    assert_eq!(
        activate_user_handler(ActivateState::AwaitingPatch, Reply::StoreError(String::from("gone"))),
        failure(ErrorKind::StorageFailure, "user retrieval Error,gone")
    );
}

#[test]
fn activation_fails_on_a_reply_that_answers_another_effect() {
    assert_eq!(
        activate_user_handler(ActivateState::AwaitingToken, Reply::Stored),
        failure(ErrorKind::StorageFailure, "unexpected reply")
    );
    assert_eq!(
        activate_user_handler(ActivateState::AwaitingPatch, Reply::TokensFound(vec![])),
        failure(ErrorKind::StorageFailure, "unexpected reply")
    );
    assert_eq!(
        activate_user_handler(ActivateState::AwaitingPatch, Reply::NotFound(String::from("x"))),
        failure(ErrorKind::StorageFailure, "unexpected reply")
    );
}
