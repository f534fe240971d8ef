use delegatify::flow::{
    advance, failure_message, initial_state, is_finished, FlowAction, FlowEvent, FlowState,
    WINDOW_SECS,
};
use delegatify::store::TokenStore;

fn code_of(len: usize) -> String {
    "c".repeat(len)
}

#[test]
fn the_window_is_120_seconds() {
    assert_eq!(WINDOW_SECS, 120);
}

#[test]
fn the_handshake_starts_by_awaiting_the_trigger() {
    assert_eq!(initial_state(), FlowState::AwaitingTrigger);
    assert!(!is_finished(initial_state()));
    assert!(is_finished(FlowState::Finished));
    assert!(!is_finished(FlowState::AwaitingFormInput));
    assert!(!is_finished(FlowState::Exchanging));
}

#[test]
fn nobody_triggers_and_the_flow_ends_silently() {
    let mut store: TokenStore<u32> = TokenStore::new();
    let (state, action) = advance(initial_state(), FlowEvent::WindowElapsed, &mut store);
    assert_eq!(state, FlowState::Finished);
    assert_eq!(action, FlowAction::Stop);
    assert!(store.read().is_none());
}

#[test]
fn an_elapsed_window_leaves_an_existing_session_alone() {
    let mut store: TokenStore<u32> = TokenStore::new();
    store.replace(11);
    let (state, action) = advance(FlowState::AwaitingTrigger, FlowEvent::WindowElapsed, &mut store);
    assert_eq!(state, FlowState::Finished);
    assert_eq!(action, FlowAction::Stop);
    assert_eq!(store.read(), Some(&11));
}

#[test]
fn a_70_character_code_is_exchanged_and_the_session_installed() {
    let mut store: TokenStore<u32> = TokenStore::new();
    let (state, action) = advance(initial_state(), FlowEvent::Triggered, &mut store);
    assert_eq!(state, FlowState::AwaitingFormInput);
    assert_eq!(action, FlowAction::OpenForm);

    let (state, action) = advance(state, FlowEvent::Submitted(code_of(70)), &mut store);
    assert_eq!(state, FlowState::Exchanging);
    assert_eq!(action, FlowAction::Exchange(code_of(70)));
    assert!(store.read().is_none());

    let (state, action) = advance(state, FlowEvent::ExchangeSucceeded(42), &mut store);
    assert_eq!(state, FlowState::AwaitingTrigger);
    assert_eq!(action, FlowAction::Reply("Successfully Authenticated!".to_string()));
    assert_eq!(store.read(), Some(&42));
}

#[test]
fn a_second_handshake_round_overwrites_the_session() {
    let mut store: TokenStore<u32> = TokenStore::new();
    store.replace(1);
    let (state, _) = advance(FlowState::AwaitingTrigger, FlowEvent::Triggered, &mut store);
    let (state, _) = advance(state, FlowEvent::Submitted(code_of(64)), &mut store);
    let (state, _) = advance(state, FlowEvent::ExchangeSucceeded(2), &mut store);
    assert_eq!(state, FlowState::AwaitingTrigger);
    assert_eq!(store.read(), Some(&2));
}

#[test]
fn a_closed_form_is_reported_and_the_flow_goes_on() {
    let mut store: TokenStore<u32> = TokenStore::new();
    let (state, action) = advance(FlowState::AwaitingFormInput, FlowEvent::Dismissed, &mut store);
    assert_eq!(state, FlowState::AwaitingTrigger);
    assert_eq!(action, FlowAction::Reply("No Input provided".to_string()));
    assert!(store.read().is_none());
}

#[test]
fn a_rejected_code_is_reported_and_the_flow_goes_on() {
    let mut store: TokenStore<u32> = TokenStore::new();
    store.replace(3);
    let (state, action) = advance(
        FlowState::Exchanging,
        FlowEvent::ExchangeFailed("invalid_grant".to_string()),
        &mut store,
    );
    assert_eq!(state, FlowState::AwaitingTrigger);
    assert_eq!(
        action,
        FlowAction::Reply("Failed to Authenticate:\ninvalid_grant".to_string())
    );
    assert_eq!(store.read(), Some(&3));
}

#[test]
fn the_failure_message_puts_the_reason_on_its_own_line() {
    assert_eq!(failure_message("boom"), "Failed to Authenticate:\nboom");
    assert_eq!(failure_message(""), "Failed to Authenticate:\n");
}

#[test]
fn a_code_of_63_characters_is_never_exchanged() {
    let mut store: TokenStore<u32> = TokenStore::new();
    let (state, action) =
        advance(FlowState::AwaitingFormInput, FlowEvent::Submitted(code_of(63)), &mut store);
    assert_eq!(state, FlowState::AwaitingTrigger);
    assert_eq!(action, FlowAction::Refuse);
    assert!(store.read().is_none());
}

#[test]
fn a_code_of_513_characters_is_never_exchanged() {
    let mut store: TokenStore<u32> = TokenStore::new();
    let (state, action) =
        advance(FlowState::AwaitingFormInput, FlowEvent::Submitted(code_of(513)), &mut store);
    assert_eq!(state, FlowState::AwaitingTrigger);
    assert_eq!(action, FlowAction::Refuse);
}

#[test]
fn codes_at_both_bounds_are_exchanged() {
    let mut store: TokenStore<u32> = TokenStore::new();
    let (state, action) =
        advance(FlowState::AwaitingFormInput, FlowEvent::Submitted(code_of(64)), &mut store);
    assert_eq!(state, FlowState::Exchanging);
    assert_eq!(action, FlowAction::Exchange(code_of(64)));
    let (state, action) =
        advance(FlowState::AwaitingFormInput, FlowEvent::Submitted(code_of(512)), &mut store);
    assert_eq!(state, FlowState::Exchanging);
    assert_eq!(action, FlowAction::Exchange(code_of(512)));
}

#[test]
fn events_that_a_state_does_not_wait_for_are_ignored() {
    let mut store: TokenStore<u32> = TokenStore::new();
    let (state, action) =
        advance(FlowState::AwaitingTrigger, FlowEvent::Submitted(code_of(70)), &mut store);
    assert_eq!(state, FlowState::AwaitingTrigger);
    assert_eq!(action, FlowAction::Ignore);

    let (state, action) =
        advance(FlowState::AwaitingTrigger, FlowEvent::ExchangeSucceeded(9), &mut store);
    assert_eq!(state, FlowState::AwaitingTrigger);
    assert_eq!(action, FlowAction::Ignore);
    assert!(store.read().is_none());

    let (state, action) = advance(FlowState::AwaitingFormInput, FlowEvent::Triggered, &mut store);
    assert_eq!(state, FlowState::AwaitingFormInput);
    assert_eq!(action, FlowAction::Ignore);

    let (state, action) = advance(FlowState::Exchanging, FlowEvent::WindowElapsed, &mut store);
    assert_eq!(state, FlowState::Exchanging);
    assert_eq!(action, FlowAction::Ignore);
}

#[test]
fn a_finished_flow_stays_finished() {
    let mut store: TokenStore<u32> = TokenStore::new();
    let (state, action) = advance(FlowState::Finished, FlowEvent::Triggered, &mut store);
    assert_eq!(state, FlowState::Finished);
    assert_eq!(action, FlowAction::Ignore);
    let (state, action) = advance(FlowState::Finished, FlowEvent::ExchangeSucceeded(1), &mut store);
    assert_eq!(state, FlowState::Finished);
    assert_eq!(action, FlowAction::Ignore);
    assert!(store.read().is_none());
}

#[test]
fn dismissal_then_a_good_code_still_authenticates() {
    let mut store: TokenStore<String> = TokenStore::new();
    let (state, _) = advance(initial_state(), FlowEvent::Triggered, &mut store);
    let (state, _) = advance(state, FlowEvent::Dismissed, &mut store);
    assert_eq!(state, FlowState::AwaitingTrigger);
    let (state, _) = advance(state, FlowEvent::Triggered, &mut store);
    let (state, _) = advance(state, FlowEvent::Submitted(code_of(100)), &mut store);
    let (state, _) = advance(state, FlowEvent::ExchangeFailed("no".to_string()), &mut store);
    assert_eq!(state, FlowState::AwaitingTrigger);
    assert!(store.read().is_none());
    let (state, _) = advance(state, FlowEvent::Triggered, &mut store);
    let (state, _) = advance(state, FlowEvent::Submitted(code_of(100)), &mut store);
    let (state, action) =
        advance(state, FlowEvent::ExchangeSucceeded("client".to_string()), &mut store);
    assert_eq!(state, FlowState::AwaitingTrigger);
    assert_eq!(action, FlowAction::Reply("Successfully Authenticated!".to_string()));
    assert_eq!(store.read(), Some(&"client".to_string()));
    let (state, action) = advance(state, FlowEvent::WindowElapsed, &mut store);
    assert_eq!(state, FlowState::Finished);
    assert_eq!(action, FlowAction::Stop);
    assert_eq!(store.read(), Some(&"client".to_string()));
}
