//! The interactive handshake as a state machine.
//!
//! The program around this crate waits for the user and talks to the provider;
//! each outcome comes here as a [`FlowEvent`]. [`advance`] answers with the
//! state to go on from and the one thing to do next.

use crate::form::{code_accepted, code_fits};
use crate::store::TokenStore;
use vstd::prelude::*;
use vstd::string::*;

verus! {

/// How long, in seconds, one wait for the trigger action lasts.
pub const WINDOW_SECS: u64 = 120;

/// Where the handshake stands.
#[derive(Clone, Copy, PartialEq, Eq, Debug, Structural)]
pub enum FlowState {
    /// The prompt is out; the user has up to [`WINDOW_SECS`] to trigger the form.
    AwaitingTrigger,
    /// The form is open; the user submits a code or closes the form.
    AwaitingFormInput,
    /// A code is with the provider.
    Exchanging,
    /// The handshake is over.
    Finished,
}

/// What happened while the program waited.
#[derive(Clone, Debug, PartialEq, Eq)]
pub enum FlowEvent<H> {
    /// The user activated the trigger action of this prompt.
    Triggered,
    /// The window passed and nobody triggered.
    WindowElapsed,
    /// The form was closed without a submission.
    Dismissed,
    /// The form was submitted with this code.
    Submitted(String),
    /// The provider accepted the code; this is the authenticated handle.
    ExchangeSucceeded(H),
    /// The provider rejected the code, for this reason.
    ExchangeFailed(String),
}

/// A [`FlowEvent`] with its texts as sequences of characters.
pub enum FlowEventView<H> {
    Triggered,
    WindowElapsed,
    Dismissed,
    Submitted(Seq<char>),
    ExchangeSucceeded(H),
    ExchangeFailed(Seq<char>),
}

impl<H> View for FlowEvent<H> {
    type V = FlowEventView<H>;

    open spec fn view(&self) -> FlowEventView<H> {
        match *self {
            FlowEvent::Triggered => FlowEventView::Triggered,
            FlowEvent::WindowElapsed => FlowEventView::WindowElapsed,
            FlowEvent::Dismissed => FlowEventView::Dismissed,
            FlowEvent::Submitted(code) => FlowEventView::Submitted(code@),
            FlowEvent::ExchangeSucceeded(handle) => FlowEventView::ExchangeSucceeded(handle),
            FlowEvent::ExchangeFailed(reason) => FlowEventView::ExchangeFailed(reason@),
        }
    }
}

/// What the program does next.
#[derive(Clone, Debug, PartialEq, Eq)]
pub enum FlowAction {
    /// Open the code-entry form.
    OpenForm,
    /// Hand this code to the provider.
    Exchange(String),
    /// Send this text to the user.
    Reply(String),
    /// The submitted code was refused; nothing is exchanged and nothing is sent.
    Refuse,
    /// End the handshake without sending anything.
    Stop,
    /// The event does not belong to the state; do nothing.
    Ignore,
}

/// A [`FlowAction`] with its texts as sequences of characters.
pub enum FlowActionView {
    OpenForm,
    Exchange(Seq<char>),
    Reply(Seq<char>),
    Refuse,
    Stop,
    Ignore,
}

impl View for FlowAction {
    type V = FlowActionView;

    open spec fn view(&self) -> FlowActionView {
        match *self {
            FlowAction::OpenForm => FlowActionView::OpenForm,
            FlowAction::Exchange(code) => FlowActionView::Exchange(code@),
            FlowAction::Reply(text) => FlowActionView::Reply(text@),
            FlowAction::Refuse => FlowActionView::Refuse,
            FlowAction::Stop => FlowActionView::Stop,
            FlowAction::Ignore => FlowActionView::Ignore,
        }
    }
}

/// What the user reads after closing the form without a submission.
pub open spec fn no_input_text() -> Seq<char> {
    "No Input provided"@
}

/// What the user reads once the provider has accepted the code.
pub open spec fn success_text() -> Seq<char> {
    "Successfully Authenticated!"@
}

/// What the user reads when the provider has rejected the code for `reason`.
pub open spec fn failure_text(reason: Seq<char>) -> Seq<char> {
    "Failed to Authenticate:\n"@ + reason
}

/// Whether `event` is one that `state` waits for.
pub open spec fn expected<H>(state: FlowState, event: FlowEventView<H>) -> bool {
    match state {
        FlowState::AwaitingTrigger => event is Triggered || event is WindowElapsed,
        FlowState::AwaitingFormInput => event is Dismissed || event is Submitted,
        FlowState::Exchanging => event is ExchangeSucceeded || event is ExchangeFailed,
        FlowState::Finished => false,
    }
}

/// The state that follows `state` on `event`.
///
/// A trigger opens the form and an elapsed window ends the handshake. Every
/// outcome of the form and of the exchange leads back to waiting for the next
/// trigger, except a code of a fitting length, which goes to the provider. An
/// event that the state does not wait for leaves the state as it is.
pub open spec fn next_state<H>(state: FlowState, event: FlowEventView<H>) -> FlowState {
    if !expected(state, event) {
        state
    } else {
        match event {
            FlowEventView::Triggered => FlowState::AwaitingFormInput,
            FlowEventView::WindowElapsed => FlowState::Finished,
            FlowEventView::Submitted(code) => if code_fits(code) {
                FlowState::Exchanging
            } else {
                FlowState::AwaitingTrigger
            },
            _ => FlowState::AwaitingTrigger,
        }
    }
}

/// What is to be done when `event` arrives in `state`.
pub open spec fn action_for<H>(state: FlowState, event: FlowEventView<H>) -> FlowActionView {
    if !expected(state, event) {
        FlowActionView::Ignore
    } else {
        match event {
            FlowEventView::Triggered => FlowActionView::OpenForm,
            FlowEventView::WindowElapsed => FlowActionView::Stop,
            FlowEventView::Dismissed => FlowActionView::Reply(no_input_text()),
            FlowEventView::Submitted(code) => if code_fits(code) {
                FlowActionView::Exchange(code)
            } else {
                FlowActionView::Refuse
            },
            FlowEventView::ExchangeSucceeded(_) => FlowActionView::Reply(success_text()),
            FlowEventView::ExchangeFailed(reason) => FlowActionView::Reply(failure_text(reason)),
        }
    }
}

/// The session after `event` arrived in `state`, given the session `before`.
///
/// Only a successful exchange touches the session: it installs the new handle.
pub open spec fn session_after<H>(
    state: FlowState,
    event: FlowEventView<H>,
    before: Option<H>,
) -> Option<H> {
    match event {
        FlowEventView::ExchangeSucceeded(handle) => if state == FlowState::Exchanging {
            TokenStore::<H>::installed(before, handle)
        } else {
            before
        },
        _ => before,
    }
}

/// The state in which every handshake begins.
pub fn initial_state() -> (state: FlowState)
    ensures
        state == FlowState::AwaitingTrigger,
{
    FlowState::AwaitingTrigger
}

/// Whether the handshake is over, so that the program stops waiting.
pub fn is_finished(state: FlowState) -> (done: bool)
    ensures
        done == (state == FlowState::Finished),
{
    match state {
        FlowState::Finished => true,
        _ => false,
    }
}

/// The text that reports a rejected code together with the provider's reason.
pub fn failure_message(reason: &str) -> (text: String)
    ensures
        text@ == failure_text(reason@),
{
    let mut text = String::from_str("Failed to Authenticate:\n");
    text.append(reason);
    text
}

/// Takes one step of the handshake.
///
/// Returns the state to go on from and the action to perform, and installs the
/// new handle in `store` when the event is a successful exchange that the state
/// was waiting for. In every other case `store` is left as it was.
pub fn advance<H>(state: FlowState, event: FlowEvent<H>, store: &mut TokenStore<H>) -> (out: (
    FlowState,
    FlowAction,
))
    ensures
        out.0 == next_state(state, event@),
        out.1@ == action_for(state, event@),
        final(store)@ == session_after(state, event@, old(store)@),
{
    match state {
        FlowState::AwaitingTrigger => match event {
            FlowEvent::Triggered => (FlowState::AwaitingFormInput, FlowAction::OpenForm),
            FlowEvent::WindowElapsed => (FlowState::Finished, FlowAction::Stop),
            _ => (state, FlowAction::Ignore),
        },
        FlowState::AwaitingFormInput => match event {
            FlowEvent::Dismissed => (
                FlowState::AwaitingTrigger,
                FlowAction::Reply(String::from_str("No Input provided")),
            ),
            FlowEvent::Submitted(code) => {
                if code_accepted(code.as_str()) {
                    (FlowState::Exchanging, FlowAction::Exchange(code))
                } else {
                    (FlowState::AwaitingTrigger, FlowAction::Refuse)
                }
            },
            _ => (state, FlowAction::Ignore),
        },
        FlowState::Exchanging => match event {
            FlowEvent::ExchangeSucceeded(handle) => {
                store.replace(handle);
                (
                    FlowState::AwaitingTrigger,
                    FlowAction::Reply(String::from_str("Successfully Authenticated!")),
                )
            },
            FlowEvent::ExchangeFailed(reason) => (
                FlowState::AwaitingTrigger,
                FlowAction::Reply(failure_message(reason.as_str())),
            ),
            _ => (state, FlowAction::Ignore),
        },
        FlowState::Finished => (state, FlowAction::Ignore),
    }
}

/// A submitted code of fewer than 64 or of more than 512 characters never
/// reaches the provider: whatever the state, the step asks for no exchange and
/// does not enter the exchange.
pub proof fn lemma_unfit_code_is_never_exchanged<H>(state: FlowState, code: Seq<char>)
    requires
        code.len() < 64 || code.len() > 512,
    ensures
        !code_fits(code),
        !(action_for(state, FlowEventView::<H>::Submitted(code)) is Exchange),
        state != FlowState::Exchanging ==> next_state(state, FlowEventView::<H>::Submitted(code))
            != FlowState::Exchanging,
        action_for(FlowState::AwaitingFormInput, FlowEventView::<H>::Submitted(code))
            == FlowActionView::Refuse,
{
}

/// Whenever a step asks for an exchange, the form was open, the event was a
/// submission, and the code to exchange is the submitted one, of a fitting
/// length. Nothing else makes the handshake enter the exchange.
pub proof fn lemma_exchange_needs_fitting_submission<H>(state: FlowState, event: FlowEventView<H>)
    ensures
        action_for(state, event) is Exchange ==> state == FlowState::AwaitingFormInput && event
            == FlowEventView::<H>::Submitted(action_for(state, event)->Exchange_0) && code_fits(
            action_for(state, event)->Exchange_0,
        ),
        next_state(state, event) == FlowState::Exchanging && state != FlowState::Exchanging
            ==> action_for(state, event) is Exchange,
{
}

/// When the window passes without a trigger, the handshake ends, nothing is
/// sent to the user, and the session stays as it was.
pub proof fn lemma_elapsed_window_ends_silently<H>(before: Option<H>)
    ensures
        next_state(FlowState::AwaitingTrigger, FlowEventView::<H>::WindowElapsed)
            == FlowState::Finished,
        action_for(FlowState::AwaitingTrigger, FlowEventView::<H>::WindowElapsed)
            == FlowActionView::Stop,
        session_after(FlowState::AwaitingTrigger, FlowEventView::<H>::WindowElapsed, before)
            == before,
{
}

/// Only an elapsed window ends the handshake: a closed form, a refused code
/// and a failed or successful exchange all lead back to waiting.
pub proof fn lemma_only_elapsed_window_finishes<H>(state: FlowState, event: FlowEventView<H>)
    requires
        state != FlowState::Finished,
    ensures
        next_state(state, event) == FlowState::Finished <==> state == FlowState::AwaitingTrigger
            && event is WindowElapsed,
        action_for(state, event) is Stop <==> state == FlowState::AwaitingTrigger
            && event is WindowElapsed,
{
}

/// A finished handshake stays finished and asks for nothing more.
pub proof fn lemma_finished_is_final<H>(event: FlowEventView<H>, before: Option<H>)
    ensures
        next_state(FlowState::Finished, event) == FlowState::Finished,
        action_for(FlowState::Finished, event) == FlowActionView::Ignore,
        session_after(FlowState::Finished, event, before) == before,
{
}

/// The session changes on a successful exchange and on nothing else, and then
/// it holds the new handle.
pub proof fn lemma_session_follows_exchange<H>(
    state: FlowState,
    event: FlowEventView<H>,
    before: Option<H>,
)
    ensures
        state == FlowState::Exchanging && event is ExchangeSucceeded ==> session_after(
            state,
            event,
            before,
        ) == Some(event->ExchangeSucceeded_0),
        !(state == FlowState::Exchanging && event is ExchangeSucceeded) ==> session_after(
            state,
            event,
            before,
        ) == before,
{
}

/// A full round: the user triggers, submits a code of a fitting length, and
/// the provider accepts it. The handshake opens the form, hands exactly that
/// code to the provider, installs the new handle, confirms to the user, and
/// waits for the next trigger.
pub proof fn lemma_accepted_code_installs_session<H>(
    code: Seq<char>,
    handle: H,
    before: Option<H>,
)
    requires
        code_fits(code),
    ensures
        ({
            let s0 = FlowState::AwaitingTrigger;
            let e1 = FlowEventView::<H>::Triggered;
            let e2 = FlowEventView::<H>::Submitted(code);
            let e3 = FlowEventView::<H>::ExchangeSucceeded(handle);
            let s1 = next_state(s0, e1);
            let s2 = next_state(s1, e2);
            let s3 = next_state(s2, e3);
            let m1 = session_after(s0, e1, before);
            let m2 = session_after(s1, e2, m1);
            let m3 = session_after(s2, e3, m2);
            &&& action_for(s0, e1) == FlowActionView::OpenForm
            &&& action_for(s1, e2) == FlowActionView::Exchange(code)
            &&& action_for(s2, e3) == FlowActionView::Reply(success_text())
            &&& s3 == FlowState::AwaitingTrigger
            &&& m2 == before
            &&& m3 == Some(handle)
        }),
{
}

/// A closed form and a rejected code are reported and leave both the
/// handshake and the session alive: the next trigger is awaited.
pub proof fn lemma_user_errors_are_absorbed<H>(reason: Seq<char>, before: Option<H>)
    ensures
        next_state(FlowState::AwaitingFormInput, FlowEventView::<H>::Dismissed)
            == FlowState::AwaitingTrigger,
        action_for(FlowState::AwaitingFormInput, FlowEventView::<H>::Dismissed)
            == FlowActionView::Reply(no_input_text()),
        session_after(FlowState::AwaitingFormInput, FlowEventView::<H>::Dismissed, before)
            == before,
        next_state(FlowState::Exchanging, FlowEventView::<H>::ExchangeFailed(reason))
            == FlowState::AwaitingTrigger,
        action_for(FlowState::Exchanging, FlowEventView::<H>::ExchangeFailed(reason))
            == FlowActionView::Reply(failure_text(reason)),
        session_after(FlowState::Exchanging, FlowEventView::<H>::ExchangeFailed(reason), before)
            == before,
{
}

/// Each trigger admits exactly one submission: once a code has been
/// submitted the form is no longer awaited, and a further submission is
/// ignored until the user triggers again.
pub proof fn lemma_one_submission_per_trigger<H>(
    first: Seq<char>,
    second: Seq<char>,
    before: Option<H>,
)
    ensures
        ({
            let s1 = next_state(FlowState::AwaitingFormInput, FlowEventView::<H>::Submitted(first));
            &&& s1 != FlowState::AwaitingFormInput
            &&& action_for(s1, FlowEventView::<H>::Submitted(second)) == FlowActionView::Ignore
            &&& next_state(s1, FlowEventView::<H>::Submitted(second)) == s1
            &&& session_after(s1, FlowEventView::<H>::Submitted(second), before) == before
        }),
{
}

} // verus!
