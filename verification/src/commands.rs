//! The two commands of the bot, as far as they decide anything.
//!
//! `authenticate` opens the handshake; its waiting loop is driven step by step
//! through [`crate::flow::advance`]. `current` turns the provider's answer to
//! a playback query into what the user is shown.

use crate::card::{
    outcome_of, outcome_view, render, rendered, unauthenticated_text, Card, CardView, OutcomeView,
    PlaybackOutcome,
};
use crate::flow::WINDOW_SECS;
use crate::playback::{fetch, fetched, QueryError, RawPlayback};
use crate::request::{authorize_url, open_request, AuthError, AuthorizationRequest};
use crate::store::TokenStore;
use vstd::prelude::*;

verus! {

/// Opens the handshake for `client`.
///
/// The client is asked once for its authorization address. If it gives one,
/// the result is the request to put before the user, with a window of
/// [`WINDOW_SECS`] for each wait; the handshake then starts in
/// [`crate::flow::initial_state`]. If it gives none, the result is
/// [`AuthError::Config`] and no handshake takes place.
///
/// Which of the two happens, and what the address is, lies with the client:
/// it draws a fresh random verifier on every call and remembers it for the
/// exchange that follows.
pub fn authenticate(client: &mut rspotify::AuthCodePkceSpotify) -> (out: Result<
    AuthorizationRequest,
    AuthError,
>)
    ensures
        match out {
            Ok(request) => request.window_secs == WINDOW_SECS,
            Err(e) => e == AuthError::Config,
        },
{
    open_request(authorize_url(client))
}

/// Decides whether a command that needs a session may go on.
///
/// With a session in `store` the result is its handle, to ask the provider
/// with. Without one the result is the notice of [`error_unauthorized`], and
/// the provider is not asked at all.
pub fn require_session<H>(store: &TokenStore<H>) -> (out: Result<&H, Card>)
    ensures
        match store@ {
            Some(handle) => out matches Ok(found) && *found == handle,
            None => out matches Err(card) && card@ == CardView::Text(unauthenticated_text()),
        },
{
    match store.read() {
        Some(handle) => Ok(handle),
        None => Err(error_unauthorized()),
    }
}

/// Answers the playback command for a user whose session exists, from what
/// the provider said.
///
/// A failure of the query is passed on once, with its reason. Otherwise the
/// result is what [`render`] makes of the answer at `rendered_at`: the
/// now-playing card where something is playing, and the plain notice where
/// nothing is.
pub fn current(answer: Result<Option<RawPlayback>, String>, rendered_at: u64) -> (out: Result<
    Card,
    QueryError,
>)
    ensures
        match answer {
            Ok(report) => out matches Ok(card) && card@ == rendered(
                outcome_view(fetched(report)),
                rendered_at,
            ),
            Err(reason) => out matches Err(e) && e.reason@ == reason@,
        },
{
    match fetch(answer) {
        Ok(found) => Ok(render(outcome_of(found), rendered_at)),
        Err(e) => Err(e),
    }
}

/// Answers any command that needs a session when there is none: the plain
/// notice that tells the user to authenticate first.
pub fn error_unauthorized() -> (card: Card)
    ensures
        card@ == CardView::Text(unauthenticated_text()),
        card@ == rendered(OutcomeView::Unauthenticated, 0),
{
    render(PlaybackOutcome::Unauthenticated, 0)
}

} // verus!
