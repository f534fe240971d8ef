//! Opening the handshake: the authorization address and the prompt around it.

use crate::card::{Accent, CardField, CardFieldView};
use crate::flow::WINDOW_SECS;
use vstd::prelude::*;
use vstd::string::*;

verus! {

/// The streaming client of the `rspotify` crate for the authorization-code
/// flow with a proof key. Nothing inside it is visible here.
#[verifier::external_type_specification]
#[verifier::external_body]
pub struct ExAuthCodePkceSpotify(rspotify::AuthCodePkceSpotify);

/// The error type of the `rspotify` client. Nothing inside it is visible here.
#[verifier::external_type_specification]
#[verifier::external_body]
pub struct ExClientError(rspotify::ClientError);

/// Calls `AuthCodePkceSpotify::get_authorize_url` with no verifier length, so
/// that the client takes its default of 43 characters.
///
/// The client draws a fresh random verifier on every call, keeps it for the
/// later exchange, and puts the matching challenge into the address. So the
/// address differs from call to call and nothing is claimed about it, nor
/// about whether the call succeeds.
#[verifier::external_body]
pub(crate) fn authorize_url(client: &mut rspotify::AuthCodePkceSpotify) -> (url: Result<
    String,
    rspotify::ClientError,
>) {
    client.get_authorize_url(None)
}

/// Why a handshake could not be opened.
#[derive(Clone, Copy, PartialEq, Eq, Debug, Structural)]
pub enum AuthError {
    /// The application's credentials are missing or invalid, so that no
    /// authorization address could be made.
    Config,
}

/// One request for authorization: the address to visit and the time that each
/// wait for the trigger may take.
#[derive(Clone, Debug, PartialEq, Eq)]
pub struct AuthorizationRequest {
    /// The address at which the user authorizes the application.
    pub url: String,
    /// How long one wait for the trigger lasts, in seconds.
    pub window_secs: u64,
}

/// The prompt that opens the handshake: an explanation, a link to the
/// authorization address, and the action that opens the code-entry form.
#[derive(Clone, Debug, PartialEq, Eq)]
pub struct Prompt {
    /// The heading.
    pub title: String,
    /// The sentence under the heading.
    pub description: String,
    /// One field of explanation for each of the two actions.
    pub fields: Vec<CardField>,
    /// The colour of the prompt.
    pub accent: Accent,
    /// When the prompt was made, in seconds since the Unix epoch.
    pub timestamp: u64,
    /// The caption of the link action.
    pub link_label: String,
    /// The address behind the link action.
    pub link_url: String,
    /// The identity by which activations of the trigger action are recognized.
    pub trigger_id: String,
    /// The caption of the trigger action.
    pub trigger_label: String,
    /// Whether only the invoking user sees the prompt.
    pub ephemeral: bool,
}

/// A [`Prompt`] as a mathematical value.
pub struct PromptView {
    pub title: Seq<char>,
    pub description: Seq<char>,
    pub fields: Seq<CardFieldView>,
    pub accent: Accent,
    pub timestamp: u64,
    pub link_label: Seq<char>,
    pub link_url: Seq<char>,
    pub trigger_id: Seq<char>,
    pub trigger_label: Seq<char>,
    pub ephemeral: bool,
}

impl View for Prompt {
    type V = PromptView;

    open spec fn view(&self) -> PromptView {
        PromptView {
            title: self.title@,
            description: self.description@,
            fields: self.fields.deep_view(),
            accent: self.accent,
            timestamp: self.timestamp,
            link_label: self.link_label@,
            link_url: self.link_url@,
            trigger_id: self.trigger_id@,
            trigger_label: self.trigger_label@,
            ephemeral: self.ephemeral,
        }
    }
}

/// The identity of the trigger action.
pub open spec fn trigger_id() -> Seq<char> {
    "open_modal"@
}

/// The two fields of the prompt, in order.
pub open spec fn prompt_fields() -> Seq<CardFieldView> {
    seq![
        CardFieldView {
            name: "Open URL Button"@,
            value: "This button opens a link to recieve an authentication code. When you recieve the code, click on the Authenticate button."@,
            inline: false,
        },
        CardFieldView {
            name: "Authenticate Button"@,
            value: "This is the button you click when you have the code. It will ask you to input the code, and then you are good to go."@,
            inline: false,
        },
    ]
}

/// The prompt for the authorization address `url`, made at `rendered_at`.
pub open spec fn prompt_for(url: Seq<char>, rendered_at: u64) -> PromptView {
    PromptView {
        title: "Authenticating Delegatify"@,
        description: "In order for the application to work, a spotify account must be connected"@,
        fields: prompt_fields(),
        accent: Accent::Blue,
        timestamp: rendered_at,
        link_label: "Open URL"@,
        link_url: url,
        trigger_id: trigger_id(),
        trigger_label: "Authenticate"@,
        ephemeral: true,
    }
}

/// Opens a request from what the client answered when asked for its
/// authorization address.
///
/// An address gives a request for it with a window of [`WINDOW_SECS`]. Any
/// error of the client means that no address could be made from the
/// application's credentials, and gives [`AuthError::Config`].
pub fn open_request(url: Result<String, rspotify::ClientError>) -> (out: Result<
    AuthorizationRequest,
    AuthError,
>)
    ensures
        match url {
            Ok(address) => out matches Ok(request) && request.url@ == address@
                && request.window_secs == WINDOW_SECS,
            Err(_) => out matches Err(e) && e == AuthError::Config,
        },
{
    match url {
        Ok(address) => Ok(AuthorizationRequest { url: address, window_secs: WINDOW_SECS }),
        Err(_) => Err(AuthError::Config),
    }
}

impl AuthorizationRequest {
    /// Makes the prompt that is shown to the invoking user, and to nobody else.
    pub fn prompt(&self, rendered_at: u64) -> (prompt: Prompt)
        ensures
            prompt@ == prompt_for(self.url@, rendered_at),
    {
        let mut fields: Vec<CardField> = Vec::new();
        fields.push(
            CardField {
                name: String::from_str("Open URL Button"),
                value: String::from_str(
                    "This button opens a link to recieve an authentication code. When you recieve the code, click on the Authenticate button.",
                ),
                inline: false,
            },
        );
        fields.push(
            CardField {
                name: String::from_str("Authenticate Button"),
                value: String::from_str(
                    "This is the button you click when you have the code. It will ask you to input the code, and then you are good to go.",
                ),
                inline: false,
            },
        );
        proof {
            assert(fields.deep_view() =~= prompt_fields());
        }
        Prompt {
            title: String::from_str("Authenticating Delegatify"),
            description: String::from_str(
                "In order for the application to work, a spotify account must be connected",
            ),
            fields,
            accent: Accent::Blue,
            timestamp: rendered_at,
            link_label: String::from_str("Open URL"),
            link_url: self.url.clone(),
            trigger_id: String::from_str("open_modal"),
            trigger_label: String::from_str("Authenticate"),
            ephemeral: true,
        }
    }
}

/// Whether an activation with the identity `custom_id` is one of the trigger
/// action of the prompt. Activations of anything else are not events of the
/// handshake.
pub fn is_trigger(custom_id: &str) -> (hit: bool)
    ensures
        hit == (custom_id@ == trigger_id()),
{
    let given = String::from_str(custom_id);
    let wanted = String::from_str("open_modal");
    given == wanted
}

} // verus!
