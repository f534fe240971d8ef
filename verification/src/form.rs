//! The code-entry form and the codes it lets through.

use vstd::prelude::*;
use vstd::string::*;

verus! {

/// The fewest characters an authorization code may have.
pub const MIN_CODE_LEN: usize = 64;

/// The most characters an authorization code may have.
pub const MAX_CODE_LEN: usize = 512;

/// Whether a code has a length that the form lets through: at least
/// [`MIN_CODE_LEN`] and at most [`MAX_CODE_LEN`] characters.
pub open spec fn code_fits(code: Seq<char>) -> bool {
    MIN_CODE_LEN <= code.len() <= MAX_CODE_LEN
}

/// Decides whether `code` may go on to the exchange.
///
/// The length is counted in characters, not in bytes.
pub fn code_accepted(code: &str) -> (ok: bool)
    ensures
        ok == code_fits(code@),
{
    let n: usize = code.unicode_len();
    MIN_CODE_LEN <= n && n <= MAX_CODE_LEN
}

/// What the code-entry form shows and which lengths its one text field takes.
#[derive(Clone, Debug, PartialEq, Eq)]
pub struct CodeForm {
    /// The heading of the form.
    pub title: String,
    /// The caption of the text field.
    pub label: String,
    /// The fewest characters the field takes.
    pub min_len: usize,
    /// The most characters the field takes.
    pub max_len: usize,
}

/// The heading of the code-entry form.
pub open spec fn form_title() -> Seq<char> {
    "Spotify Authentication"@
}

/// The caption of the form's text field.
pub open spec fn form_label() -> Seq<char> {
    "Paste the code that you recieved here"@
}

/// The form that asks for the authorization code.
pub fn code_form() -> (form: CodeForm)
    ensures
        form.title@ == form_title(),
        form.label@ == form_label(),
        form.min_len == MIN_CODE_LEN,
        form.max_len == MAX_CODE_LEN,
{
    CodeForm {
        title: String::from_str("Spotify Authentication"),
        label: String::from_str("Paste the code that you recieved here"),
        min_len: MIN_CODE_LEN,
        max_len: MAX_CODE_LEN,
    }
}

/// A code fits exactly when it has between 64 and 512 characters, both
/// included: a shorter one and a longer one are refused.
pub proof fn lemma_code_bounds(code: Seq<char>)
    ensures
        code_fits(code) <==> 64 <= code.len() <= 512,
        code.len() < 64 || code.len() > 512 <==> !code_fits(code),
{
}

} // verus!
