//! The error kinds a run can end with, and their user-facing messages.

use vstd::prelude::*;
use vstd::string::StringExecFns;

verus! {

/// Every way a run can fail. All of these abort the run; the caller prints
/// the message and exits with a non-zero status.
#[derive(Debug)]
pub enum RunError {
    /// A required prompt (username, token, repository name) was left empty.
    /// Carries the name of the missing field.
    MissingInput(String),
    /// The multi-select produced zero entries.
    NoSelection,
    /// The API answered with a non-success HTTP status.
    /// Carries the response body text.
    ApiError(String),
    /// A listing page could not be deserialized.
    MalformedResponse,
    /// The network layer failed outright.
    TransportError,
    /// The interactive input device could not be read.
    PromptError,
    /// A repository URL handed to the presentation helper is not a valid URL.
    InvalidUrl,
}

/// The mathematical shape of a [`RunError`]: the same variants, with the
/// carried strings abstracted to character sequences.
pub enum RunErrorView {
    MissingInput(Seq<char>),
    NoSelection,
    ApiError(Seq<char>),
    MalformedResponse,
    TransportError,
    PromptError,
    InvalidUrl,
}

impl View for RunError {
    type V = RunErrorView;

    open spec fn view(&self) -> RunErrorView {
        match self {
            RunError::MissingInput(field) => RunErrorView::MissingInput(field@),
            RunError::NoSelection => RunErrorView::NoSelection,
            RunError::ApiError(body) => RunErrorView::ApiError(body@),
            RunError::MalformedResponse => RunErrorView::MalformedResponse,
            RunError::TransportError => RunErrorView::TransportError,
            RunError::PromptError => RunErrorView::PromptError,
            RunError::InvalidUrl => RunErrorView::InvalidUrl,
        }
    }
}

/// The fixed marker prefixed to every success message.
pub open spec fn success_marker_text() -> Seq<char> {
    "\u{2705}"@
}

/// The fixed marker prefixed to every failure message.
pub open spec fn error_marker_text() -> Seq<char> {
    "\u{274c}"@
}

/// The marker prefixed to every success message.
pub fn success_marker() -> (r: &'static str)
    ensures
        r@ == success_marker_text(),
{
    "\u{2705}"
}

/// The marker prefixed to every failure message.
pub fn error_marker() -> (r: &'static str)
    ensures
        r@ == error_marker_text(),
{
    "\u{274c}"
}

/// The full user-facing message of each error kind: the failure marker,
/// a space, and a text describing the failure.
pub open spec fn message_text(e: RunErrorView) -> Seq<char> {
    error_marker_text() + " "@ + match e {
        RunErrorView::MissingInput(field) => "`"@ + field + "` is required"@,
        RunErrorView::NoSelection => "No repositories were selected. Hint! Use <space> to select, then <Enter> to confirm.\nExiting"@,
        RunErrorView::ApiError(body) => "API request failed: "@ + body,
        RunErrorView::MalformedResponse => "Malformed response from the API"@,
        RunErrorView::TransportError => "Network error while talking to the API"@,
        RunErrorView::PromptError => "Failed to read input"@,
        RunErrorView::InvalidUrl => "Invalid repository URL"@,
    }
}

impl RunError {
    /// Renders the error as the exact message the tool prints before exiting.
    pub fn message(&self) -> (r: String)
        ensures
            r@ == message_text(self@),
    {
        let mut out = String::new();
        out.append(error_marker());
        out.append(" ");
        match self {
            RunError::MissingInput(field) => {
                out.append("`");
                out.append(field.as_str());
                out.append("` is required");
            },
            RunError::NoSelection => {
                out.append("No repositories were selected. Hint! Use <space> to select, then <Enter> to confirm.\nExiting");
            },
            RunError::ApiError(body) => {
                out.append("API request failed: ");
                out.append(body.as_str());
            },
            RunError::MalformedResponse => {
                out.append("Malformed response from the API");
            },
            RunError::TransportError => {
                out.append("Network error while talking to the API");
            },
            RunError::PromptError => {
                out.append("Failed to read input");
            },
            RunError::InvalidUrl => {
                out.append("Invalid repository URL");
            },
        }
        proof {
            assert(out@ =~= message_text(self@));
        }
        out
    }
}

} // verus!
