//! Decisions behind the interactive prompts: which answers are accepted,
//! which end the run, and where the access token comes from.

use vstd::prelude::*;
use crate::error::RunError;
use crate::error::RunErrorView;
use crate::text::str_eq;

verus! {

/// Guards a required prompt answer: an empty value ends the run with
/// `MissingInput` naming the field; anything else is passed through.
pub fn require_nonempty(value: String, field: &str) -> (r: Result<String, RunError>)
    ensures
        value@.len() > 0 ==> (r matches Ok(v) && v@ == value@),
        value@.len() == 0 ==> (r matches Err(e) && e@ == RunErrorView::MissingInput(field@)),
{
    if value.as_str().is_empty() {
        Err(RunError::MissingInput(field.to_owned()))
    } else {
        Ok(value)
    }
}

/// The access token taken from the environment: `Some` exactly when the
/// variable was present with a non-empty value. `None` tells the caller
/// to fall back to the masked interactive prompt.
pub fn token_from_env(env_value: Option<String>) -> (r: Option<String>)
    ensures
        match env_value {
            Some(t) => {
                &&& t@.len() > 0 ==> (r matches Some(v) && v@ == t@)
                &&& t@.len() == 0 ==> r is None
            },
            None => r is None,
        },
{
    match env_value {
        Some(t) => {
            if t.as_str().is_empty() {
                None
            } else {
                Some(t)
            }
        },
        None => None,
    }
}

/// Which answers the yes/no prompt accepts, and what each means.
/// The answer is accepted in either letter case.
pub open spec fn yes_no_answer(s: Seq<char>) -> Option<bool> {
    if s == "y"@ || s == "Y"@ {
        Some(true)
    } else if s == "n"@ || s == "N"@ {
        Some(false)
    } else {
        None
    }
}

/// Reads a yes/no prompt answer; `None` means the prompt must be shown
/// again.
pub fn parse_yes_no(input: &str) -> (r: Option<bool>)
    ensures
        r == yes_no_answer(input@),
{
    proof {
        reveal_strlit("y");
        reveal_strlit("Y");
        reveal_strlit("n");
        reveal_strlit("N");
    }
    if str_eq(input, "y") || str_eq(input, "Y") {
        Some(true)
    } else if str_eq(input, "n") || str_eq(input, "N") {
        Some(false)
    } else {
        None
    }
}

/// Which answers the privacy prompt accepts: exactly the literal strings
/// `true` and `false`.
pub open spec fn privacy_answer(s: Seq<char>) -> Option<bool> {
    if s == "true"@ {
        Some(true)
    } else if s == "false"@ {
        Some(false)
    } else {
        None
    }
}

/// Reads a privacy prompt answer. Only `true` or `false` advances the
/// flow; any other input gives `None`, on which the caller re-displays
/// the error and re-reads, without any network call.
pub fn parse_privacy(input: &str) -> (r: Option<bool>)
    ensures
        r == privacy_answer(input@),
        r is Some <==> (input@ == "true"@ || input@ == "false"@),
{
    proof {
        reveal_strlit("true");
        reveal_strlit("false");
    }
    if str_eq(input, "true") {
        Some(true)
    } else if str_eq(input, "false") {
        Some(false)
    } else {
        None
    }
}

} // verus!
