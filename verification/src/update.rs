//! Construction of the visibility-update request — endpoint URL, JSON
//! body, headers — each pinned down to the exact characters sent, and the
//! decision on what the response means.

use vstd::prelude::*;
use vstd::string::StrSliceExecFns;
use vstd::string::StringExecFns;
use crate::error::RunError;
use crate::error::RunErrorView;
use crate::status::is_success_status;
use crate::status::status_is_success;
use crate::text::dec_digit_char;

verus! {

/// The character for one hexadecimal digit, lower case.
pub open spec fn hex_digit_char(d: nat) -> char {
    if d < 10 {
        dec_digit_char(d)
    } else if d == 10 {
        'a'
    } else if d == 11 {
        'b'
    } else if d == 12 {
        'c'
    } else if d == 13 {
        'd'
    } else if d == 14 {
        'e'
    } else {
        'f'
    }
}

fn hex_digit(d: u32) -> (c: char)
    requires
        d < 16,
    ensures
        c == hex_digit_char(d as nat),
{
    if d == 0 {
        '0'
    } else if d == 1 {
        '1'
    } else if d == 2 {
        '2'
    } else if d == 3 {
        '3'
    } else if d == 4 {
        '4'
    } else if d == 5 {
        '5'
    } else if d == 6 {
        '6'
    } else if d == 7 {
        '7'
    } else if d == 8 {
        '8'
    } else if d == 9 {
        '9'
    } else if d == 10 {
        'a'
    } else if d == 11 {
        'b'
    } else if d == 12 {
        'c'
    } else if d == 13 {
        'd'
    } else if d == 14 {
        'e'
    } else {
        'f'
    }
}

/// How one character appears inside a JSON string literal: quote and
/// backslash get a backslash, control characters become `\u00XX`, and
/// everything else stands for itself.
pub open spec fn escaped_char(c: char) -> Seq<char> {
    if c == '"' {
        seq!['\\', '"']
    } else if c == '\\' {
        seq!['\\', '\\']
    } else if (c as u32) < 32 {
        seq![
            '\\',
            'u',
            '0',
            '0',
            hex_digit_char(((c as u32) / 16) as nat),
            hex_digit_char(((c as u32) % 16) as nat),
        ]
    } else {
        seq![c]
    }
}

/// `s` escaped for inclusion in a JSON string literal.
pub open spec fn json_escaped(s: Seq<char>) -> Seq<char>
    decreases s.len(),
{
    if s.len() == 0 {
        Seq::empty()
    } else {
        json_escaped(s.drop_last()) + escaped_char(s.last())
    }
}

/// Escapes `s` for inclusion in a JSON string literal.
pub fn json_escape(s: &str) -> (r: String)
    ensures
        r@ == json_escaped(s@),
{
    let len = s.unicode_len();
    let mut out = String::new();
    let mut i: usize = 0;
    while i < len
        invariant
            i <= len,
            len == s@.len(),
            out@ == json_escaped(s@.take(i as int)),
        decreases len - i,
    {
        let c = s.get_char(i);
        if c == '"' {
            out.push('\\');
            out.push('"');
        } else if c == '\\' {
            out.push('\\');
            out.push('\\');
        } else if (c as u32) < 32 {
            out.push('\\');
            out.push('u');
            out.push('0');
            out.push('0');
            out.push(hex_digit((c as u32) / 16));
            out.push(hex_digit((c as u32) % 16));
        } else {
            out.push(c);
        }
        i = i + 1;
        proof {
            assert(s@.take(i as int).drop_last() =~= s@.take(i - 1));
            assert(s@.take(i as int).last() == s@[i - 1]);
            assert(out@ =~= json_escaped(s@.take(i as int)));
        }
    }
    proof {
        assert(s@.take(len as int) =~= s@);
    }
    out
}

/// The literal text of a boolean in the JSON body.
pub open spec fn bool_text(b: bool) -> Seq<char> {
    if b {
        "true"@
    } else {
        "false"@
    }
}

/// The exact JSON body of the update request: the repository name, the
/// desired privacy flag, and an `auto_init` flag fixed to true.
pub open spec fn update_body_text(name: Seq<char>, private: bool) -> Seq<char> {
    "{\"name\":\""@ + json_escaped(name) + "\",\"private\":"@ + bool_text(private)
        + ",\"auto_init\":true}"@
}

/// Builds the JSON body of the update request.
pub fn build_update_body(name: &str, private: bool) -> (r: String)
    ensures
        r@ == update_body_text(name@, private),
{
    let mut out = String::from_str("{\"name\":\"");
    let escaped = json_escape(name);
    out.append(escaped.as_str());
    out.append("\",\"private\":");
    let flag: &str = if private { "true" } else { "false" };
    out.append(flag);
    out.append(",\"auto_init\":true}");
    proof {
        assert(out@ =~= update_body_text(name@, private));
    }
    out
}

/// The per-repository update endpoint.
pub open spec fn update_url_text(username: Seq<char>, repo: Seq<char>) -> Seq<char> {
    "https://api.github.com/repos/"@ + username + "/"@ + repo
}

/// Builds the per-repository update endpoint URL.
pub fn build_update_url(username: &str, repo_name: &str) -> (r: String)
    ensures
        r@ == update_url_text(username@, repo_name@),
{
    let mut out = String::from_str("https://api.github.com/repos/");
    out.append(username);
    out.append("/");
    out.append(repo_name);
    proof {
        assert(out@ =~= update_url_text(username@, repo_name@));
    }
    out
}

/// The `Authorization` header value of the update request.
pub open spec fn token_auth_text(token: Seq<char>) -> Seq<char> {
    "token "@ + token
}

/// Builds the `Authorization` header value of the update request.
pub fn token_auth(token: &str) -> (r: String)
    ensures
        r@ == token_auth_text(token@),
{
    let mut out = String::from_str("token ");
    out.append(token);
    out
}

/// The `Accept` header value sent with every update request.
pub fn update_accept() -> (r: &'static str)
    ensures
        r@ == "application/vnd.github.v3+json"@,
{
    "application/vnd.github.v3+json"
}

/// Everything the update POST sends, fully determined by its inputs.
pub struct UpdateRequest {
    /// The per-repository endpoint URL.
    pub url: String,
    /// The JSON body.
    pub body: String,
    /// The `Authorization` header value.
    pub authorization: String,
}

/// Builds the complete update request for one repository.
pub fn build_update_request(username: &str, repo_name: &str, token: &str, private: bool) -> (r:
    UpdateRequest)
    ensures
        r.url@ == update_url_text(username@, repo_name@),
        r.body@ == update_body_text(repo_name@, private),
        r.authorization@ == token_auth_text(token@),
{
    UpdateRequest {
        url: build_update_url(username, repo_name),
        body: build_update_body(repo_name, private),
        authorization: token_auth(token),
    }
}

/// Decides what the update response means: a success status lets the
/// batch continue; any other status aborts the entire run with
/// `ApiError` carrying the response body, so one failing repository
/// stops all subsequent ones.
pub fn update_response_action(status: u16, body: String) -> (r: Result<(), RunError>)
    ensures
        is_success_status(status as int) ==> r is Ok,
        !is_success_status(status as int) ==> (r matches Err(e) && e@ == RunErrorView::ApiError(
            body@,
        )),
{
    if status_is_success(status) {
        Ok(())
    } else {
        Err(RunError::ApiError(body))
    }
}

} // verus!
