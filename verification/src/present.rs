//! The presentation helper: the display line shown above each
//! per-repository prompt, and the labels of the multi-select rows.

use vstd::prelude::*;
use vstd::string::StrSliceExecFns;
use vstd::string::StringExecFns;
use crate::error::RunError;
use crate::error::RunErrorView;
use crate::repo::Repo;
use crate::repo::RepoView;
use crate::text::has_prefix;
use crate::text::spaces;
use crate::text::space_padding;
use crate::text::str_starts_with;

verus! {

/// The left-padding width used when the caller gives none.
pub const DEFAULT_LEFTPAD: usize = 8;

/// A URL the presentation helper accepts: an `http` or `https` scheme
/// followed by a non-empty remainder.
pub open spec fn is_valid_url(u: Seq<char>) -> bool {
    ||| has_prefix(u, "https://"@) && u.len() > "https://"@.len()
    ||| has_prefix(u, "http://"@) && u.len() > "http://"@.len()
}

/// Whether the presentation helper accepts `u` as a URL.
pub fn check_url(u: &str) -> (r: bool)
    ensures
        r == is_valid_url(u@),
{
    let https = "https://";
    let http = "http://";
    (str_starts_with(u, https) && u.unicode_len() > https.unicode_len()) || (str_starts_with(
        u,
        http,
    ) && u.unicode_len() > http.unicode_len())
}

/// The padding width actually used: the given one, or the default.
pub open spec fn effective_leftpad(leftpad: Option<usize>) -> nat {
    match leftpad {
        Some(p) => p as nat,
        None => DEFAULT_LEFTPAD as nat,
    }
}

/// The display line for one repository: its name, left-padded with
/// spaces to `leftpad` columns — no padding at all if the name is at
/// least that wide — followed by its URL. Width is counted in
/// characters.
pub open spec fn repo_line_text(r: RepoView, leftpad: nat) -> Seq<char> {
    r.name + spaces(if r.name.len() >= leftpad {
        0
    } else {
        (leftpad - r.name.len()) as nat
    }) + r.url
}

/// Renders the display line for one repository. Pure formatting; fails
/// only if the stored URL is not a valid URL.
pub fn format_repo_line(repo: &Repo, leftpad: Option<usize>) -> (r: Result<String, RunError>)
    ensures
        match r {
            Ok(line) => is_valid_url(repo@.url) && line@ == repo_line_text(
                repo@,
                effective_leftpad(leftpad),
            ),
            Err(e) => !is_valid_url(repo@.url) && e@ == RunErrorView::InvalidUrl,
        },
{
    if !check_url(repo.url.as_str()) {
        return Err(RunError::InvalidUrl);
    }
    let pad = match leftpad {
        Some(p) => p,
        None => DEFAULT_LEFTPAD,
    };
    let name_width = repo.name.as_str().unicode_len();
    let padding = space_padding(if name_width >= pad {
        0
    } else {
        pad - name_width
    });
    let mut out = repo.name.clone();
    out.append(padding.as_str());
    out.append(repo.url.as_str());
    proof {
        assert(out@ =~= repo_line_text(repo@, effective_leftpad(leftpad)));
    }
    Ok(out)
}

/// The spaces standing between a repository's name and its URL on the
/// display line: the same padding [`repo_line_text`] uses, for callers
/// that lay the name and the URL out themselves.
pub fn padding_string(name: &str, leftpad: Option<usize>) -> (r: String)
    ensures
        r@ == spaces(
            if name@.len() >= effective_leftpad(leftpad) {
                0
            } else {
                (effective_leftpad(leftpad) - name@.len()) as nat
            },
        ),
{
    let pad = match leftpad {
        Some(p) => p,
        None => DEFAULT_LEFTPAD,
    };
    let name_width = name.unicode_len();
    space_padding(if name_width >= pad {
        0
    } else {
        pad - name_width
    })
}

/// The visibility tag shown beside a fetched repository's name.
pub open spec fn visibility_tag(private: bool) -> Seq<char> {
    if private {
        "private"@
    } else {
        "public"@
    }
}

/// The label of one multi-select row: the repository's name, a space,
/// and its visibility tag. Only fetched repositories are listed, so the
/// visibility is always known here.
pub fn selector_label(repo: &Repo) -> (r: String)
    requires
        repo.is_private is Some,
    ensures
        r@ == repo@.name + " "@ + visibility_tag(repo@.is_private->0),
{
    let mut out = repo.name.clone();
    out.append(" ");
    let tag: &str = match repo.is_private {
        Some(true) => "private",
        Some(false) => "public",
        None => "public",
    };
    out.append(tag);
    proof {
        assert(out@ =~= repo@.name + " "@ + visibility_tag(repo@.is_private->0));
    }
    out
}

} // verus!
