//! The repository record, and what happens to it between fetch and update:
//! manual entry, URL rewriting, and mapping the user's selection back into
//! the fetched collection.

use vstd::prelude::*;
use vstd::string::StringExecFns;
use crate::error::RunError;
use crate::error::RunErrorView;
use crate::text::has_prefix;
use crate::text::str_starts_with;

verus! {

/// One repository as this tool sees it.
#[derive(Debug)]
pub struct Repo {
    /// Short identifier, unique per owner.
    pub name: String,
    /// API- or web-facing URL.
    pub url: String,
    /// Last-known visibility as reported by the listing endpoint;
    /// `None` for a repository entered by hand, since no lookup occurred.
    pub is_private: Option<bool>,
}

/// The mathematical shape of a [`Repo`].
pub struct RepoView {
    pub name: Seq<char>,
    pub url: Seq<char>,
    pub is_private: Option<bool>,
}

impl View for Repo {
    type V = RepoView;

    open spec fn view(&self) -> RepoView {
        RepoView { name: self.name@, url: self.url@, is_private: self.is_private }
    }
}

impl Clone for Repo {
    fn clone(&self) -> (r: Self)
        ensures
            r@ == self@,
    {
        Repo { name: self.name.clone(), url: self.url.clone(), is_private: self.is_private }
    }
}

/// The browsable URL synthesized for a repository entered by hand.
pub open spec fn web_repo_url(username: Seq<char>, name: Seq<char>) -> Seq<char> {
    "https://github.com/"@ + username + "/"@ + name
}

/// The record for a repository the user typed in on the single-repository
/// path: its visibility is unknown, and its URL is synthesized in
/// web-domain form.
pub fn single_repo(username: &str, name: &str) -> (r: Repo)
    ensures
        r@.name == name@,
        r@.url == web_repo_url(username@, name@),
        r@.is_private is None,
{
    let mut url = String::from_str("https://github.com/");
    url.append(username);
    url.append("/");
    url.append(name);
    proof {
        assert(url@ =~= web_repo_url(username@, name@));
    }
    Repo { name: name.to_owned(), url, is_private: None }
}

/// The API-domain prefix that marks a listing URL for rewriting.
pub open spec fn api_repos_prefix() -> Seq<char> {
    "https://api.github.com/repos"@
}

/// A URL in API-domain form with the `api.` host label dropped; a URL
/// not carrying the API-domain prefix is left unchanged.
pub open spec fn rewritten_url(u: Seq<char>) -> Seq<char> {
    if has_prefix(u, api_repos_prefix()) {
        "https://github.com/repos"@ + u.skip(api_repos_prefix().len() as int)
    } else {
        u
    }
}

/// Rewrites a selected repository's URL from the API-domain form to the
/// public web-domain form before it is handed to the updater. Only the
/// one `api.` host label of a matching prefix is dropped, so a
/// repository name containing the text `api.` is never corrupted.
pub fn rewrite_api_url(url: &str) -> (r: String)
    ensures
        r@ == rewritten_url(url@),
{
    let prefix = "https://api.github.com/repos";
    if str_starts_with(url, prefix) {
        let rest = url.substring_char(prefix.unicode_len(), url.unicode_len());
        let mut out = String::from_str("https://github.com/repos");
        out.append(rest);
        proof {
            assert(out@ =~= rewritten_url(url@));
        }
        out
    } else {
        url.to_owned()
    }
}

/// A selected record as handed to the updater: the same repository with
/// its URL rewritten to web-domain form.
pub open spec fn selected_repo(r: RepoView) -> RepoView {
    RepoView { name: r.name, url: rewritten_url(r.url), is_private: r.is_private }
}

/// Maps the chosen indices back into the fetched collection, in selection
/// order, rewriting each URL. An empty selection aborts the run with
/// `NoSelection` rather than silently doing nothing.
pub fn select_repos(repos: &Vec<Repo>, indices: &Vec<usize>) -> (r: Result<Vec<Repo>, RunError>)
    requires
        forall|i: int| 0 <= i < indices@.len() ==> (#[trigger] indices@[i]) < repos@.len(),
    ensures
        match r {
            Ok(sel) => {
                &&& indices@.len() > 0
                &&& sel@.len() == indices@.len()
                &&& forall|i: int|
                    0 <= i < sel@.len() ==> (#[trigger] sel@[i])@ == selected_repo(
                        repos@[indices@[i] as int]@,
                    )
            },
            Err(e) => indices@.len() == 0 && e@ == RunErrorView::NoSelection,
        },
{
    if indices.len() == 0 {
        return Err(RunError::NoSelection);
    }
    let mut out: Vec<Repo> = Vec::new();
    let mut i: usize = 0;
    while i < indices.len()
        invariant
            i <= indices@.len(),
            forall|k: int| 0 <= k < indices@.len() ==> (#[trigger] indices@[k]) < repos@.len(),
            out@.len() == i,
            forall|j: int|
                0 <= j < i ==> (#[trigger] out@[j])@ == selected_repo(repos@[indices@[j] as int]@),
        decreases indices@.len() - i,
    {
        let idx = indices[i];
        let rep = &repos[idx];
        let new_url = rewrite_api_url(rep.url.as_str());
        out.push(Repo { name: rep.name.clone(), url: new_url, is_private: rep.is_private });
        i = i + 1;
    }
    Ok(out)
}

} // verus!
