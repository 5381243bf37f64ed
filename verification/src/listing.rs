//! The paginated repository-listing loop, as a state machine. The
//! surrounding binary fetches each page this module asks for and feeds the
//! outcome back in; every decision — which page to ask for, when to stop,
//! what a response means — is made and proved here.

use vstd::prelude::*;
use vstd::string::StringExecFns;
use crate::error::RunError;
use crate::error::RunErrorView;
use crate::repo::Repo;
use crate::status::is_success_status;
use crate::status::status_is_success;
use crate::text::dec_digits;
use crate::text::u64_to_dec;

verus! {

/// Fixed number of records asked of the listing endpoint per page.
pub const PER_PAGE: u64 = 100;

/// Pages are fetched up to this page number, inclusive.
pub const LAST_PAGE: u64 = 2;

/// The listing endpoint for one page.
pub open spec fn listing_url_text(page: nat) -> Seq<char> {
    "https://api.github.com/user/repos?page="@ + dec_digits(page) + "&per_page=100"@
}

/// Builds the listing endpoint URL for one page.
pub fn listing_url(page: u64) -> (r: String)
    ensures
        r@ == listing_url_text(page as nat),
{
    let mut out = String::from_str("https://api.github.com/user/repos?page=");
    let number = u64_to_dec(page);
    out.append(number.as_str());
    out.append("&per_page=100");
    proof {
        assert(out@ =~= listing_url_text(page as nat));
    }
    out
}

/// The `Accept` header value sent with every listing request.
pub fn listing_accept() -> (r: &'static str)
    ensures
        r@ == "application/vnd.github+json"@,
{
    "application/vnd.github+json"
}

/// The `Authorization` header value of the listing requests.
pub open spec fn bearer_auth_text(token: Seq<char>) -> Seq<char> {
    "Bearer "@ + token
}

/// Builds the `Authorization` header value of the listing requests.
pub fn bearer_auth(token: &str) -> (r: String)
    ensures
        r@ == bearer_auth_text(token@),
{
    let mut out = String::from_str("Bearer ");
    out.append(token);
    out
}

/// What the fetch loop has done so far, mathematically.
pub struct ListingModel {
    /// The page the loop would ask for next.
    pub page: int,
    /// The records fetched so far, in response order.
    pub repos: Seq<Repo>,
    /// Pagination has ended early: an empty page or a transport failure.
    pub finished: bool,
}

/// The state before the first page is asked for.
pub open spec fn initial_listing() -> ListingModel {
    ListingModel { page: 1, repos: Seq::empty(), finished: false }
}

/// A reachable state: the next page number never leaves the window of
/// pages the loop may ask for.
pub open spec fn listing_wf(m: ListingModel) -> bool {
    1 <= m.page <= LAST_PAGE + 1
}

/// The page the loop asks for next, if any: pagination ends once it has
/// finished early or the page number passes the limit.
pub open spec fn wanted_page(m: ListingModel) -> Option<int> {
    if m.finished || m.page > LAST_PAGE as int {
        None
    } else {
        Some(m.page)
    }
}

/// How one deserialized page changes the state: an empty page ends
/// pagination; a non-empty page is appended in response order and the
/// loop moves to the next page number.
pub open spec fn received_step(m: ListingModel, page: Seq<Repo>) -> ListingModel {
    if page.len() == 0 {
        ListingModel { page: m.page, repos: m.repos, finished: true }
    } else {
        ListingModel { page: m.page + 1, repos: m.repos + page, finished: m.finished }
    }
}

/// What one page fetch produced, as handed back by the I/O layer.
pub enum PageOutcome {
    /// A success response whose body deserialized to these records.
    Received(Vec<Repo>),
    /// A success response whose body could not be deserialized.
    Malformed,
    /// The network layer failed for this page; pagination degrades
    /// gracefully to the pages fetched so far.
    Transport,
}

/// The fetch loop's state.
pub struct Lister {
    /// The page to ask for next.
    pub page: u64,
    /// The records fetched so far, in response order.
    pub repos: Vec<Repo>,
    /// Pagination has ended early.
    pub finished: bool,
}

impl View for Lister {
    type V = ListingModel;

    open spec fn view(&self) -> ListingModel {
        ListingModel { page: self.page as int, repos: self.repos@, finished: self.finished }
    }
}

impl Lister {
    /// Starts a fresh listing: nothing fetched, first page wanted.
    pub fn new() -> (l: Lister)
        ensures
            l@ == initial_listing(),
            listing_wf(l@),
    {
        Lister { page: 1, repos: Vec::new(), finished: false }
    }

    /// The page the loop should fetch next; `None` ends the loop.
    pub fn next_page(&self) -> (r: Option<u64>)
        ensures
            match r {
                Some(p) => wanted_page(self@) == Some(p as int),
                None => wanted_page(self@) is None,
            },
    {
        if self.finished || self.page > LAST_PAGE {
            None
        } else {
            Some(self.page)
        }
    }

    /// Feeds the outcome of one page fetch into the state. A received
    /// page follows `received_step`; a malformed body aborts the whole
    /// run; a transport failure only stops pagination, keeping the
    /// records fetched so far.
    pub fn on_page(&mut self, outcome: PageOutcome) -> (r: Result<(), RunError>)
        requires
            listing_wf(old(self)@),
            wanted_page(old(self)@) is Some,
        ensures
            listing_wf(final(self)@),
            match outcome {
                PageOutcome::Received(page) => r is Ok && final(self)@ == received_step(
                    old(self)@,
                    page@,
                ),
                PageOutcome::Malformed => {
                    &&& r matches Err(e) && e@ == RunErrorView::MalformedResponse
                    &&& final(self)@ == old(self)@
                },
                PageOutcome::Transport => {
                    &&& r is Ok
                    &&& final(self)@ == (ListingModel {
                        page: old(self)@.page,
                        repos: old(self)@.repos,
                        finished: true,
                    })
                },
            },
    {
        match outcome {
            PageOutcome::Received(mut page) => {
                if page.len() == 0 {
                    self.finished = true;
                } else {
                    self.page = self.page + 1;
                    self.repos.append(&mut page);
                }
                Ok(())
            },
            PageOutcome::Malformed => Err(RunError::MalformedResponse),
            PageOutcome::Transport => {
                self.finished = true;
                Ok(())
            },
        }
    }

    /// How many records have been fetched so far.
    pub fn count(&self) -> (r: usize)
        ensures
            r == self@.repos.len(),
    {
        self.repos.len()
    }

    /// Hands out the fetched records, in response order.
    pub fn into_repos(self) -> (r: Vec<Repo>)
        ensures
            r@ == self@.repos,
    {
        self.repos
    }
}

/// Decides what a listing page's HTTP response means: a success status
/// hands the body on for deserialization; any other status aborts the
/// whole run with `ApiError` carrying the response body — before any
/// selection prompt and before any update request.
pub fn listing_response_action(status: u16, body: String) -> (r: Result<String, RunError>)
    ensures
        is_success_status(status as int) ==> (r matches Ok(b) && b@ == body@),
        !is_success_status(status as int) ==> (r matches Err(e) && e@ == RunErrorView::ApiError(
            body@,
        )),
{
    if status_is_success(status) {
        Ok(body)
    } else {
        Err(RunError::ApiError(body))
    }
}

/// Pagination halts after at most two pages: after two non-empty pages
/// the loop asks for no third, and the collection is the two pages
/// concatenated in response order, `p1` before `p2`.
pub proof fn lemma_two_pages_end(p1: Seq<Repo>, p2: Seq<Repo>)
    requires
        p1.len() > 0,
        p2.len() > 0,
    ensures
        ({
            let m = received_step(received_step(initial_listing(), p1), p2);
            &&& m.repos =~= p1 + p2
            &&& wanted_page(m) is None
        }),
{
}

/// With the fixed page size, the fetched collection never exceeds two
/// full pages of records.
pub proof fn lemma_item_ceiling(p1: Seq<Repo>, p2: Seq<Repo>)
    requires
        p1.len() <= PER_PAGE,
        p2.len() <= PER_PAGE,
    ensures
        received_step(received_step(initial_listing(), p1), p2).repos.len() <= 2 * PER_PAGE,
{
}

/// An empty page ends pagination at once, keeping exactly the records
/// fetched before it.
pub proof fn lemma_empty_page_ends(m: ListingModel, p: Seq<Repo>)
    requires
        p.len() == 0,
    ensures
        received_step(m, p).finished,
        received_step(m, p).repos == m.repos,
        wanted_page(received_step(m, p)) is None,
{
}

/// The loop never asks for a page beyond the limit.
pub proof fn lemma_page_bound(m: ListingModel)
    requires
        listing_wf(m),
    ensures
        wanted_page(m) matches Some(p) ==> 1 <= p <= LAST_PAGE,
{
}

} // verus!
