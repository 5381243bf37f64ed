use repo_privacy::error::RunError;
use repo_privacy::listing::bearer_auth;
use repo_privacy::listing::listing_accept;
use repo_privacy::listing::listing_response_action;
use repo_privacy::listing::listing_url;
use repo_privacy::listing::Lister;
use repo_privacy::listing::PageOutcome;
use repo_privacy::repo::Repo;

fn page_of(count: usize, offset: usize) -> Vec<Repo> {
    let mut page = Vec::new();
    for i in 0..count {
        let n = offset + i;
        page.push(Repo {
            name: format!("repo{}", n),
            url: format!("https://api.github.com/repos/alice/repo{}", n),
            is_private: Some(n % 2 == 0),
        });
    }
    page
}

#[test]
fn listing_url_carries_page_and_size() {
    assert_eq!(
        listing_url(1),
        "https://api.github.com/user/repos?page=1&per_page=100"
    );
    assert_eq!(
        listing_url(2),
        "https://api.github.com/user/repos?page=2&per_page=100"
    );
}

#[test]
fn listing_headers_are_fixed() {
    assert_eq!(listing_accept(), "application/vnd.github+json");
    assert_eq!(bearer_auth("abc123"), "Bearer abc123");
}

#[test]
fn two_pages_concatenate_in_response_order() {
    let mut lister = Lister::new();
    assert_eq!(lister.next_page(), Some(1));
    lister.on_page(PageOutcome::Received(page_of(100, 0))).unwrap();
    assert_eq!(lister.next_page(), Some(2));
    lister.on_page(PageOutcome::Received(page_of(50, 100))).unwrap();
    assert_eq!(lister.next_page(), None);
    let repos = lister.into_repos();
    assert_eq!(repos.len(), 150);
    assert_eq!(repos[0].name, "repo0");
    assert_eq!(repos[99].name, "repo99");
    assert_eq!(repos[100].name, "repo100");
    assert_eq!(repos[149].name, "repo149");
}

#[test]
fn pagination_never_asks_for_a_third_page() {
    let mut lister = Lister::new();
    assert_eq!(lister.next_page(), Some(1));
    lister.on_page(PageOutcome::Received(page_of(100, 0))).unwrap();
    assert_eq!(lister.next_page(), Some(2));
    lister.on_page(PageOutcome::Received(page_of(100, 100))).unwrap();
    assert_eq!(lister.next_page(), None);
    assert_eq!(lister.count(), 200);
}

#[test]
fn an_empty_page_ends_pagination() {
    let mut lister = Lister::new();
    assert_eq!(lister.next_page(), Some(1));
    lister.on_page(PageOutcome::Received(page_of(30, 0))).unwrap();
    assert_eq!(lister.next_page(), Some(2));
    lister.on_page(PageOutcome::Received(Vec::new())).unwrap();
    assert_eq!(lister.next_page(), None);
    assert_eq!(lister.into_repos().len(), 30);
}

#[test]
fn a_transport_failure_keeps_the_pages_fetched_so_far() {
    let mut lister = Lister::new();
    assert_eq!(lister.next_page(), Some(1));
    lister.on_page(PageOutcome::Received(page_of(100, 0))).unwrap();
    assert_eq!(lister.next_page(), Some(2));
    lister.on_page(PageOutcome::Transport).unwrap();
    assert_eq!(lister.next_page(), None);
    assert_eq!(lister.into_repos().len(), 100);
}

#[test]
fn a_malformed_page_aborts_the_listing() {
    let mut lister = Lister::new();
    assert_eq!(lister.next_page(), Some(1));
    let r = lister.on_page(PageOutcome::Malformed);
    assert!(matches!(r, Err(RunError::MalformedResponse)));
}

#[test]
fn an_http_error_on_page_one_aborts_at_once() {
    let body = String::from("{\"message\":\"Bad credentials\"}");
    let r = listing_response_action(401, body.clone());
    match r {
        Err(RunError::ApiError(b)) => assert_eq!(b, body),
        _ => panic!("expected ApiError"),
    }
}

#[test]
fn a_success_status_hands_the_body_on() {
    let body = String::from("[]");
    assert_eq!(listing_response_action(200, body).unwrap(), "[]");
}
