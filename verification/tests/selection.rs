use repo_privacy::error::RunError;
use repo_privacy::present::format_repo_line;
use repo_privacy::present::selector_label;
use repo_privacy::repo::rewrite_api_url;
use repo_privacy::repo::select_repos;
use repo_privacy::repo::single_repo;
use repo_privacy::repo::Repo;
use repo_privacy::text::u64_to_dec;

fn sample(name: &str) -> Repo {
    Repo {
        name: String::from(name),
        url: format!("https://api.github.com/repos/alice/{}", name),
        is_private: Some(false),
    }
}

#[test]
fn api_domain_url_is_rewritten_for_display() {
    assert_eq!(
        rewrite_api_url("https://api.github.com/repos/alice/foo"),
        "https://github.com/repos/alice/foo"
    );
}

#[test]
fn non_matching_url_is_left_unchanged() {
    assert_eq!(
        rewrite_api_url("https://github.com/alice/foo"),
        "https://github.com/alice/foo"
    );
    assert_eq!(rewrite_api_url(""), "");
    assert_eq!(
        rewrite_api_url("https://api.github.com/user/repos"),
        "https://api.github.com/user/repos"
    );
}

#[test]
fn a_name_containing_api_dot_is_not_corrupted() {
    assert_eq!(
        rewrite_api_url("https://api.github.com/repos/alice/api.foo"),
        "https://github.com/repos/alice/api.foo"
    );
}

#[test]
fn selection_keeps_the_order_chosen() {
    let repos = vec![sample("zero"), sample("one"), sample("two")];
    let picked = select_repos(&repos, &vec![2, 0]).unwrap();
    assert_eq!(picked.len(), 2);
    assert_eq!(picked[0].name, "two");
    assert_eq!(picked[1].name, "zero");
    assert_eq!(picked[0].url, "https://github.com/repos/alice/two");
    assert_eq!(picked[1].url, "https://github.com/repos/alice/zero");
}

#[test]
fn an_empty_selection_aborts_the_run() {
    let repos = vec![sample("zero")];
    let r = select_repos(&repos, &Vec::new());
    assert!(matches!(r, Err(RunError::NoSelection)));
}

#[test]
fn a_manually_entered_repository_has_unknown_visibility() {
    let repo = single_repo("alice", "myrepo");
    assert_eq!(repo.name, "myrepo");
    assert_eq!(repo.url, "https://github.com/alice/myrepo");
    assert!(repo.is_private.is_none());
}

#[test]
fn display_line_pads_short_names() {
    let repo = Repo {
        name: String::from("repo1"),
        url: String::from("https://github.com/alice/repo1"),
        is_private: None,
    };
    let line = format_repo_line(&repo, Some(30)).unwrap();
    let expected = format!("repo1{}https://github.com/alice/repo1", " ".repeat(25));
    assert_eq!(line, expected);
}

#[test]
fn display_line_clamps_padding_for_long_names() {
    let repo = Repo {
        name: String::from("a-rather-long-name"),
        url: String::from("https://github.com/alice/a-rather-long-name"),
        is_private: None,
    };
    let line = format_repo_line(&repo, Some(4)).unwrap();
    assert_eq!(line, "a-rather-long-namehttps://github.com/alice/a-rather-long-name");
}

#[test]
fn display_line_uses_the_default_width_when_none_is_given() {
    let repo = Repo {
        name: String::from("abc"),
        url: String::from("https://x.example"),
        is_private: None,
    };
    let line = format_repo_line(&repo, None).unwrap();
    assert_eq!(line, format!("abc{}https://x.example", " ".repeat(5)));
}

#[test]
fn display_line_rejects_an_invalid_url() {
    let repo = Repo {
        name: String::from("abc"),
        url: String::from("not a url"),
        is_private: None,
    };
    assert!(matches!(format_repo_line(&repo, None), Err(RunError::InvalidUrl)));
    let bare = Repo {
        name: String::from("abc"),
        url: String::from("https://"),
        is_private: None,
    };
    assert!(matches!(format_repo_line(&bare, None), Err(RunError::InvalidUrl)));
}

#[test]
fn selector_rows_show_name_and_visibility() {
    let mut repo = sample("tools");
    assert_eq!(selector_label(&repo), "tools public");
    repo.is_private = Some(true);
    assert_eq!(selector_label(&repo), "tools private");
}

#[test]
fn decimal_rendering_is_exact() {
    assert_eq!(u64_to_dec(0), "0");
    assert_eq!(u64_to_dec(7), "7");
    assert_eq!(u64_to_dec(10), "10");
    assert_eq!(u64_to_dec(100), "100");
    assert_eq!(u64_to_dec(12345), "12345");
    assert_eq!(u64_to_dec(u64::MAX), "18446744073709551615");
}
