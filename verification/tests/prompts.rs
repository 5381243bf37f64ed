use repo_privacy::error::RunError;
use repo_privacy::input::parse_privacy;
use repo_privacy::input::parse_yes_no;
use repo_privacy::input::require_nonempty;
use repo_privacy::input::token_from_env;
use repo_privacy::text::trim_ws;

#[test]
fn empty_username_is_missing_input() {
    let r = require_nonempty(String::new(), "username");
    match r {
        Err(RunError::MissingInput(field)) => assert_eq!(field, "username"),
        _ => panic!("expected MissingInput"),
    }
}

#[test]
fn empty_token_is_missing_input() {
    let r = require_nonempty(String::new(), "PAT (Personal Access Token)");
    assert!(matches!(r, Err(RunError::MissingInput(_))));
}

#[test]
fn empty_repository_is_missing_input() {
    let r = require_nonempty(String::new(), "repository");
    assert!(matches!(r, Err(RunError::MissingInput(_))));
}

#[test]
fn nonempty_input_passes_through() {
    let r = require_nonempty(String::from("alice"), "username");
    assert_eq!(r.unwrap(), "alice");
}

#[test]
fn token_env_set_and_nonempty_is_used() {
    let r = token_from_env(Some(String::from("abc123")));
    assert_eq!(r.unwrap(), "abc123");
}

#[test]
fn token_env_empty_falls_back() {
    assert!(token_from_env(Some(String::new())).is_none());
}

#[test]
fn token_env_unset_falls_back() {
    assert!(token_from_env(None).is_none());
}

#[test]
fn yes_no_accepts_both_cases() {
    assert_eq!(parse_yes_no("y"), Some(true));
    assert_eq!(parse_yes_no("Y"), Some(true));
    assert_eq!(parse_yes_no("n"), Some(false));
    assert_eq!(parse_yes_no("N"), Some(false));
}

#[test]
fn yes_no_rejects_anything_else() {
    assert_eq!(parse_yes_no(""), None);
    assert_eq!(parse_yes_no("yes"), None);
    assert_eq!(parse_yes_no("x"), None);
    assert_eq!(parse_yes_no("Ctrl-C"), None);
}

#[test]
fn privacy_accepts_only_the_two_literals() {
    assert_eq!(parse_privacy("true"), Some(true));
    assert_eq!(parse_privacy("false"), Some(false));
}

#[test]
fn privacy_rejects_everything_else_so_the_prompt_repeats() {
    assert_eq!(parse_privacy(""), None);
    assert_eq!(parse_privacy("True"), None);
    assert_eq!(parse_privacy("TRUE"), None);
    assert_eq!(parse_privacy("t"), None);
    assert_eq!(parse_privacy("yes"), None);
    assert_eq!(parse_privacy("true "), None);
}

#[test]
fn trim_strips_both_ends() {
    assert_eq!(trim_ws(" hi \n"), "hi");
    assert_eq!(trim_ws("myrepo\r\n"), "myrepo");
    assert_eq!(trim_ws("\t a b \t"), "a b");
}

#[test]
fn trim_of_blank_lines_is_empty() {
    assert_eq!(trim_ws(""), "");
    assert_eq!(trim_ws(" \t\r\n"), "");
}

#[test]
fn trim_leaves_clean_input_alone() {
    assert_eq!(trim_ws("alice"), "alice");
}

#[test]
fn missing_input_message_names_the_field() {
    let e = RunError::MissingInput(String::from("username"));
    assert_eq!(e.message(), "\u{274c} `username` is required");
}

#[test]
fn api_error_message_carries_the_body() {
    let e = RunError::ApiError(String::from("Bad credentials"));
    assert_eq!(e.message(), "\u{274c} API request failed: Bad credentials");
}

#[test]
fn each_error_kind_has_a_marked_message() {
    let errors = vec![
        RunError::NoSelection,
        RunError::MalformedResponse,
        RunError::TransportError,
        RunError::PromptError,
        RunError::InvalidUrl,
    ];
    for e in errors {
        assert!(e.message().starts_with("\u{274c} "));
    }
}
