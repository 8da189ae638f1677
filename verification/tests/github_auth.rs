use github_actions_editor::github::auth::TokenValidation;
use github_actions_editor::models::marketplace::{RepositoryInfo, TokenInfo};
use github_actions_editor::text::{parse_u32, split_str};

#[test]
fn invalid_validation() {
    let v = TokenValidation::invalid("nope".to_string());
    assert!(!v.valid);
    assert_eq!(v.error.as_deref(), Some("nope"));
    assert!(v.username.is_none());
    assert!(v.scopes.is_empty());
    assert_eq!(v.rate_limit_remaining, 0);
}

#[test]
fn http_failure_message() {
    let v = TokenValidation::http_failure("401 Unauthorized", "Bad credentials");
    assert_eq!(v.error.as_deref(), Some("HTTP 401 Unauthorized: Bad credentials"));
}

#[test]
fn success_parses_headers() {
    let v = TokenValidation::from_success(Some("repo, read:org"), Some("4999"), Some("octocat".to_string()));
    assert!(v.valid);
    assert_eq!(v.scopes, vec!["repo".to_string(), "read:org".to_string()]);
    assert_eq!(v.rate_limit_remaining, 4999);
    assert_eq!(v.username.as_deref(), Some("octocat"));
    assert!(v.error.is_none());
}

#[test]
fn success_without_headers() {
    let v = TokenValidation::from_success(None, Some("lots"), None);
    assert!(v.scopes.is_empty());
    assert_eq!(v.rate_limit_remaining, 0);
    let v = TokenValidation::from_success(Some(""), None, None);
    assert_eq!(v.scopes, vec![String::new()]);
}

#[test]
fn outcome_defaults() {
    let ok = TokenValidation::from_success(None, None, None).outcome();
    assert_eq!(ok, Ok("Unknown".to_string()));
    let named = TokenValidation::from_success(None, None, Some("me".to_string())).outcome();
    assert_eq!(named, Ok("me".to_string()));
    let bad = TokenValidation { valid: false, username: None, scopes: vec![], rate_limit_remaining: 0, error: None };
    assert_eq!(bad.outcome(), Err("Invalid token".to_string()));
    assert_eq!(TokenValidation::invalid("x".to_string()).outcome(), Err("x".to_string()));
}

#[test]
fn parse_u32_like_std() {
    for s in ["0", "42", "+7", "4294967295", "4294967296", "", "+", "-1", "1a", "007", " 1", "99999999999"] {
        assert_eq!(parse_u32(s), s.parse::<u32>().ok(), "input {:?}", s);
    }
}

#[test]
fn split_like_std() {
    for (s, sep) in [("a, b, c", ", "), ("", ", "), (", ", ", "), ("a,, b", ", "), ("abc", "/"), ("a/b/c", "/"), ("aaa", "aa")] {
        let expected: Vec<String> = s.split(sep).map(String::from).collect();
        assert_eq!(split_str(s, sep), expected, "input {:?} {:?}", s, sep);
    }
}

#[test]
fn repository_info_defaults() {
    let r = RepositoryInfo::from_api(None, "o".to_string(), "r".to_string(), None, None, None, None);
    assert_eq!(r.full_name, "");
    assert!(!r.private);
    assert_eq!(r.default_branch, "main");
    assert!(r.topics.is_empty());
    let r = RepositoryInfo::from_api(
        Some("o/r".to_string()),
        "o".to_string(),
        "r".to_string(),
        Some(true),
        Some("dev".to_string()),
        Some("d".to_string()),
        Some(vec!["t".to_string()]),
    );
    assert_eq!(r.full_name, "o/r");
    assert!(r.private);
    assert_eq!(r.default_branch, "dev");
    assert_eq!(r.description.as_deref(), Some("d"));
}

#[test]
fn token_info_from_rate_limit() {
    let t = TokenInfo::from_rate_limit("me".to_string(), 4321, 1_700_000_000);
    assert_eq!(t.user, "me");
    assert_eq!(t.rate_limit_remaining, 4321);
    assert_eq!(t.rate_limit_reset.secs, 1_700_000_000);
    assert_eq!(t.rate_limit_reset.nanos, 0);
    assert!(t.scopes.is_empty());
    assert!(t.expires_at.is_none());
    let big = TokenInfo::from_rate_limit("me".to_string(), (1usize << 32) + 5, u64::MAX);
    assert_eq!(big.rate_limit_remaining, 5);
    assert_eq!(big.rate_limit_reset.secs, -1);
}
