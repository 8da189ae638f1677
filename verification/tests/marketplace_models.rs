use github_actions_editor::github::marketplace::{
    featured_action_refs, is_major_version, repository_url, search_query, search_result, tags_url,
    actions_from_search, successful_lookups, versions_from_tags, RepoSummary, TagRef,
};
use github_actions_editor::models::marketplace::{ActionVersion, MarketplaceAction};
use github_actions_editor::models::action::{ActionMetadata, ActionRuns};
use github_actions_editor::strmap::StrMap;
use github_actions_editor::time::Timestamp;

fn version(tag: &str, is_latest: bool, is_major: bool) -> ActionVersion {
    ActionVersion { tag: tag.to_string(), is_latest, is_major, released_at: None, commit_sha: None }
}

fn action(versions: Vec<ActionVersion>) -> MarketplaceAction {
    MarketplaceAction {
        full_name: "actions/checkout".to_string(),
        owner: "actions".to_string(),
        repo: "checkout".to_string(),
        name: "actions/checkout".to_string(),
        description: String::new(),
        versions,
        stars: 0,
        updated_at: Timestamp::new(0, 0),
        verified: false,
        categories: vec![],
        metadata: None,
    }
}

#[test]
fn action_ref_prefers_requested_version() {
    let a = action(vec![version("v4", true, true)]);
    assert_eq!(a.action_ref(Some("v3")), "actions/checkout@v3");
}

#[test]
fn action_ref_uses_latest_major() {
    let a = action(vec![version("v4.1.0", false, false), version("v4", true, true), version("v3", false, true)]);
    assert_eq!(a.action_ref(None), "actions/checkout@v4");
}

#[test]
fn action_ref_falls_back_to_first_then_main() {
    let a = action(vec![version("v4.1.0", false, false), version("v4", false, true)]);
    assert_eq!(a.action_ref(None), "actions/checkout@v4.1.0");
    assert_eq!(action(vec![]).action_ref(None), "actions/checkout@main");
}

#[test]
fn major_versions() {
    assert!(is_major_version("v4"));
    assert!(is_major_version("4"));
    assert!(is_major_version("vv4"));
    assert!(is_major_version(""));
    assert!(!is_major_version("v4.1.0"));
    assert!(!is_major_version("v.1"));
    assert!(is_major_version("release-v2"));
}

fn tag(name: &str, sha: &str) -> TagRef {
    TagRef { name: name.to_string(), commit_sha: sha.to_string() }
}

#[test]
fn versions_mark_first_major_latest() {
    let vs = versions_from_tags(vec![tag("v4.2.0", "a"), tag("v4", "b"), tag("v3", "c"), tag("v3.9", "d")]);
    assert_eq!(vs.len(), 4);
    assert_eq!(vs[0].tag, "v4.2.0");
    assert!(!vs[0].is_major && !vs[0].is_latest);
    assert!(vs[1].is_major && vs[1].is_latest);
    assert!(vs[2].is_major && !vs[2].is_latest);
    assert_eq!(vs[2].commit_sha.as_deref(), Some("c"));
    assert!(vs.iter().all(|v| v.released_at.is_none()));
    assert_eq!(vs.iter().filter(|v| v.is_latest).count(), 1);
}

#[test]
fn versions_without_major_have_no_latest() {
    let vs = versions_from_tags(vec![tag("v1.0.0", "a"), tag("v1.1.0", "b")]);
    assert!(vs.iter().all(|v| !v.is_latest));
    assert!(versions_from_tags(vec![]).is_empty());
}

#[test]
fn search_query_and_urls() {
    assert_eq!(search_query("docker"), "docker topic:github-actions OR topic:action in:name,description");
    assert_eq!(repository_url("o", "r"), "https://api.github.com/repos/o/r");
    assert_eq!(tags_url("o", "r"), "https://api.github.com/repos/o/r/tags");
}

#[test]
fn search_result_has_more() {
    assert!(search_result(31, vec![], 1, 30).has_more);
    assert!(!search_result(30, vec![], 1, 30).has_more);
    assert!(!search_result(0, vec![], 0, 30).has_more);
    assert!(search_result(61, vec![], 2, 30).next_cursor.is_none());
}

#[test]
fn action_from_repo_fills_defaults() {
    let repo = RepoSummary {
        full_name: "docker/build-push-action".to_string(),
        name: "build-push-action".to_string(),
        owner_login: "docker".to_string(),
        description: None,
        stargazers_count: 42,
        updated_at: Some(Timestamp::new(1_700_000_000, 0)),
        topics: None,
    };
    let a = MarketplaceAction::from_repo(repo, vec![]);
    assert_eq!(a.full_name, "docker/build-push-action");
    assert_eq!(a.name, "docker/build-push-action");
    assert_eq!(a.owner, "docker");
    assert_eq!(a.repo, "build-push-action");
    assert_eq!(a.description, "");
    assert_eq!(a.stars, 42);
    assert_eq!(a.updated_at, Timestamp::new(1_700_000_000, 0));
    assert!(a.categories.is_empty());
    assert!(!a.verified);
    assert!(a.metadata.is_none());
}

#[test]
fn action_from_repo_without_update_time_uses_now() {
    let repo = RepoSummary {
        full_name: "a/b".to_string(),
        name: "b".to_string(),
        owner_login: "a".to_string(),
        description: Some("d".to_string()),
        stargazers_count: 0,
        updated_at: None,
        topics: Some(vec!["ci".to_string()]),
    };
    let a = MarketplaceAction::from_repo(repo, vec![]);
    assert!(a.updated_at.secs > 1_600_000_000);
    assert_eq!(a.description, "d");
    assert_eq!(a.categories, vec!["ci".to_string()]);
}

#[test]
fn featured_refs_split_owner_and_repo() {
    let refs = featured_action_refs();
    assert_eq!(refs.len(), 10);
    assert_eq!(refs[0], ("actions".to_string(), "checkout".to_string()));
    assert_eq!(refs[8], ("JamesIves".to_string(), "github-pages-deploy-action".to_string()));
    assert_eq!(refs[9], ("docker".to_string(), "build-push-action".to_string()));
}

#[test]
fn reference_from_tags_uses_first_major_tag() {
    let versions = versions_from_tags(vec![tag("v4.1.0", "a"), tag("v4", "b"), tag("v3", "c")]);
    assert_eq!(action(versions).action_ref(None), "actions/checkout@v4");
    let versions = versions_from_tags(vec![tag("v1.2.3", "a"), tag("v1.2.2", "b")]);
    assert_eq!(action(versions).action_ref(None), "actions/checkout@v1.2.3");
    assert_eq!(action(versions_from_tags(vec![])).action_ref(None), "actions/checkout@main");
}

#[test]
fn name_comes_from_the_action_metadata() {
    let repo = RepoSummary {
        full_name: "docker/build-push-action".to_string(),
        name: "build-push-action".to_string(),
        owner_login: "docker".to_string(),
        description: None,
        stargazers_count: 1,
        updated_at: Some(Timestamp::new(0, 0)),
        topics: None,
    };
    let a = MarketplaceAction::from_repo(repo, vec![]);
    let meta = ActionMetadata {
        name: "Build and push Docker images".to_string(),
        description: "d".to_string(),
        author: None,
        inputs: StrMap::new(),
        outputs: StrMap::new(),
        runs: ActionRuns::default(),
        branding: None,
    };
    let a = a.with_metadata(meta);
    assert_eq!(a.name, "Build and push Docker images");
    assert_eq!(a.full_name, "docker/build-push-action");
    assert_eq!(a.metadata.as_ref().map(|m| m.description.as_str()), Some("d"));
}

#[test]
fn featured_list_keeps_successful_lookups_in_order() {
    let lookups: Vec<Result<&str, String>> =
        vec![Ok("a"), Err("404".to_string()), Ok("b"), Err("500".to_string()), Ok("c")];
    assert_eq!(successful_lookups(lookups), vec!["a", "b", "c"]);
    assert_eq!(successful_lookups::<u8, ()>(vec![Err(()), Err(())]), Vec::<u8>::new());
}

#[test]
fn search_replies_become_actions_in_order() {
    let repo = |full: &str, name: &str| RepoSummary {
        full_name: full.to_string(),
        name: name.to_string(),
        owner_login: "o".to_string(),
        description: None,
        stargazers_count: 7,
        updated_at: Some(Timestamp::new(5, 0)),
        topics: None,
    };
    let actions = actions_from_search(vec![repo("o/a", "a"), repo("o/b", "b")]);
    assert_eq!(actions.len(), 2);
    assert_eq!((actions[0].full_name.as_str(), actions[0].name.as_str(), actions[0].repo.as_str()), ("o/a", "o/a", "a"));
    assert_eq!((actions[1].full_name.as_str(), actions[1].name.as_str(), actions[1].stars), ("o/b", "o/b", 7));
    assert!(actions.iter().all(|a| a.versions.is_empty() && a.metadata.is_none()));
}
