use github_actions_editor::cache::entries::search_key_from_lowercase;
use github_actions_editor::cache::{CacheKeys, CacheTTL};

#[test]
fn marketplace_search_key_lowercases_and_joins_words() {
    assert_eq!(
        CacheKeys::marketplace_search("Setup Node JS", 2),
        "marketplace_search_setup_node_js_2"
    );
}

#[test]
fn marketplace_search_key_lowercases_non_ascii() {
    assert_eq!(CacheKeys::marketplace_search("ÄRGER", 10), "marketplace_search_ärger_10");
}

#[test]
fn marketplace_search_key_page_zero_and_large() {
    assert_eq!(CacheKeys::marketplace_search("", 0), "marketplace_search__0");
    assert_eq!(CacheKeys::marketplace_search("x", u32::MAX), "marketplace_search_x_4294967295");
}

#[test]
fn action_metadata_key_with_and_without_version() {
    assert_eq!(
        CacheKeys::action_metadata("actions", "checkout", Some("v4")),
        "action_metadata_actions_checkout_v4"
    );
    assert_eq!(
        CacheKeys::action_metadata("actions", "checkout", None),
        "action_metadata_actions_checkout_latest"
    );
}

#[test]
fn owner_repo_keys() {
    assert_eq!(CacheKeys::action_versions("o", "r"), "action_versions_o_r");
    assert_eq!(CacheKeys::repository_info("o", "r"), "repo_info_o_r");
    assert_eq!(CacheKeys::repository_secrets("o", "r"), "repo_secrets_o_r");
    assert_eq!(CacheKeys::repository_variables("o", "r"), "repo_vars_o_r");
}

#[test]
fn fixed_and_org_keys() {
    assert_eq!(CacheKeys::user_repositories(), "user_repositories");
    assert_eq!(CacheKeys::featured_actions(), "featured_actions");
    assert_eq!(CacheKeys::organization_info("acme"), "org_info_acme");
}

#[test]
fn ttl_values() {
    assert_eq!(CacheTTL::marketplace_search().secs, 15 * 60);
    assert_eq!(CacheTTL::action_metadata().secs, 3600);
    assert_eq!(CacheTTL::action_versions().secs, 30 * 60);
    assert_eq!(CacheTTL::repository_info().secs, 30 * 60);
    assert_eq!(CacheTTL::secrets_and_variables().secs, 5 * 60);
    assert_eq!(CacheTTL::user_repositories().secs, 15 * 60);
    assert_eq!(CacheTTL::featured_actions().secs, 86400);
    assert_eq!(CacheTTL::organization_info().secs, 3600);
    assert_eq!(CacheTTL::stale_grace_period().secs, 3600);
    assert_eq!(CacheTTL::stale_grace_period().nanos, 0);
    assert_eq!(CacheTTL::featured_actions().num_seconds(), 86400);
}

#[test]
fn search_key_from_lowercase_query() {
    assert_eq!(search_key_from_lowercase("setup node", 3), "marketplace_search_setup_node_3");
    assert_eq!(search_key_from_lowercase("a  b", 0), "marketplace_search_a__b_0");
}
