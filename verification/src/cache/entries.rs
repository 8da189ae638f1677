//! Cache keys and time-to-live values for the kinds of cached data.

use crate::text::{concat2, decimal, push_decimal, replace_char, replace_char_in};
use crate::time::Span;
use vstd::prelude::*;

verus! {

/// What `str::to_lowercase` makes of a string: the Unicode lowercase mapping
/// (a character may map to several, and a final capital sigma maps by its
/// context). It depends on the string alone.
pub uninterp spec fn unicode_lowercase(s: Seq<char>) -> Seq<char>;

/// `str::to_lowercase`: the result is named, not described.
#[verifier::external_body]
fn to_lowercase(s: &str) -> (r: String)
    ensures
        r@ == unicode_lowercase(s@),
{
    s.to_lowercase()
}

/// Cache key generators.
pub struct CacheKeys;

/// The key under which a marketplace search is cached, from the query
/// already in lowercase.
pub open spec fn search_key_of_lowercase(lower: Seq<char>, page: nat) -> Seq<char> {
    "marketplace_search_"@ + replace_char(lower, ' ', '_') + "_"@ + decimal(page)
}

/// The key under which a marketplace search is cached.
pub open spec fn marketplace_search_key(query: Seq<char>, page: nat) -> Seq<char> {
    search_key_of_lowercase(unicode_lowercase(query), page)
}

/// The cache key of a marketplace search whose query has already been put
/// in lowercase: spaces become `_`, then `_` and the page number follow.
pub fn search_key_from_lowercase(lower: &str, page: u32) -> (k: String)
    ensures
        k@ == search_key_of_lowercase(lower@, page as nat),
{
    let mut k = String::new();
    k.push_str("marketplace_search_");
    k.push_str(replace_char_in(lower, ' ', '_').as_str());
    k.push_str("_");
    push_decimal(&mut k, page as u64);
    proof {
        assert(k@ =~= search_key_of_lowercase(lower@, page as nat));
    }
    k
}

/// `prefix` followed by `owner`, `_` and `repo`.
pub open spec fn owner_repo_key(prefix: Seq<char>, owner: Seq<char>, repo: Seq<char>) -> Seq<char> {
    prefix + owner + "_"@ + repo
}

/// Builds `prefix owner _ repo`.
fn owner_repo(prefix: &str, owner: &str, repo: &str) -> (r: String)
    ensures
        r@ == owner_repo_key(prefix@, owner@, repo@),
{
    let mut r = String::new();
    r.push_str(prefix);
    r.push_str(owner);
    r.push_str("_");
    r.push_str(repo);
    proof {
        assert(r@ =~= owner_repo_key(prefix@, owner@, repo@));
    }
    r
}

impl CacheKeys {
    /// Key for marketplace search results.
    pub fn marketplace_search(query: &str, page: u32) -> (k: String)
        ensures
            k@ == marketplace_search_key(query@, page as nat),
    {
        let lower = to_lowercase(query);
        search_key_from_lowercase(lower.as_str(), page)
    }

    /// Key for action metadata: a missing version stands for `latest`.
    pub fn action_metadata(owner: &str, repo: &str, version: Option<&str>) -> (k: String)
        ensures
            k@ == owner_repo_key("action_metadata_"@, owner@, repo@) + "_"@ + match version {
                Some(v) => v@,
                None => "latest"@,
            },
    {
        let mut k = owner_repo("action_metadata_", owner, repo);
        k.push_str("_");
        match version {
            Some(v) => k.push_str(v),
            None => k.push_str("latest"),
        }
        k
    }

    /// Key for action versions.
    pub fn action_versions(owner: &str, repo: &str) -> (k: String)
        ensures
            k@ == owner_repo_key("action_versions_"@, owner@, repo@),
    {
        owner_repo("action_versions_", owner, repo)
    }

    /// Key for repository info.
    pub fn repository_info(owner: &str, repo: &str) -> (k: String)
        ensures
            k@ == owner_repo_key("repo_info_"@, owner@, repo@),
    {
        owner_repo("repo_info_", owner, repo)
    }

    /// Key for a repository's list of secrets.
    pub fn repository_secrets(owner: &str, repo: &str) -> (k: String)
        ensures
            k@ == owner_repo_key("repo_secrets_"@, owner@, repo@),
    {
        owner_repo("repo_secrets_", owner, repo)
    }

    /// Key for a repository's list of variables.
    pub fn repository_variables(owner: &str, repo: &str) -> (k: String)
        ensures
            k@ == owner_repo_key("repo_vars_"@, owner@, repo@),
    {
        owner_repo("repo_vars_", owner, repo)
    }

    /// Key for the user's repositories.
    pub fn user_repositories() -> (k: String)
        ensures
            k@ == "user_repositories"@,
    {
        "user_repositories".to_owned()
    }

    /// Key for featured actions.
    pub fn featured_actions() -> (k: String)
        ensures
            k@ == "featured_actions"@,
    {
        "featured_actions".to_owned()
    }

    /// Key for organization info.
    pub fn organization_info(org: &str) -> (k: String)
        ensures
            k@ == "org_info_"@ + org@,
    {
        concat2("org_info_", org)
    }
}

/// How long each kind of data stays fresh in the cache.
pub struct CacheTTL;

impl CacheTTL {
    /// Marketplace search results: 15 minutes.
    pub fn marketplace_search() -> (d: Span)
        ensures
            d.wf(),
            d.total_nanos() == 15 * 60 * 1_000_000_000,
    {
        Span::from_seconds(15 * 60)
    }

    /// Action metadata: 1 hour.
    pub fn action_metadata() -> (d: Span)
        ensures
            d.wf(),
            d.total_nanos() == 60 * 60 * 1_000_000_000,
    {
        Span::from_seconds(60 * 60)
    }

    /// Action versions: 30 minutes.
    pub fn action_versions() -> (d: Span)
        ensures
            d.wf(),
            d.total_nanos() == 30 * 60 * 1_000_000_000,
    {
        Span::from_seconds(30 * 60)
    }

    /// Repository info: 30 minutes.
    pub fn repository_info() -> (d: Span)
        ensures
            d.wf(),
            d.total_nanos() == 30 * 60 * 1_000_000_000,
    {
        Span::from_seconds(30 * 60)
    }

    /// Secrets and variables lists: 5 minutes, as they are sensitive.
    pub fn secrets_and_variables() -> (d: Span)
        ensures
            d.wf(),
            d.total_nanos() == 5 * 60 * 1_000_000_000,
    {
        Span::from_seconds(5 * 60)
    }

    /// The user's repositories: 15 minutes.
    pub fn user_repositories() -> (d: Span)
        ensures
            d.wf(),
            d.total_nanos() == 15 * 60 * 1_000_000_000,
    {
        Span::from_seconds(15 * 60)
    }

    /// Featured actions: 1 day.
    pub fn featured_actions() -> (d: Span)
        ensures
            d.wf(),
            d.total_nanos() == 24 * 60 * 60 * 1_000_000_000,
    {
        Span::from_seconds(24 * 60 * 60)
    }

    /// Organization info: 1 hour.
    pub fn organization_info() -> (d: Span)
        ensures
            d.wf(),
            d.total_nanos() == 60 * 60 * 1_000_000_000,
    {
        Span::from_seconds(60 * 60)
    }

    /// How long stale data may still be served while it is refreshed: 1 hour.
    pub fn stale_grace_period() -> (d: Span)
        ensures
            d.wf(),
            d.total_nanos() == 60 * 60 * 1_000_000_000,
    {
        Span::from_seconds(60 * 60)
    }
}

} // verus!
