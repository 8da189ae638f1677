//! Marketplace models: actions, their versions, search results, and
//! repository, organization and token information.

use crate::models::action::ActionMetadata;
use crate::time::Timestamp;
use vstd::prelude::*;

verus! {

/// A GitHub Action from the marketplace.
#[derive(Debug, Clone)]
pub struct MarketplaceAction {
    /// Full action reference (owner/repo).
    pub full_name: String,
    /// Repository owner.
    pub owner: String,
    /// Repository name.
    pub repo: String,
    /// Action name: as its action.yml declares it once that file has been
    /// read, until then the repository's full name.
    pub name: String,
    /// Action description.
    pub description: String,
    /// Available versions/tags.
    pub versions: Vec<ActionVersion>,
    /// Star count.
    pub stars: u32,
    /// Last updated.
    pub updated_at: Timestamp,
    /// Verified creator badge.
    pub verified: bool,
    /// Categories/topics.
    pub categories: Vec<String>,
    /// Action metadata, if fetched.
    pub metadata: Option<ActionMetadata>,
}

/// A version (tag) of an action.
#[derive(Debug, Clone)]
pub struct ActionVersion {
    /// Version tag (e.g. "v4", "v4.1.0").
    pub tag: String,
    /// Whether this is the latest version.
    pub is_latest: bool,
    /// Whether this is a major version tag (e.g. "v4" rather than "v4.1.0").
    pub is_major: bool,
    /// Release date.
    pub released_at: Option<Timestamp>,
    /// Commit SHA this version points to.
    pub commit_sha: Option<String>,
}

/// A page of marketplace search results.
#[derive(Debug, Clone)]
pub struct MarketplaceSearchResult {
    /// Total count of matching actions.
    pub total_count: u32,
    /// The results on this page.
    pub items: Vec<MarketplaceAction>,
    /// Whether there are more results.
    pub has_more: bool,
    /// Next page cursor.
    pub next_cursor: Option<String>,
}

/// GitHub repository info.
#[derive(Debug, Clone)]
pub struct RepositoryInfo {
    /// Full repository name (owner/repo).
    pub full_name: String,
    /// Repository owner.
    pub owner: String,
    /// Repository name.
    pub name: String,
    /// Whether it is a private repository.
    pub private: bool,
    /// Default branch.
    pub default_branch: String,
    /// Repository description.
    pub description: Option<String>,
    /// Topics/tags.
    pub topics: Vec<String>,
}

/// GitHub organization info.
#[derive(Debug, Clone)]
pub struct OrganizationInfo {
    /// Organization login name.
    pub login: String,
    /// Display name.
    pub name: Option<String>,
    /// Description.
    pub description: Option<String>,
    /// Available secrets (names only).
    pub secrets: Vec<String>,
    /// Available variables (names only).
    pub variables: Vec<String>,
}

/// Authentication token info.
#[derive(Debug, Clone)]
pub struct TokenInfo {
    /// Token scopes.
    pub scopes: Vec<String>,
    /// Token expiration, if any.
    pub expires_at: Option<Timestamp>,
    /// User associated with the token.
    pub user: String,
    /// Rate limit remaining.
    pub rate_limit_remaining: u32,
    /// Rate limit reset time.
    pub rate_limit_reset: Timestamp,
}

/// Popular/featured actions for quick access.
#[derive(Debug, Clone)]
pub struct FeaturedActions {
    /// Checkout and setup actions.
    pub setup: Vec<MarketplaceAction>,
    /// Build and test actions.
    pub build: Vec<MarketplaceAction>,
    /// Deployment actions.
    pub deploy: Vec<MarketplaceAction>,
    /// Utility actions.
    pub utility: Vec<MarketplaceAction>,
}

/// Both the latest and a major version.
pub open spec fn is_latest_major(v: ActionVersion) -> bool {
    v.is_latest && v.is_major
}

/// No version before position `i` is both latest and major.
pub open spec fn none_latest_major_before(versions: Seq<ActionVersion>, i: int) -> bool {
    forall|j: int| 0 <= j < i ==> !is_latest_major(#[trigger] versions[j])
}

/// Some version is both latest and major.
pub open spec fn has_latest_major(versions: Seq<ActionVersion>) -> bool {
    exists|i: int| 0 <= i < versions.len() && is_latest_major(#[trigger] versions[i])
}

/// The first version that is both latest and major.
pub open spec fn first_latest_major(versions: Seq<ActionVersion>) -> int {
    choose|i: int|
        0 <= i < versions.len() && is_latest_major(#[trigger] versions[i]) && none_latest_major_before(
            versions,
            i,
        )
}

/// The version a workflow should refer to: the one asked for; else the
/// first latest major version; else the first version; else `main`.
pub open spec fn chosen_version(versions: Seq<ActionVersion>, version: Option<Seq<char>>) -> Seq<char> {
    match version {
        Some(v) => v,
        None => if has_latest_major(versions) {
            versions[first_latest_major(versions)].tag@
        } else if versions.len() > 0 {
            versions[0].tag@
        } else {
            "main"@
        },
    }
}

impl MarketplaceAction {
    /// The action reference for a workflow, e.g. `actions/checkout@v4`.
    pub fn action_ref(&self, version: Option<&str>) -> (r: String)
        ensures
            r@ == self.full_name@ + "@"@ + chosen_version(
                self.versions@,
                match version {
                    Some(v) => Some(v@),
                    None => None,
                },
            ),
    {
        let mut r = String::new();
        r.push_str(self.full_name.as_str());
        r.push_str("@");
        match version {
            Some(v) => {
                r.push_str(v);
            },
            None => {
                let n = self.versions.len();
                let mut found: Option<usize> = None;
                let mut i: usize = 0;
                while i < n
                    invariant
                        n == self.versions@.len(),
                        i <= n,
                        found is None ==> none_latest_major_before(self.versions@, i as int),
                        found matches Some(k) ==> k < n && is_latest_major(self.versions@[k as int])
                            && none_latest_major_before(self.versions@, k as int),
                    decreases n - i,
                {
                    if found.is_none() && self.versions[i].is_latest && self.versions[i].is_major {
                        found = Some(i);
                    }
                    i = i + 1;
                }
                match found {
                    Some(k) => {
                        proof {
                            let f = first_latest_major(self.versions@);
                            assert(is_latest_major(self.versions@[k as int]));
                            if f != k as int {
                                if f < k {
                                    assert(!is_latest_major(self.versions@[f]));
                                } else {
                                    assert(!is_latest_major(self.versions@[k as int]));
                                }
                            }
                        }
                        r.push_str(self.versions[k].tag.as_str());
                    },
                    None => {
                        if n > 0 {
                            r.push_str(self.versions[0].tag.as_str());
                        } else {
                            r.push_str("main");
                        }
                    },
                }
            },
        }
        proof {
            let v = match version {
                Some(v) => Some(v@),
                None => None,
            };
            assert(r@ =~= self.full_name@ + "@"@ + chosen_version(self.versions@, v));
        }
        r
    }
}

} // verus!
