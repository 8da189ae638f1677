//! Marketplace discovery: what a search asks for, how repositories and tags
//! from the GitHub API become marketplace actions and versions.

use crate::models::action::ActionMetadata;
use crate::models::marketplace::{
    chosen_version, first_latest_major, has_latest_major, is_latest_major, ActionVersion, MarketplaceAction,
    MarketplaceSearchResult,
};
use crate::text::{contains_after_leading, split_spec, split_str, strip_leading};
use crate::time::{utc_now, Timestamp};
use vstd::prelude::*;

verus! {

/// A version tag is a major version when, past its leading `v`s, it holds no
/// `.` (`v4` is, `v4.1.0` is not).
pub open spec fn spec_is_major_version(tag: Seq<char>) -> bool {
    !strip_leading(tag, 'v').contains('.')
}

/// Check if a version tag is a major version (e.g. "v4" vs "v4.1.0").
pub fn is_major_version(tag: &str) -> (b: bool)
    ensures
        b == spec_is_major_version(tag@),
{
    !contains_after_leading(tag, 'v', '.')
}

/// A tag of a repository and the commit it points to.
#[derive(Debug, Clone)]
pub struct TagRef {
    pub name: String,
    pub commit_sha: String,
}

/// No tag before position `i` is a major version.
pub open spec fn no_major_before(tags: Seq<TagRef>, i: int) -> bool {
    forall|j: int| 0 <= j < i ==> !spec_is_major_version(#[trigger] tags[j].name@)
}

/// `versions` are the versions of an action with these tags, in the order
/// the API lists them: each keeps its tag and commit, is marked major by
/// `is_major_version`, and the first major one is marked latest.
pub open spec fn versions_of_tags(tags: Seq<TagRef>, versions: Seq<ActionVersion>) -> bool {
    &&& versions.len() == tags.len()
    &&& forall|i: int|
        0 <= i < versions.len() ==> {
            let v = #[trigger] versions[i];
            &&& v.tag@ == tags[i].name@
            &&& v.commit_sha matches Some(c) && c@ == tags[i].commit_sha@
            &&& v.released_at is None
            &&& v.is_major == spec_is_major_version(tags[i].name@)
            &&& v.is_latest == (v.is_major && no_major_before(tags, i))
        }
}

/// The versions of an action, from its tags in the order the API lists them.
pub fn versions_from_tags(tags: Vec<TagRef>) -> (versions: Vec<ActionVersion>)
    ensures
        versions_of_tags(tags@, versions@),
{
    let ghost all = tags@;
    let mut versions: Vec<ActionVersion> = Vec::new();
    let mut seen_major = false;
    let mut rest = tags;
    let ghost mut done: int = 0;
    while rest.len() > 0
        invariant
            0 <= done <= all.len(),
            rest@ == all.subrange(done, all.len() as int),
            versions@.len() == done,
            seen_major == !no_major_before(all, done),
            forall|i: int|
                0 <= i < done ==> {
                    let v = #[trigger] versions@[i];
                    &&& v.tag@ == all[i].name@
                    &&& v.commit_sha matches Some(c) && c@ == all[i].commit_sha@
                    &&& v.released_at is None
                    &&& v.is_major == spec_is_major_version(all[i].name@)
                    &&& v.is_latest == (v.is_major && no_major_before(all, i))
                },
        decreases rest@.len(),
    {
        let tag = rest.remove(0);
        proof {
            assert(tag == all[done]);
        }
        let is_major = is_major_version(tag.name.as_str());
        let is_latest = is_major && !seen_major;
        if is_major {
            seen_major = true;
        }
        versions.push(
            ActionVersion {
                tag: tag.name,
                is_latest,
                is_major,
                released_at: None,
                commit_sha: Some(tag.commit_sha),
            },
        );
        proof {
            done = done + 1;
            assert(rest@ =~= all.subrange(done, all.len() as int));
            if !seen_major {
                assert(no_major_before(all, done));
            } else if is_major {
                assert(!spec_is_major_version(all[done - 1].name@) == false);
            } else {
                let j = choose|j: int| 0 <= j < done - 1 && spec_is_major_version(#[trigger] all[j].name@);
                assert(!no_major_before(all, done) ) by {
                    assert(spec_is_major_version(all[j].name@));
                }
            }
        }
    }
    versions
}

/// At most one version is marked latest, and when some version is major,
/// exactly the first major one is.
pub proof fn law_one_latest_version(tags: Seq<TagRef>, versions: Seq<ActionVersion>)
    requires
        versions_of_tags(tags, versions),
    ensures
        forall|i: int, j: int|
            0 <= i < versions.len() && 0 <= j < versions.len() && #[trigger] versions[i].is_latest
                && #[trigger] versions[j].is_latest ==> i == j,
        forall|i: int| 0 <= i < versions.len() && #[trigger] versions[i].is_latest ==> versions[i].is_major,
{
    assert forall|i: int, j: int|
        0 <= i < versions.len() && 0 <= j < versions.len() && #[trigger] versions[i].is_latest
            && #[trigger] versions[j].is_latest implies i == j by {
        if i < j {
            assert(!spec_is_major_version(tags[i].name@));
        } else if j < i {
            assert(!spec_is_major_version(tags[j].name@));
        }
    }
}

/// An action whose versions were read from its tags is referred to, when no
/// version is asked for, by its first major tag.
pub proof fn law_reference_uses_first_major_tag(tags: Seq<TagRef>, versions: Seq<ActionVersion>, i: int)
    requires
        versions_of_tags(tags, versions),
        0 <= i < tags.len(),
        spec_is_major_version(tags[i].name@),
        no_major_before(tags, i),
    ensures
        chosen_version(versions, None) == tags[i].name@,
{
    law_one_latest_version(tags, versions);
    assert(is_latest_major(versions[i]));
    assert(has_latest_major(versions));
    let j = first_latest_major(versions);
    assert(versions[j].is_latest && versions[i].is_latest);
}

/// Without a major tag, an action whose versions were read from its tags is
/// referred to by its first tag, and without tags by `main`.
pub proof fn law_reference_without_major_tag(tags: Seq<TagRef>, versions: Seq<ActionVersion>)
    requires
        versions_of_tags(tags, versions),
        no_major_before(tags, tags.len() as int),
    ensures
        chosen_version(versions, None) == if tags.len() > 0 {
            tags[0].name@
        } else {
            "main"@
        },
{
    assert(!has_latest_major(versions)) by {
        if has_latest_major(versions) {
            let k = choose|k: int| 0 <= k < versions.len() && is_latest_major(#[trigger] versions[k]);
            assert(!spec_is_major_version(tags[k].name@));
        }
    }
}

/// `k` letters `v`.
pub open spec fn v_prefix(k: nat) -> Seq<char> {
    Seq::new(k, |i: int| 'v')
}

proof fn lemma_strip_v_prefix(k: nat, rest: Seq<char>)
    requires
        rest.len() == 0 || rest[0] != 'v',
    ensures
        strip_leading(v_prefix(k) + rest, 'v') == rest,
    decreases k,
{
    if k == 0 {
        assert(v_prefix(0) + rest =~= rest);
        if rest.len() > 0 {
            assert(rest[0] != 'v');
        }
    } else {
        let t = v_prefix(k) + rest;
        assert(t[0] == 'v');
        assert(t.drop_first() =~= v_prefix((k - 1) as nat) + rest);
        lemma_strip_v_prefix((k - 1) as nat, rest);
    }
}

/// A tag is a major version exactly when, after its leading `v`s, no `.`
/// occurs anywhere in it: `v10`, `4` and `vv2` are, `v10.1.0`, `v4.1` and
/// `v1-rc.2` are not.
pub proof fn law_major_iff_no_dot_after_v_prefix(k: nat, rest: Seq<char>)
    requires
        rest.len() == 0 || rest[0] != 'v',
    ensures
        spec_is_major_version(v_prefix(k) + rest) == (forall|i: int| 0 <= i < rest.len() ==> rest[i] != '.'),
{
    lemma_strip_v_prefix(k, rest);
    if !(forall|i: int| 0 <= i < rest.len() ==> rest[i] != '.') {
        let i = choose|i: int| 0 <= i < rest.len() && rest[i] == '.';
        assert(rest.contains('.'));
    }
}

/// Tags past their leading `v`s decide alike: `v` prefixes do not matter.
pub proof fn law_major_ignores_v_prefix(tag: Seq<char>)
    ensures
        spec_is_major_version(seq!['v'] + tag) == spec_is_major_version(tag),
{
    assert((seq!['v'] + tag).drop_first() =~= tag);
}

/// The query sent to the repository search for marketplace actions.
pub open spec fn spec_search_query(query: Seq<char>) -> Seq<char> {
    query + " topic:github-actions OR topic:action in:name,description"@
}

/// The query sent to the repository search for marketplace actions.
pub fn search_query(query: &str) -> (q: String)
    ensures
        q@ == spec_search_query(query@),
{
    let mut q = String::new();
    q.push_str(query);
    q.push_str(" topic:github-actions OR topic:action in:name,description");
    q
}

/// The API address of a repository.
pub fn repository_url(owner: &str, repo: &str) -> (u: String)
    ensures
        u@ == "https://api.github.com/repos/"@ + owner@ + "/"@ + repo@,
{
    let mut u = String::new();
    u.push_str("https://api.github.com/repos/");
    u.push_str(owner);
    u.push_str("/");
    u.push_str(repo);
    proof {
        assert(u@ =~= "https://api.github.com/repos/"@ + owner@ + "/"@ + repo@);
    }
    u
}

/// The API address of a repository's tags.
pub fn tags_url(owner: &str, repo: &str) -> (u: String)
    ensures
        u@ == "https://api.github.com/repos/"@ + owner@ + "/"@ + repo@ + "/tags"@,
{
    let mut u = repository_url(owner, repo);
    u.push_str("/tags");
    u
}

/// A page of search results: more results exist when the total count
/// exceeds the number of results up to and including this page.
pub fn search_result(total_count: u32, items: Vec<MarketplaceAction>, page: u32, per_page: u32) -> (r:
    MarketplaceSearchResult)
    requires
        page * per_page <= u32::MAX,
    ensures
        r.total_count == total_count,
        r.items == items,
        r.has_more == (total_count > page * per_page),
        r.next_cursor is None,
{
    MarketplaceSearchResult {
        total_count,
        items,
        has_more: total_count > page * per_page,
        next_cursor: None,
    }
}

/// What the API reports of a repository that may hold an action.
#[derive(Debug, Clone)]
pub struct RepoSummary {
    pub full_name: String,
    pub name: String,
    pub owner_login: String,
    pub description: Option<String>,
    pub stargazers_count: u32,
    pub updated_at: Option<Timestamp>,
    pub topics: Option<Vec<String>>,
}

/// `a` is the marketplace action for `repo` with `versions`: named by the
/// repository's full name (until its action.yml is read), a missing
/// description empty, missing topics no categories, a missing update time
/// some proper instant (the clock's), not verified, no metadata yet.
pub open spec fn built_from_repo(repo: RepoSummary, versions: Seq<ActionVersion>, a: MarketplaceAction) -> bool {
    &&& a.full_name == repo.full_name
    &&& a.name == repo.full_name
    &&& a.owner == repo.owner_login
    &&& a.repo == repo.name
    &&& a.description@ == match repo.description {
        Some(d) => d@,
        None => Seq::<char>::empty(),
    }
    &&& a.versions@ == versions
    &&& a.stars == repo.stargazers_count
    &&& (repo.updated_at matches Some(t) ==> a.updated_at == t)
    &&& (repo.updated_at is None ==> a.updated_at.wf())
    &&& !a.verified
    &&& a.categories@ == match repo.topics {
        Some(t) => t@,
        None => Seq::<String>::empty(),
    }
    &&& a.metadata is None
}

/// The actions of a page of search results, one for each repository in
/// order, with their versions not yet fetched.
pub fn actions_from_search(repos: Vec<RepoSummary>) -> (actions: Vec<MarketplaceAction>)
    ensures
        actions@.len() == repos@.len(),
        forall|i: int|
            0 <= i < repos@.len() ==> built_from_repo(repos@[i], Seq::empty(), #[trigger] actions@[i]),
{
    let ghost all = repos@;
    let mut actions: Vec<MarketplaceAction> = Vec::new();
    let mut rest = repos;
    let ghost mut done: int = 0;
    while rest.len() > 0
        invariant
            0 <= done <= all.len(),
            rest@ == all.subrange(done, all.len() as int),
            actions@.len() == done,
            forall|i: int| 0 <= i < done ==> built_from_repo(all[i], Seq::empty(), #[trigger] actions@[i]),
        decreases rest@.len(),
    {
        let repo = rest.remove(0);
        proof {
            assert(repo == all[done]);
        }
        let a = MarketplaceAction::from_repo(repo, Vec::new());
        actions.push(a);
        proof {
            done = done + 1;
            assert(rest@ =~= all.subrange(done, all.len() as int));
        }
    }
    actions
}

impl MarketplaceAction {
    /// The marketplace action for a repository, with the given versions. Its
    /// name is the repository's full name until its action.yml has been read
    /// (see `with_metadata`). A missing update time is read from the clock; a
    /// missing description is empty; missing topics are no categories.
    pub fn from_repo(repo: RepoSummary, versions: Vec<ActionVersion>) -> (a: MarketplaceAction)
        ensures
            built_from_repo(repo, versions@, a),
    {
        let updated_at = match repo.updated_at {
            Some(t) => t,
            None => utc_now(),
        };
        let description = match repo.description {
            Some(d) => d,
            None => String::new(),
        };
        let categories = match repo.topics {
            Some(t) => t,
            None => Vec::new(),
        };
        MarketplaceAction {
            full_name: repo.full_name.clone(),
            owner: repo.owner_login,
            repo: repo.name,
            name: repo.full_name,
            description,
            versions,
            stars: repo.stargazers_count,
            updated_at,
            verified: false,
            categories,
            metadata: None,
        }
    }

    /// The action once its action.yml has been read: the name is the one the
    /// file declares, and the metadata is kept; everything else is unchanged.
    pub fn with_metadata(self, metadata: ActionMetadata) -> (a: MarketplaceAction)
        ensures
            a == (MarketplaceAction { name: metadata.name, metadata: Some(metadata), ..self }),
    {
        let name = metadata.name.clone();
        MarketplaceAction { name, metadata: Some(metadata), ..self }
    }
}

/// The owner and repository of each well-known action whose reference splits
/// at `/` into exactly two parts, in list order.
pub open spec fn owner_repo_pairs(refs: Seq<Seq<char>>) -> Seq<(Seq<char>, Seq<char>)>
    decreases refs.len(),
{
    if refs.len() == 0 {
        Seq::empty()
    } else {
        let parts = split_spec(refs.last(), "/"@);
        let before = owner_repo_pairs(refs.drop_last());
        if parts.len() == 2 {
            before.push((parts[0], parts[1]))
        } else {
            before
        }
    }
}

/// The values of the lookups that succeeded, in order.
pub open spec fn successes<T, E>(results: Seq<Result<T, E>>) -> Seq<T>
    decreases results.len(),
{
    if results.len() == 0 {
        Seq::empty()
    } else {
        let before = successes(results.drop_last());
        match results.last() {
            Ok(v) => before.push(v),
            Err(_) => before,
        }
    }
}

/// The featured list from the lookups of the popular actions: those that
/// succeeded, in order; a failed lookup is left out.
pub fn successful_lookups<T, E>(results: Vec<Result<T, E>>) -> (found: Vec<T>)
    ensures
        found@ == successes(results@),
{
    let ghost all = results@;
    let mut found: Vec<T> = Vec::new();
    let mut rest = results;
    let ghost mut done: int = 0;
    while rest.len() > 0
        invariant
            0 <= done <= all.len(),
            rest@ == all.subrange(done, all.len() as int),
            found@ == successes(all.subrange(0, done)),
        decreases rest@.len(),
    {
        let r = rest.remove(0);
        proof {
            assert(r == all[done]);
            assert(all.subrange(0, done + 1).drop_last() =~= all.subrange(0, done));
            assert(all.subrange(0, done + 1).last() == all[done]);
        }
        match r {
            Ok(v) => found.push(v),
            Err(_) => {},
        }
        proof {
            done = done + 1;
            assert(rest@ =~= all.subrange(done, all.len() as int));
        }
    }
    proof {
        assert(all.subrange(0, done) =~= all);
    }
    found
}

/// The popular actions that the featured list is made of.
pub open spec fn spec_popular_actions() -> Seq<Seq<char>> {
    seq![
        "actions/checkout"@,
        "actions/setup-node"@,
        "actions/setup-python"@,
        "actions/cache"@,
        "actions/upload-artifact"@,
        "actions/download-artifact"@,
        "actions/github-script"@,
        "peaceiris/actions-gh-pages"@,
        "JamesIves/github-pages-deploy-action"@,
        "docker/build-push-action"@,
    ]
}

/// The popular actions that the featured list is made of.
pub fn popular_actions() -> (v: Vec<&'static str>)
    ensures
        v@.map_values(|r: &str| r@) == spec_popular_actions(),
{
    let v = 
    vec![
        "actions/checkout",
        "actions/setup-node",
        "actions/setup-python",
        "actions/cache",
        "actions/upload-artifact",
        "actions/download-artifact",
        "actions/github-script",
        "peaceiris/actions-gh-pages",
        "JamesIves/github-pages-deploy-action",
        "docker/build-push-action",
    ];
    proof {
        assert(v@.map_values(|r: &str| r@) =~= spec_popular_actions());
    }
    v
}

/// The owner and repository of each popular action, in list order.
pub fn featured_action_refs() -> (pairs: Vec<(String, String)>)
    ensures
        pairs@.map_values(|p: (String, String)| (p.0@, p.1@)) == owner_repo_pairs(spec_popular_actions()),
{
    let refs = popular_actions();
    owner_repo_refs(&refs)
}

/// The owner and repository of each reference that splits at `/` into
/// exactly two parts, in order.
pub fn owner_repo_refs(refs: &Vec<&str>) -> (pairs: Vec<(String, String)>)
    ensures
        pairs@.map_values(|p: (String, String)| (p.0@, p.1@)) == owner_repo_pairs(
            refs@.map_values(|r: &str| r@),
        ),
{
    proof {
        reveal_strlit("/");
    }
    let mut pairs: Vec<(String, String)> = Vec::new();
    let n = refs.len();
    for i in 0..n
        invariant
            n == refs@.len(),
            pairs@.map_values(|p: (String, String)| (p.0@, p.1@)) == owner_repo_pairs(
                refs@.map_values(|r: &str| r@).take(i as int),
            ),
    {
        proof {
            reveal_strlit("/");
        }
        let parts = split_str(refs[i], "/");
        let ghost before = pairs@;
        proof {
            let all = refs@.map_values(|r: &str| r@);
            assert(all.take(i + 1).drop_last() =~= all.take(i as int));
            assert(all.take(i + 1).last() == refs@[i as int]@);
            assert(parts@.len() == parts@.map_values(|p: String| p@).len());
        }
        if parts.len() == 2 {
            let owner = parts[0].clone();
            let repo = parts[1].clone();
            pairs.push((owner, repo));
            proof {
                assert(parts@.map_values(|p: String| p@)[0] == parts@[0]@);
                assert(parts@.map_values(|p: String| p@)[1] == parts@[1]@);
                assert(pairs@.map_values(|p: (String, String)| (p.0@, p.1@)) =~= before.map_values(
                    |p: (String, String)| (p.0@, p.1@),
                ).push((parts@[0]@, parts@[1]@)));
            }
        }
    }
    proof {
        assert(refs@.map_values(|r: &str| r@).take(n as int) =~= refs@.map_values(|r: &str| r@));
    }
    pairs
}

} // verus!
