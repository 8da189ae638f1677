//! Fuzzy search over marketplace actions.

use crate::models::marketplace::MarketplaceAction;
use vstd::prelude::*;

verus! {

/// The score that `SkimMatcherV2::default()` gives `choice` for `pattern`
/// (`None` when it does not match; higher is better).
pub uninterp spec fn skim_score(choice: Seq<char>, pattern: Seq<char>) -> Option<i64>;

/// `SkimMatcherV2::default().fuzzy_match(choice, pattern)`: the score is
/// named; an empty pattern matches with score 0.
#[verifier::external_body]
fn skim_fuzzy_match(choice: &str, pattern: &str) -> (r: Option<i64>)
    ensures
        r == skim_score(choice@, pattern@),
        pattern@.len() == 0 ==> r == Some(0i64),
{
    let matcher = fuzzy_matcher::skim::SkimMatcherV2::default();
    fuzzy_matcher::FuzzyMatcher::fuzzy_match(&matcher, choice, pattern)
}

/// Entry `a` comes before entry `b`: a higher score, or the same score and an
/// earlier position.
pub open spec fn ranks_before(a: (usize, i64), b: (usize, i64)) -> bool {
    a.1 > b.1 || (a.1 == b.1 && a.0 < b.0)
}

/// `r` ranks the positions among `0..n` that have a score: each entry is a
/// position and its score, every scored position appears, and entries come
/// best first, ties in position order.
pub open spec fn is_score_ranking_upto(scores: Seq<Option<i64>>, r: Seq<(usize, i64)>, n: int) -> bool {
    &&& forall|k: int| 0 <= k < r.len() ==> (#[trigger] r[k]).0 < n && scores[r[k].0 as int] == Some(r[k].1)
    &&& forall|i: int|
        0 <= i < n && (#[trigger] scores[i]) is Some ==> exists|k: int| 0 <= k < r.len() && (#[trigger] r[k]).0 == i
    &&& forall|k: int, l: int| 0 <= k < l < r.len() ==> ranks_before(#[trigger] r[k], #[trigger] r[l])
}

/// `r` ranks all positions of `scores` that have a score.
pub open spec fn is_score_ranking(scores: Seq<Option<i64>>, r: Seq<(usize, i64)>) -> bool {
    is_score_ranking_upto(scores, r, scores.len() as int)
}

/// The score of each text for `query`.
pub open spec fn skim_scores(texts: Seq<Seq<char>>, query: Seq<char>) -> Seq<Option<i64>> {
    texts.map_values(|t: Seq<char>| skim_score(t, query))
}

/// `r` ranks the texts that match `query`, best first, ties in order.
pub open spec fn is_ranking(texts: Seq<Seq<char>>, query: Seq<char>, r: Seq<(usize, i64)>) -> bool {
    is_score_ranking(skim_scores(texts, query), r)
}

/// Every position of `texts`, in order, with score 0.
pub open spec fn unranked(texts: Seq<Seq<char>>, r: Seq<(usize, i64)>) -> bool {
    &&& r.len() == texts.len()
    &&& forall|k: int| 0 <= k < r.len() ==> #[trigger] r[k] == (k as usize, 0i64)
}

/// How `rank` orders `texts` for `query`.
pub open spec fn ranks(texts: Seq<Seq<char>>, query: Seq<char>, r: Seq<(usize, i64)>) -> bool {
    &&& (query.len() == 0 ==> unranked(texts, r))
    &&& (query.len() > 0 ==> is_ranking(texts, query, r))
}

/// The full names of `actions`.
pub open spec fn action_names(actions: Seq<MarketplaceAction>) -> Seq<Seq<char>> {
    actions.map_values(|a: MarketplaceAction| a.full_name@)
}

/// `f` may give, for `item`, a text whose characters are `text`.
pub open spec fn gives_text<T, F: Fn(&T) -> &str>(f: F, item: &T, text: Seq<char>) -> bool {
    exists|s: &str| f.ensures((item,), s) && s@ == text
}

/// The full name of an action.
fn full_name_of(a: &MarketplaceAction) -> (name: &str)
    ensures
        name@ == a.full_name@,
{
    a.full_name.as_str()
}

/// Fuzzy search helper.
pub struct FuzzySearch {}

impl FuzzySearch {
    pub fn new() -> (f: FuzzySearch) {
        FuzzySearch {}
    }

    /// The positions that have a score, with their scores, best first and
    /// ties in position order.
    pub fn rank_by_scores(scores: &Vec<Option<i64>>) -> (r: Vec<(usize, i64)>)
        ensures
            is_score_ranking(scores@, r@),
    {
        let n = scores.len();
        let mut r: Vec<(usize, i64)> = Vec::new();
        for i in 0..n
            invariant
                n == scores@.len(),
                is_score_ranking_upto(scores@, r@, i as int),
        {
            let ghost before = r@;
            match scores[i] {
                Some(score) => {
                    let m = r.len();
                    let mut p: usize = 0;
                    while p < m && r[p].1 >= score
                        invariant
                            m == r@.len(),
                            p <= m,
                            forall|k: int| 0 <= k < p ==> (#[trigger] r@[k]).1 >= score,
                        decreases m - p,
                    {
                        p = p + 1;
                    }
                    r.insert(p, (i, score));
                    proof {
                        assert forall|k: int| 0 <= k < r@.len() implies (#[trigger] r@[k]).0 < i + 1
                            && scores@[r@[k].0 as int] == Some(r@[k].1) by {
                            if k < p {
                                assert(r@[k] == before[k]);
                            } else if k > p {
                                assert(r@[k] == before[k - 1]);
                            }
                        }
                        assert forall|j: int|
                            0 <= j < i + 1 && (#[trigger] scores@[j]) is Some implies exists|k: int|
                            0 <= k < r@.len() && (#[trigger] r@[k]).0 == j by {
                            if j == i {
                                assert(r@[p as int].0 == j);
                            } else {
                                let k0 = choose|k: int| 0 <= k < before.len() && (#[trigger] before[k]).0 == j;
                                if k0 < p {
                                    assert(r@[k0].0 == j);
                                } else {
                                    assert(r@[k0 + 1].0 == j);
                                }
                            }
                        }
                        assert forall|k: int, l: int| 0 <= k < l < r@.len() implies ranks_before(
                            #[trigger] r@[k],
                            #[trigger] r@[l],
                        ) by {
                            if l < p {
                                assert(r@[k] == before[k] && r@[l] == before[l]);
                            } else if l == p {
                                assert(r@[k] == before[k]);
                            } else if k == p {
                                assert(r@[l] == before[l - 1]);
                                if p < m {
                                    assert(before[p as int].1 < score);
                                    assert(before[l - 1].1 <= before[p as int].1 || l - 1 == p);
                                    if l - 1 > p {
                                        assert(ranks_before(before[p as int], before[l - 1]));
                                    }
                                }
                            } else if k < p {
                                assert(r@[k] == before[k] && r@[l] == before[l - 1]);
                            } else {
                                assert(r@[k] == before[k - 1] && r@[l] == before[l - 1]);
                            }
                        }
                    }
                },
                None => {
                    proof {
                        assert forall|j: int|
                            0 <= j < i + 1 && (#[trigger] scores@[j]) is Some implies exists|k: int|
                            0 <= k < r@.len() && (#[trigger] r@[k]).0 == j by {
                        }
                    }
                },
            }
        }
        r
    }

    /// The positions of `texts` that match `query`, with their scores, best
    /// first and ties in order; every position with score 0 for an empty query.
    pub fn rank(&self, query: &str, texts: &Vec<String>) -> (r: Vec<(usize, i64)>)
        ensures
            query@.len() == 0 ==> unranked(texts@.map_values(|t: String| t@), r@),
            query@.len() > 0 ==> is_ranking(texts@.map_values(|t: String| t@), query@, r@),
    {
        let n = texts.len();
        if query.is_empty() {
            let mut r: Vec<(usize, i64)> = Vec::new();
            for i in 0..n
                invariant
                    n == texts@.len(),
                    r@.len() == i,
                    forall|k: int| 0 <= k < i ==> #[trigger] r@[k] == (k as usize, 0i64),
            {
                r.push((i, 0));
            }
            return r;
        }
        let mut scores: Vec<Option<i64>> = Vec::new();
        for i in 0..n
            invariant
                n == texts@.len(),
                scores@.len() == i,
                forall|k: int| 0 <= k < i ==> #[trigger] scores@[k] == skim_score(texts@[k]@, query@),
        {
            scores.push(skim_fuzzy_match(texts[i].as_str(), query));
        }
        proof {
            assert(scores@ =~= skim_scores(texts@.map_values(|t: String| t@), query@));
        }
        Self::rank_by_scores(&scores)
    }

    /// Items ranked by the text that `get_text` gives for each of them
    /// against `query`; every item with score 0 for an empty query.
    pub fn search<'a, T, F>(&self, query: &str, items: &'a [T], get_text: F) -> (r: Vec<(&'a T, i64)>)
        where
            F: Fn(&T) -> &str,
        requires
            forall|i: int| 0 <= i < items@.len() ==> get_text.requires((&items@[i],)),
        ensures
            exists|texts: Seq<Seq<char>>, ranked: Seq<(usize, i64)>|
                {
                    &&& texts.len() == items@.len()
                    &&& #[trigger] ranks(texts, query@, ranked)
                    &&& forall|i: int|
                        0 <= i < texts.len() && query@.len() > 0 ==> gives_text(get_text, &items@[i], #[trigger] texts[i])
                    &&& r@.len() == ranked.len()
                    &&& forall|k: int| 0 <= k < r@.len() ==> (#[trigger] r@[k]).1 == ranked[k].1 && *r@[k].0 == items@[ranked[k].0 as int]
                },
    {
        let n = items.len();
        if query.is_empty() {
            let mut r: Vec<(&'a T, i64)> = Vec::new();
            for i in 0..n
                invariant
                    n == items@.len(),
                    r@.len() == i,
                    forall|k: int| 0 <= k < i ==> (#[trigger] r@[k]).1 == 0 && *r@[k].0 == items@[k],
            {
                r.push((&items[i], 0));
            }
            proof {
                let texts = Seq::new(n as nat, |i: int| Seq::<char>::empty());
                let ranked = Seq::new(n as nat, |k: int| (k as usize, 0i64));
                assert(ranks(texts, query@, ranked));
                assert forall|k: int| 0 <= k < r@.len() implies (#[trigger] r@[k]).1 == ranked[k].1 && *r@[k].0
                    == items@[ranked[k].0 as int] by {
                    assert(ranked[k] == (k as usize, 0i64));
                }
            }
            return r;
        }
        let mut names: Vec<String> = Vec::new();
        let ghost mut given: Seq<&str> = Seq::empty();
        for i in 0..n
            invariant
                n == items@.len(),
                forall|j: int| 0 <= j < items@.len() ==> get_text.requires((&items@[j],)),
                names@.len() == i,
                given.len() == i,
                forall|k: int|
                    0 <= k < i ==> get_text.ensures((&items@[k],), #[trigger] given[k]) && given[k]@
                        == names@[k]@,
        {
            let t = get_text(&items[i]);
            names.push(t.to_owned());
            proof {
                given = given.push(t);
            }
        }
        let ghost texts = names@.map_values(|t: String| t@);
        let ranked = self.rank(query, &names);
        let mut r: Vec<(&'a T, i64)> = Vec::new();
        let m = ranked.len();
        for k in 0..m
            invariant
                m == ranked@.len(),
                n == items@.len(),
                query@.len() > 0,
                is_ranking(texts, query@, ranked@),
                texts.len() == n,
                r@.len() == k,
                forall|j: int|
                    0 <= j < k ==> (#[trigger] r@[j]).1 == ranked@[j].1 && *r@[j].0 == items@[ranked@[j].0 as int],
        {
            let (idx, score) = ranked[k];
            proof {
                assert((ranked@[k as int]).0 < n);
            }
            r.push((&items[idx], score));
        }
        proof {
            assert(ranks(texts, query@, ranked@));
            assert forall|i: int| 0 <= i < texts.len() && query@.len() > 0 implies gives_text(
                get_text,
                &items@[i],
                #[trigger] texts[i],
            ) by {
                assert(get_text.ensures((&items@[i],), given[i]));
            }
        }
        r
    }

    /// Marketplace actions ranked by their full names against `query`.
    pub fn search_actions<'a>(&self, query: &str, actions: &'a [MarketplaceAction]) -> (r: Vec<(&'a MarketplaceAction, i64)>)
        ensures
            exists|ranked: Seq<(usize, i64)>|
                {
                    &&& #[trigger] ranks(action_names(actions@), query@, ranked)
                    &&& r@.len() == ranked.len()
                    &&& forall|k: int| 0 <= k < r@.len() ==> (#[trigger] r@[k]).1 == ranked[k].1 && *r@[k].0 == actions@[ranked[k].0 as int]
                },
    {
        let r = self.search(
            query,
            actions,
            full_name_of,
        );
        proof {
            let (texts, ranked) = choose|texts: Seq<Seq<char>>, ranked: Seq<(usize, i64)>|
                {
                    &&& texts.len() == actions@.len()
                    &&& #[trigger] ranks(texts, query@, ranked)
                    &&& forall|i: int|
                        0 <= i < texts.len() && query@.len() > 0 ==> gives_text(
                            full_name_of,
                            &actions@[i],
                            #[trigger] texts[i],
                        )
                    &&& r@.len() == ranked.len()
                    &&& forall|k: int| 0 <= k < r@.len() ==> (#[trigger] r@[k]).1 == ranked[k].1 && *r@[k].0 == actions@[ranked[k].0 as int]
                };
            if query@.len() > 0 {
                assert forall|i: int| 0 <= i < texts.len() implies texts[i] == action_names(actions@)[i] by {
                    assert(gives_text(full_name_of, &actions@[i], texts[i]));
                    let s = choose|s: &str| full_name_of.ensures((&actions@[i],), s) && s@ == texts[i];
                }
                assert(texts =~= action_names(actions@));
            }
            assert(ranks(action_names(actions@), query@, ranked));
        }
        r
    }
}

/// The most results the action browser lists.
pub const MAX_LISTED_RESULTS: usize = 50;

/// The results the action browser lists: the first `MAX_LISTED_RESULTS`, in order.
pub fn listed_results<T>(results: Vec<T>) -> (listed: Vec<T>)
    ensures
        listed@ == if results@.len() <= MAX_LISTED_RESULTS {
            results@
        } else {
            results@.take(MAX_LISTED_RESULTS as int)
        },
{
    let mut listed = results;
    listed.truncate(MAX_LISTED_RESULTS);
    listed
}

/// Messages from UI components.
#[derive(Debug, Clone)]
pub enum ComponentMessage {
    // Action browser
    SearchQueryChanged(String),
    ActionSelected(String),
    VersionSelected(String, String),
    // Step editor
    StepNameChanged(usize, String),
    StepUsesChanged(usize, String),
    StepRunChanged(usize, String),
    StepConditionChanged(usize, String),
    StepInputChanged(usize, String, String),
    AddStep,
    RemoveStep(usize),
    MoveStepUp(usize),
    MoveStepDown(usize),
    // Job editor
    JobNameChanged(String, String),
    JobRunsOnChanged(String, String),
    JobNeedsChanged(String, Vec<String>),
    AddJob,
    RemoveJob(String),
    // Workflow settings
    WorkflowNameChanged(String),
    TriggerChanged(String),
    // Auth
    TokenSubmitted(String),
    Logout,
}

} // verus!
