use github_actions_editor::models::marketplace::MarketplaceAction;
use github_actions_editor::time::Timestamp;
use github_actions_editor::ui::components::{listed_results, FuzzySearch, MAX_LISTED_RESULTS};

fn names(v: &[&str]) -> Vec<String> {
    v.iter().map(|s| s.to_string()).collect()
}

#[test]
fn empty_query_keeps_everything_in_order() {
    let f = FuzzySearch::new();
    let r = f.rank("", &names(&["b", "a", "c"]));
    assert_eq!(r, vec![(0, 0), (1, 0), (2, 0)]);
}

#[test]
fn ranking_filters_and_sorts_best_first() {
    let f = FuzzySearch::new();
    let texts = names(&["actions/setup-node", "docker/build-push-action", "actions/checkout", "xyz"]);
    let r = f.rank("checkout", &texts);
    assert_eq!(r.len(), 1);
    assert_eq!(r[0].0, 2);
    let r = f.rank("act", &texts);
    assert!(r.iter().all(|(i, _)| *i != 3));
    for w in r.windows(2) {
        assert!(w[0].1 > w[1].1 || (w[0].1 == w[1].1 && w[0].0 < w[1].0));
    }
    let matcher = fuzzy_matcher::skim::SkimMatcherV2::default();
    for (i, t) in texts.iter().enumerate() {
        let score = fuzzy_matcher::FuzzyMatcher::fuzzy_match(&matcher, t, "act");
        assert_eq!(score.is_some(), r.iter().any(|(j, _)| *j == i));
        if let Some(s) = score {
            assert!(r.contains(&(i, s)));
        }
    }
}

#[test]
fn equal_scores_keep_input_order() {
    let f = FuzzySearch::new();
    let r = f.rank("ab", &names(&["ab", "ab", "ab"]));
    assert_eq!(r.iter().map(|(i, _)| *i).collect::<Vec<_>>(), vec![0, 1, 2]);
}

fn action(name: &str) -> MarketplaceAction {
    MarketplaceAction {
        full_name: name.to_string(),
        owner: String::new(),
        repo: String::new(),
        name: name.to_string(),
        description: String::new(),
        versions: vec![],
        stars: 0,
        updated_at: Timestamp::new(0, 0),
        verified: false,
        categories: vec![],
        metadata: None,
    }
}

#[test]
fn search_actions_by_full_name() {
    let f = FuzzySearch::new();
    let actions = vec![action("actions/cache"), action("peaceiris/actions-gh-pages"), action("zzz")];
    let r = f.search_actions("cache", &actions);
    assert!(!r.is_empty());
    assert_eq!(r[0].0.full_name, "actions/cache");
    assert!(r.iter().all(|(a, _)| a.full_name != "zzz"));
    let all = f.search_actions("", &actions);
    assert_eq!(all.len(), 3);
    assert_eq!(all[2].0.full_name, "zzz");
    assert_eq!(all[2].1, 0);
}

#[test]
fn generic_search_ranks_by_the_given_text() {
    let f = FuzzySearch::new();
    let items = vec![(1, "alpha"), (2, "beta"), (3, "alphabet")];
    let r = f.search("alp", &items, |item| item.1);
    let ids: Vec<i32> = r.iter().map(|(item, _)| item.0).collect();
    assert!(ids.contains(&1) && ids.contains(&3));
    assert!(!ids.contains(&2));
    for w in r.windows(2) {
        assert!(w[0].1 >= w[1].1);
    }
    let all = f.search("", &items, |item| item.1);
    assert_eq!(all.iter().map(|(item, s)| (item.0, *s)).collect::<Vec<_>>(), vec![(1, 0), (2, 0), (3, 0)]);
}

#[test]
fn ranking_by_given_scores_is_exact() {
    let r = FuzzySearch::rank_by_scores(&vec![Some(5), None, Some(9), Some(5), Some(-1)]);
    assert_eq!(r, vec![(2, 9), (0, 5), (3, 5), (4, -1)]);
    assert_eq!(FuzzySearch::rank_by_scores(&vec![None, None]), vec![]);
}

#[test]
fn browser_lists_at_most_fifty_results_in_order() {
    let many: Vec<u32> = (0..80).collect();
    assert_eq!(listed_results(many), (0..50).collect::<Vec<u32>>());
    assert_eq!(listed_results(vec![3, 1, 2]), vec![3, 1, 2]);
    assert_eq!(MAX_LISTED_RESULTS, 50);
}
