//! Tests of the bounded LRU cache and the fetch coordination around it.

use relnotes::{
    ApiResponse, AuthorInfo, Cache, FetchedRelease, Item, RefreshStatus, Selector, UpstreamError,
};

fn record(org: &str, repo: &str, tag: &str, latest: bool) -> ApiResponse {
    ApiResponse {
        org: org.to_string(),
        repo: repo.to_string(),
        title: tag.to_string(),
        latest,
        author: None,
        tag: tag.to_string(),
        items: Vec::<Item>::new(),
        url: format!("https://example.com/{}/{}/{}", org, repo, tag),
    }
}

fn fetched(name: Option<&str>, tag: &str, body: Option<&str>) -> FetchedRelease {
    FetchedRelease {
        name: name.map(|s| s.to_string()),
        tag_name: tag.to_string(),
        author: Some(AuthorInfo {
            name: "octocat".to_string(),
            image: "https://example.com/a.png".to_string(),
        }),
        body: body.map(|s| s.to_string()),
        html_url: format!("https://example.com/r/{}", tag),
    }
}

#[test]
fn lookup_after_insert_hits_under_insertion_selector() {
    let mut cache = Cache::new();
    cache.insert(record("rust-lang", "rust", "1.70.0", true));
    let org = "rust-lang".to_string();
    let repo = "rust".to_string();
    let latest = cache.lookup(&org, &repo, &Selector::Latest).expect("latest hit");
    assert_eq!(latest.tag, "1.70.0");
    let by_tag = cache
        .lookup(&org, &repo, &Selector::Specific("1.70.0".to_string()))
        .expect("tag hit");
    assert_eq!(by_tag.tag, "1.70.0");
    assert!(by_tag.latest);
}

#[test]
fn lookup_misses_on_other_org_or_tag() {
    let mut cache = Cache::new();
    cache.insert(record("a", "b", "v1", true));
    assert!(cache.lookup(&"x".to_string(), &"b".to_string(), &Selector::Latest).is_none());
    assert!(cache.lookup(&"a".to_string(), &"y".to_string(), &Selector::Latest).is_none());
    assert!(cache
        .lookup(&"a".to_string(), &"b".to_string(), &Selector::Specific("v2".to_string()))
        .is_none());
}

#[test]
fn specific_record_without_latest_flag_never_answers_latest() {
    let mut cache = Cache::new();
    cache.insert(record("a", "b", "v1.0", false));
    let org = "a".to_string();
    let repo = "b".to_string();
    assert!(cache.lookup(&org, &repo, &Selector::Latest).is_none());
    let hit = cache
        .lookup(&org, &repo, &Selector::Specific("v1.0".to_string()))
        .expect("tag hit");
    assert!(!hit.latest);
}

#[test]
fn capacity_is_bounded_and_evicts_least_recently_used() {
    let mut cache = Cache::new();
    let capacity: usize = 8192;
    for i in 0..capacity {
        cache.insert(record(&format!("org{}", i), "repo", "v1", true));
        assert!(cache.len() <= capacity);
    }
    assert_eq!(cache.len(), capacity);
    cache.insert(record("newcomer", "repo", "v1", true));
    assert_eq!(cache.len(), capacity);
    // The very first record is the least recently used one and is gone.
    assert!(cache.lookup(&"org0".to_string(), &"repo".to_string(), &Selector::Latest).is_none());
    // The second record survived the eviction.
    assert!(cache.lookup(&"org1".to_string(), &"repo".to_string(), &Selector::Latest).is_some());
}

#[test]
fn lookup_touches_record_and_saves_it_from_eviction() {
    let mut cache = Cache::new();
    let capacity: usize = 8192;
    for i in 0..capacity {
        cache.insert(record(&format!("org{}", i), "repo", "v1", true));
    }
    // Touch the oldest record, making it most recently used.
    assert!(cache.lookup(&"org0".to_string(), &"repo".to_string(), &Selector::Latest).is_some());
    cache.insert(record("newcomer", "repo", "v1", true));
    // org0 was touched, so org1 was the least recently used and is gone.
    assert!(cache.lookup(&"org0".to_string(), &"repo".to_string(), &Selector::Latest).is_some());
    assert!(cache.lookup(&"org1".to_string(), &"repo".to_string(), &Selector::Latest).is_none());
}

#[test]
fn force_refresh_not_found_leaves_cache_untouched() {
    let mut cache = Cache::new();
    cache.insert(record("a", "b", "v1", false));
    let st = cache.force_refresh(
        "a".to_string(),
        "b".to_string(),
        &Selector::Specific("v9".to_string()),
        Err(UpstreamError::NotFound),
    );
    assert_eq!(st, RefreshStatus::NotFound);
    assert_eq!(cache.len(), 1);
    let kept = cache
        .lookup(&"a".to_string(), &"b".to_string(), &Selector::Specific("v1".to_string()))
        .expect("old record kept");
    assert_eq!(kept.tag, "v1");
}

#[test]
fn force_refresh_transport_failure_is_internal_error() {
    let mut cache = Cache::new();
    let st = cache.force_refresh(
        "a".to_string(),
        "b".to_string(),
        &Selector::Latest,
        Err(UpstreamError::Transport),
    );
    assert_eq!(st, RefreshStatus::Internal);
    assert_eq!(cache.len(), 0);
}

#[test]
fn force_refresh_success_stores_fresh_record() {
    let mut cache = Cache::new();
    cache.insert(record("a", "b", "v1", false));
    let st = cache.force_refresh(
        "a".to_string(),
        "b".to_string(),
        &Selector::Specific("v1".to_string()),
        Ok(fetched(Some("Big release"), "v1", Some("hello\n"))),
    );
    assert_eq!(st, RefreshStatus::Refreshed);
    // The stale record is not removed: both slots remain.
    assert_eq!(cache.len(), 2);
    let hit = cache
        .lookup(&"a".to_string(), &"b".to_string(), &Selector::Specific("v1".to_string()))
        .expect("fresh record found");
    assert_eq!(hit.title, "Big release");
    assert_eq!(hit.items.len(), 1);
    assert_eq!(hit.items[0].text, "hello");
}

#[test]
fn resolve_miss_success_returns_and_stores_record() {
    let mut cache = Cache::new();
    let rec = cache
        .resolve_miss(
            "a".to_string(),
            "b".to_string(),
            &Selector::Latest,
            Ok(fetched(None, "v2", None)),
        )
        .expect("fetched record returned");
    // Title falls back to the tag name when the release has no name.
    assert_eq!(rec.title, "v2");
    assert!(rec.latest);
    assert_eq!(rec.author.as_ref().expect("author kept").name, "octocat");
    assert!(rec.items.is_empty());
    assert_eq!(cache.len(), 1);
    assert!(cache.lookup(&"a".to_string(), &"b".to_string(), &Selector::Latest).is_some());
}

#[test]
fn resolve_miss_failure_is_not_found_and_stores_nothing() {
    let mut cache = Cache::new();
    cache.insert(record("a", "b", "v1", true));
    assert!(cache
        .resolve_miss(
            "a".to_string(),
            "b".to_string(),
            &Selector::Specific("v9".to_string()),
            Err(UpstreamError::Transport),
        )
        .is_none());
    assert_eq!(cache.len(), 1);
}

#[test]
fn specific_selector_sets_latest_false_on_assembly() {
    let mut cache = Cache::new();
    let rec = cache
        .resolve_miss(
            "a".to_string(),
            "b".to_string(),
            &Selector::Specific("v3".to_string()),
            Ok(fetched(Some("Third"), "v3", None)),
        )
        .expect("record");
    assert!(!rec.latest);
    // A record stored under a specific tag with latest=false does not answer
    // a latest query.
    assert!(cache.lookup(&"a".to_string(), &"b".to_string(), &Selector::Latest).is_none());
}
