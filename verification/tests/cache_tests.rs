// Key-set cache and staleness-timer tests: the fetch gate, the
// first-writer-wins merge, and the exact threshold boundary.

use blag::auth::locker;
use blag::keys::KeyAlgorithm;
use blag::keys::KeyMaterial;
use blag::keys::KeyPlan;
use blag::keys::KeySetCache;
use blag::models::get_size;
use blag::models::paginate;
use blag::models::PageEdit;
use blag::models::PageListItem;
use blag::models::SimpleResponse;
use blag::timer::RefreshTimer;

fn rsa(kid: &str, modulus: &str) -> KeyMaterial {
    KeyMaterial {
        key_id: kid.to_string(),
        algorithm: KeyAlgorithm::Rsa {
            modulus: modulus.to_string(),
            exponent: "AQAB".to_string(),
        },
    }
}

fn modulus_of(m: &KeyMaterial) -> String {
    match &m.algorithm {
        KeyAlgorithm::Rsa { modulus, .. } => modulus.clone(),
        KeyAlgorithm::Other => panic!("expected RSA material"),
    }
}

#[test]
fn cold_cache_plans_one_fetch_then_none_in_window() {
    let mut cache = KeySetCache::new(60, 0);
    let kid = "never-published".to_string();
    // Cold cache, unknown key id: the first request plans the one fetch.
    match cache.ensure_key_plan(&kid, 1_000) {
        KeyPlan::FetchFirst => {},
        _ => panic!("expected a fetch to be planned"),
    }
    // The fetch returned keys, none of them ours; merging claims the window.
    cache.merge_fetched(&vec![rsa("someone-else", "mod-x")], 1_000);
    // Any request for the same unknown id within the window plans no fetch.
    match cache.ensure_key_plan(&kid, 1_060) {
        KeyPlan::Unknown => {},
        _ => panic!("expected a denied miss without a fetch"),
    }
    // Past the window a fetch is planned again.
    match cache.ensure_key_plan(&kid, 1_061) {
        KeyPlan::FetchFirst => {},
        _ => panic!("expected a fetch to be planned again"),
    }
}

#[test]
fn both_keys_of_one_fetch_resolve_without_more_fetches() {
    let mut cache = KeySetCache::new(60, 0);
    cache.merge_fetched(&vec![rsa("kid-a", "mod-a"), rsa("kid-b", "mod-b")], 1_000);
    match cache.ensure_key_plan(&"kid-a".to_string(), 1_001) {
        KeyPlan::Found(k) => assert_eq!(modulus_of(&k), "mod-a"),
        _ => panic!("kid-a must resolve from the cache"),
    }
    match cache.ensure_key_plan(&"kid-b".to_string(), 1_001) {
        KeyPlan::Found(k) => assert_eq!(modulus_of(&k), "mod-b"),
        _ => panic!("kid-b must resolve from the cache"),
    }
}

#[test]
fn first_writer_wins_on_duplicate_key_ids() {
    let mut cache = KeySetCache::new(60, 0);
    cache.merge_fetched(&vec![rsa("kid-a", "original")], 1_000);
    // A later fetch republishing the same id never overwrites it.
    cache.merge_fetched(&vec![rsa("kid-a", "imposter")], 2_000);
    match cache.lookup(&"kid-a".to_string()) {
        Some(k) => assert_eq!(modulus_of(&k), "original"),
        None => panic!("kid-a must stay resolvable"),
    }
    // Duplicates within one fetch: the first occurrence wins too.
    cache.merge_fetched(
        &vec![rsa("kid-c", "first"), rsa("kid-c", "second")],
        3_000,
    );
    match cache.lookup(&"kid-c".to_string()) {
        Some(k) => assert_eq!(modulus_of(&k), "first"),
        None => panic!("kid-c must be held"),
    }
}

#[test]
fn final_lookup_reports_unknown_key() {
    let cache = KeySetCache::new(60, 0);
    let err = cache.final_lookup(&"ghost".to_string());
    assert!(err.is_err());
}

#[test]
fn timer_boundary_is_strictly_greater_than() {
    let timer = RefreshTimer::new(100);
    assert_eq!(timer.elapsed(160), 60);
    // Elapsed exactly equal to the threshold: not yet stale.
    assert!(!timer.is_stale(160, 60));
    // One more second: stale.
    assert!(timer.is_stale(161, 60));
    // A clock that went backwards reads as zero elapsed.
    assert_eq!(timer.elapsed(40), 0);
    assert!(!timer.is_stale(40, 60));
}

#[test]
fn timer_reset_moves_last_refresh() {
    let mut timer = RefreshTimer::new(0);
    assert!(timer.is_stale(1_000, 60));
    timer.reset(1_000);
    assert!(!timer.is_stale(1_060, 60));
    assert!(timer.is_stale(1_061, 60));
}

#[test]
fn locker_shares_one_value_for_reading_and_writing() {
    let cell = locker(KeySetCache::new(60, 0));
    {
        let mut guard = cell.write().expect("fresh lock is not poisoned");
        guard.merge_fetched(&vec![rsa("kid-a", "mod-a")], 1_000);
    }
    let reader = cell.clone();
    let guard = reader.read().expect("fresh lock is not poisoned");
    assert!(guard.lookup(&"kid-a".to_string()).is_some());
}

#[test]
fn paginate_trims_and_links_pages() {
    // Six rows came back for a five-row page: show five, link page 2.
    let mut rows: Vec<u32> = vec![10, 20, 30, 40, 50, 60];
    let links = paginate(&mut rows, 1, 5);
    assert_eq!(rows, vec![10, 20, 30, 40, 50]);
    assert!(links.has_next);
    assert_eq!(links.next_page, Some(2));
    assert_eq!(links.prev_page, None);

    // A short middle page: nothing trimmed, only a "prev" link.
    let mut rows: Vec<u32> = vec![10, 20, 30];
    let links = paginate(&mut rows, 2, 5);
    assert_eq!(rows, vec![10, 20, 30]);
    assert!(!links.has_next);
    assert_eq!(links.next_page, None);
    assert_eq!(links.prev_page, Some(1));
}

#[test]
fn simple_response_and_size_helpers() {
    let r = SimpleResponse::new("ok");
    assert_eq!(r.value, "ok");
    let items = [1u32, 2, 3];
    assert_eq!(get_size(&items), 3);
    let page = PageListItem { slug: "intro".to_string(), title: "Intro".to_string() };
    assert_eq!(page.slug, "intro");
    let edit = PageEdit { title: "T".to_string(), raw: "# T".to_string() };
    assert_eq!(edit.raw, "# T");
}
