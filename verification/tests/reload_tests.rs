// Template-registry reload tests: the staleness/nonce gate and the
// all-or-nothing reload, driven with the real handlebars engine.

use blag::errors::CoreError;
use blag::models::TemplateData;
use blag::reload::sentinel_nonce;
use blag::reload::ConfigKeys;
use blag::reload::NonceCheck;
use blag::reload::RefreshStep;
use blag::reload::ReloadCoordinator;
use blag::templates::RenderFault;
use blag::templates::TemplateRegistry;

fn row(key: &str, template: &str) -> TemplateData {
    TemplateData { key: key.to_string(), template: template.to_string() }
}

fn fields(pairs: &[(&str, &str)]) -> Vec<(String, String)> {
    pairs.iter().map(|(k, v)| (k.to_string(), v.to_string())).collect()
}

fn fresh_coordinator() -> ReloadCoordinator {
    ReloadCoordinator::new(TemplateRegistry::new(), sentinel_nonce(), 60, 0)
}

/// Drive one full `refresh_if_needed` pass, counting the I/O the
/// coordinator asks for; `store_nonce` and `store_rows` stand for the
/// backing store's current content.
fn refresh_pass(
    coord: &mut ReloadCoordinator,
    now: u64,
    store_nonce: &str,
    store_rows: &[TemplateData],
    nonce_fetches: &mut usize,
    reloads: &mut usize,
) {
    match coord.begin_refresh(now) {
        RefreshStep::Fresh => {},
        RefreshStep::CheckNonce => {
            *nonce_fetches += 1;
            let fetched = store_nonce.to_string();
            match coord.check_nonce(&fetched) {
                NonceCheck::Unchanged => {},
                NonceCheck::Changed => {
                    *reloads += 1;
                    let rows: Vec<TemplateData> = store_rows.to_vec();
                    let _ = coord.apply_reload(&rows, &fetched);
                },
            }
        },
    }
}

#[test]
fn immediate_second_refresh_does_no_io() {
    let mut coord = fresh_coordinator();
    let rows = vec![row("list", "A {{x}}")];
    let mut fetches: usize = 0;
    let mut reloads: usize = 0;
    refresh_pass(&mut coord, 1_000, "v1", &rows, &mut fetches, &mut reloads);
    refresh_pass(&mut coord, 1_000, "v1", &rows, &mut fetches, &mut reloads);
    assert_eq!(fetches, 1);
    assert_eq!(reloads, 1);
}

#[test]
fn unchanged_nonce_skips_reload() {
    let mut coord = fresh_coordinator();
    let rows = vec![row("list", "A {{x}}")];
    let mut fetches: usize = 0;
    let mut reloads: usize = 0;
    refresh_pass(&mut coord, 1_000, "v1", &rows, &mut fetches, &mut reloads);
    // Next window: the store still holds v1, so only the nonce is fetched.
    refresh_pass(&mut coord, 1_061, "v1", &rows, &mut fetches, &mut reloads);
    assert_eq!(fetches, 2);
    assert_eq!(reloads, 1);
}

#[test]
fn boundary_elapsed_equal_to_threshold_is_fresh() {
    let mut coord = fresh_coordinator();
    let rows = vec![row("list", "A")];
    let mut fetches: usize = 0;
    let mut reloads: usize = 0;
    refresh_pass(&mut coord, 1_000, "v1", &rows, &mut fetches, &mut reloads);
    // Exactly threshold seconds later: not yet stale.
    refresh_pass(&mut coord, 1_060, "v2", &rows, &mut fetches, &mut reloads);
    assert_eq!(fetches, 1);
    // One second past the threshold: stale.
    refresh_pass(&mut coord, 1_061, "v2", &rows, &mut fetches, &mut reloads);
    assert_eq!(fetches, 2);
    assert_eq!(reloads, 2);
}

#[test]
fn reload_round_trip_replaces_the_whole_set() {
    let mut coord = fresh_coordinator();
    let first = vec![row("list", "A {{x}}"), row("old", "O")];
    assert!(coord.apply_reload(&first, &"v1".to_string()).is_ok());
    let rendered = coord.render(&"list".to_string(), &fields(&[("x", "1")])).unwrap();
    assert_eq!(rendered, "A 1");
    assert_eq!(coord.render(&"old".to_string(), &fields(&[])).unwrap(), "O");

    let second = vec![row("list", "B {{x}}"), row("extra", "C")];
    assert!(coord.apply_reload(&second, &"v2".to_string()).is_ok());
    let rendered = coord.render(&"list".to_string(), &fields(&[("x", "1")])).unwrap();
    assert_eq!(rendered, "B 1");
    assert_eq!(coord.render(&"extra".to_string(), &fields(&[])).unwrap(), "C");
    // The row dropped by the second reload is gone.
    assert_eq!(
        coord.render(&"old".to_string(), &fields(&[])),
        Err(RenderFault::NotFound)
    );
}

#[test]
fn failed_reload_leaves_registry_and_nonce_untouched() {
    let mut coord = fresh_coordinator();
    let first = vec![row("list", "A {{x}}")];
    assert!(coord.apply_reload(&first, &"v1".to_string()).is_ok());

    // "extra" does not compile: an unclosed block aborts the whole reload.
    let second = vec![row("list", "B {{x}}"), row("extra", "{{#if flag}}no end")];
    let result = coord.apply_reload(&second, &"v2".to_string());
    assert_eq!(result, Err(CoreError::ReloadFailure));

    // The first, complete registry is still what renders.
    let rendered = coord.render(&"list".to_string(), &fields(&[("x", "1")])).unwrap();
    assert_eq!(rendered, "A 1");
    // The mirrored nonce was not advanced: the next window still sees the
    // change and retries.
    assert_eq!(coord.check_nonce(&"v2".to_string()), NonceCheck::Changed);
    assert_eq!(coord.check_nonce(&"v1".to_string()), NonceCheck::Unchanged);
}

#[test]
fn rendering_unknown_name_is_not_found() {
    let registry = TemplateRegistry::new();
    assert_eq!(
        registry.render(&"missing".to_string(), &fields(&[])),
        Err(RenderFault::NotFound)
    );
}

#[test]
fn compile_all_is_all_or_nothing() {
    let good = vec![row("a", "A"), row("b", "B {{x}}")];
    assert!(TemplateRegistry::compile_all(&good).is_ok());
    let bad = vec![row("a", "A"), row("b", "{{#each}}")];
    assert!(TemplateRegistry::compile_all(&bad).is_err());
}

#[test]
fn config_key_and_sentinel_values() {
    assert_eq!(ConfigKeys::TemplateNonce.key_name(), "TemplateNonce");
    assert_eq!(sentinel_nonce(), "unset");
}
