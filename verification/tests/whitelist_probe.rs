use composer_mirror::probe::download_budget_exhausted;
use composer_mirror::probe::exists_from_status;
use composer_mirror::probe::speed_probe_result;
use composer_mirror::whitelist::check_package_in_white_list;

fn list(patterns: &[&str]) -> Vec<String> {
    patterns.iter().map(|p| p.to_string()).collect()
}

#[test]
fn whitelist_matches_glob_patterns() {
    let wl = list(&["acme/*"]);
    assert!(check_package_in_white_list("acme/widget", &wl));
    assert!(!check_package_in_white_list("other/widget", &wl));
}

#[test]
fn whitelist_matches_any_of_several_patterns() {
    let wl = list(&["internal/*", "acme/widget", "*/experimental"]);
    assert!(check_package_in_white_list("internal/tool", &wl));
    assert!(check_package_in_white_list("acme/widget", &wl));
    assert!(check_package_in_white_list("any/experimental", &wl));
    assert!(!check_package_in_white_list("acme/other", &wl));
}

#[test]
fn whitelist_with_no_patterns_matches_nothing() {
    assert!(!check_package_in_white_list("acme/widget", &Vec::new()));
}

#[test]
fn invalid_pattern_matches_nothing() {
    let wl = list(&["[", "acme/*"]);
    assert!(!check_package_in_white_list("[", &wl));
    assert!(check_package_in_white_list("acme/widget", &wl));
}

#[test]
fn existence_is_status_ok_alone() {
    assert!(exists_from_status(Some(200)));
    assert!(!exists_from_status(Some(404)));
    assert!(!exists_from_status(Some(301)));
    assert!(!exists_from_status(Some(500)));
    assert!(!exists_from_status(None));
}

#[test]
fn speed_probe_reports_url_only_on_success() {
    assert_eq!(
        speed_probe_result(true, "https://c1.example/a.zip"),
        Some("https://c1.example/a.zip".to_string())
    );
    assert_eq!(speed_probe_result(false, "https://c1.example/a.zip"), None);
}

#[test]
fn download_budget_stops_past_the_ceiling() {
    assert!(!download_budget_exhausted(0));
    assert!(!download_budget_exhausted(81920));
    assert!(download_budget_exhausted(81921));
}
