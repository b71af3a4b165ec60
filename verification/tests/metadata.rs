use composer_mirror::metadata::find_version_entry;
use composer_mirror::metadata::strip_git_suffix;

const DOC: &str = r#"{
  "packages": {
    "acme/widget": [
      {
        "version": "v1.1.0",
        "dist": {"url": "https://origin/acme-widget-1.1.0.zip"},
        "source": {"url": "https://github.com/acme/widget.git"}
      },
      {
        "version": "v1.2.0",
        "dist": {"url": "https://origin/acme-widget-1.2.0.zip"},
        "source": {"url": "https://github.com/acme/widget.git"}
      },
      {
        "version": "v1.2.0",
        "dist": {"url": "https://origin/duplicate-later.zip"},
        "source": {"url": "https://github.com/acme/duplicate.git"}
      }
    ]
  }
}"#;

#[test]
fn find_version_entry_extracts_the_matching_entry() {
    let e = find_version_entry(DOC, "acme/widget", "v1.2.0").unwrap();
    assert_eq!(e.version, "v1.2.0");
    assert_eq!(e.dist_url, "https://origin/acme-widget-1.2.0.zip");
    assert_eq!(e.source_url, "https://github.com/acme/widget.git");
}

#[test]
fn find_version_entry_takes_the_first_match() {
    let e = find_version_entry(DOC, "acme/widget", "v1.2.0").unwrap();
    assert_eq!(e.dist_url, "https://origin/acme-widget-1.2.0.zip");
}

#[test]
fn find_version_entry_misses_absent_version() {
    assert!(find_version_entry(DOC, "acme/widget", "v9.9.9").is_none());
}

#[test]
fn find_version_entry_misses_absent_package() {
    assert!(find_version_entry(DOC, "other/package", "v1.2.0").is_none());
}

#[test]
fn find_version_entry_misses_malformed_document() {
    assert!(find_version_entry("not json at all", "acme/widget", "v1.2.0").is_none());
    assert!(find_version_entry("{}", "acme/widget", "v1.2.0").is_none());
    assert!(find_version_entry(r#"{"packages": {"acme/widget": 3}}"#, "acme/widget", "v1.2.0")
        .is_none());
    let missing_fields = r#"{"packages": {"acme/widget": [{"version": "v1.2.0"}]}}"#;
    assert!(find_version_entry(missing_fields, "acme/widget", "v1.2.0").is_none());
}

#[test]
fn strip_git_suffix_strips_one_trailing_suffix() {
    assert_eq!(strip_git_suffix("https://github.com/acme/widget.git"), "https://github.com/acme/widget");
    assert_eq!(strip_git_suffix("https://github.com/acme/widget"), "https://github.com/acme/widget");
    assert_eq!(strip_git_suffix("repo.git.git"), "repo.git");
    assert_eq!(strip_git_suffix("https://github.com/acme/a.github.io"), "https://github.com/acme/a.github.io");
    assert_eq!(strip_git_suffix(".git"), "");
}
