use composer_mirror::dispatcher::split_package_combine;
use composer_mirror::dispatcher::split_reference_and_type;
use composer_mirror::dispatcher::trim_json_suffix;
use composer_mirror::dist::Dist;
use composer_mirror::package::Package;

fn sample_dist() -> Dist {
    Dist::new(
        Package::new("acme", "widget"),
        "v1.2.0".to_string(),
        "abcd1234".to_string(),
        "zip".to_string(),
    )
}

#[test]
fn package_full_name_combines_vendor_and_name() {
    let p = Package::new("acme", "widget");
    assert_eq!(p.vendor, "acme");
    assert_eq!(p.package, "widget");
    assert_eq!(p.full_name, "acme/widget");
}

#[test]
fn dist_keeps_its_fields() {
    let d = sample_dist();
    assert_eq!(d.package.full_name, "acme/widget");
    assert_eq!(d.version, "v1.2.0");
    assert_eq!(d.reference, "abcd1234");
    assert_eq!(d.dist_type, "zip");
}

#[test]
fn split_reference_splits_at_first_dot() {
    let r = split_reference_and_type("abcd1234.zip").unwrap();
    assert_eq!(r.0, "abcd1234");
    assert_eq!(r.1, "zip");
}

#[test]
fn split_reference_keeps_later_dots_in_type() {
    let r = split_reference_and_type("abc.tar.gz").unwrap();
    assert_eq!(r.0, "abc");
    assert_eq!(r.1, "tar.gz");
}

#[test]
fn split_reference_rejects_segment_without_dot() {
    assert!(split_reference_and_type("nodot").is_none());
}

#[test]
fn trim_json_suffix_strips_one_suffix() {
    assert_eq!(trim_json_suffix("acme/widget.json").unwrap(), "acme/widget");
    assert!(trim_json_suffix("acme/widget.zip").is_none());
    assert!(trim_json_suffix("short").is_none());
}

#[test]
fn split_package_combine_takes_first_two_segments() {
    let r = split_package_combine("acme/widget").unwrap();
    assert_eq!(r.0, "acme");
    assert_eq!(r.1, "widget");
    let r = split_package_combine("acme/widget/extra").unwrap();
    assert_eq!(r.0, "acme");
    assert_eq!(r.1, "widget");
    assert!(split_package_combine("noslash").is_none());
}
