use composer_mirror::dist::Dist;
use composer_mirror::mirrors::aliyun::Aliyun;
use composer_mirror::mirrors::cache_third_site::CacheThirdSiteStrategy;
use composer_mirror::mirrors::packagist::Packagist;
use composer_mirror::mirrors::storage_self::StorageSelfStrategy;
use composer_mirror::mirrors::tencent::Tencent;
use composer_mirror::package::Package;

fn sample_dist() -> Dist {
    Dist::new(
        Package::new("acme", "widget"),
        "v1.2.0".to_string(),
        "abcd1234".to_string(),
        "zip".to_string(),
    )
}

fn sample_storage(domain: &str) -> StorageSelfStrategy {
    StorageSelfStrategy::new(
        domain.to_string(),
        "ak".to_string(),
        "sk".to_string(),
        "bucket".to_string(),
        "https://packagist.example/p2/%package%.json".to_string(),
        sample_dist(),
    )
}

#[test]
fn tencent_dist_url_is_deterministic_template() {
    let url = Tencent::new().get_dist_url(&sample_dist());
    assert_eq!(
        url,
        "https://mirrors.cloud.tencent.com/repository/composer/acme/widget/v1.2.0/acme-widget-v1.2.0.zip"
    );
}

#[test]
fn aliyun_dist_url_is_deterministic_template() {
    let url = Aliyun::new().get_dist_url(&sample_dist());
    assert_eq!(url, "https://mirrors.aliyun.com/composer/dists/acme/widget/abcd1234.zip");
}

#[test]
fn resolve_urls_are_pure_functions_of_the_dist() {
    let d1 = sample_dist();
    let d2 = sample_dist();
    assert_eq!(Tencent::new().get_dist_url(&d1), Tencent::new().get_dist_url(&d2));
    assert_eq!(Aliyun::new().get_dist_url(&d1), Aliyun::new().get_dist_url(&d2));
    let s1 = sample_storage("cdn.example.org");
    let s2 = sample_storage("cdn.example.org");
    assert_eq!(s1.get_object_name(), s2.get_object_name());
    assert_eq!(s1.get_dist_url(), s2.get_dist_url());
}

#[test]
fn object_name_is_the_deterministic_key() {
    let s = sample_storage("cdn.example.org");
    assert_eq!(s.get_object_name(), "acme/widget/v1.2.0/abcd1234.zip");
    assert_eq!(s.get_dist_url(), "http://cdn.example.org/acme/widget/v1.2.0/abcd1234.zip");
}

#[test]
fn tencent_package_meta_url_uses_full_name() {
    let url = Tencent::new().get_package_meta_url(&Package::new("acme", "widget"));
    assert_eq!(url, "https://mirrors.cloud.tencent.com/repository/composer/p/acme/widget.json");
}

#[test]
fn packagist_meta_url_fills_the_placeholder() {
    let m = Packagist::new("https://packagist.example/p2/%package%.json".to_string());
    let url = m.get_package_meta_url(&Package::new("acme", "widget"));
    assert_eq!(url, "https://packagist.example/p2/acme/widget.json");
}

#[test]
fn packagist_meta_url_without_placeholder_is_unchanged() {
    let m = Packagist::new("https://packagist.example/all.json".to_string());
    let url = m.get_package_meta_url(&Package::new("acme", "widget"));
    assert_eq!(url, "https://packagist.example/all.json");
}

#[test]
fn packagist_meta_url_fills_every_placeholder() {
    let m = Packagist::new("https://%package%.example/p2/%package%.json".to_string());
    let url = m.get_package_meta_url(&Package::new("acme", "widget"));
    assert_eq!(url, "https://acme/widget.example/p2/acme/widget.json");
}

#[test]
fn tag_url_is_built_from_source_version_and_type() {
    let s = CacheThirdSiteStrategy::new(
        Vec::new(),
        sample_dist(),
        "https://packagist.example/p2/%package%.json".to_string(),
    );
    let tag = s.get_tag_url("https://github.com/acme/widget");
    assert_eq!(tag, "https://github.com/acme/widget/archive/refs/tags/v1.2.0.zip");
}

#[test]
fn candidates_are_sites_then_tencent_then_aliyun() {
    let s = CacheThirdSiteStrategy::new(
        vec![
            "https://c1.example".to_string(),
            "https://c2.example".to_string(),
            "https://c3.example".to_string(),
        ],
        sample_dist(),
        "https://packagist.example/p2/%package%.json".to_string(),
    );
    let tag = "https://github.com/acme/widget/archive/refs/tags/v1.2.0.zip";
    let urls = s.candidate_urls(tag);
    assert_eq!(
        urls,
        vec![
            format!("https://c1.example/{}", tag),
            format!("https://c2.example/{}", tag),
            format!("https://c3.example/{}", tag),
            "https://mirrors.cloud.tencent.com/repository/composer/acme/widget/v1.2.0/acme-widget-v1.2.0.zip".to_string(),
            "https://mirrors.aliyun.com/composer/dists/acme/widget/abcd1234.zip".to_string(),
        ]
    );
}
