use composer_mirror::dispatcher::dispatch_after_probe;
use composer_mirror::dispatcher::dispatch_begin;
use composer_mirror::dispatcher::DispatchStep;
use composer_mirror::dispatcher::MirrorId;
use composer_mirror::dist::Dist;
use composer_mirror::package::Package;
use composer_mirror::response::DistResponse;

fn sample_dist() -> Dist {
    Dist::new(
        Package::new("acme", "widget"),
        "v1.2.0".to_string(),
        "abcd1234".to_string(),
        "zip".to_string(),
    )
}

/// A mirror stub that always reports "exists" but records whether it was
/// queried: with a whitelisted package the dispatcher never emits a probe
/// step, so the stub is never consulted.
struct AlwaysExistsStub {
    queried: bool,
}

impl AlwaysExistsStub {
    fn probe(&mut self) -> bool {
        self.queried = true;
        true
    }
}

#[test]
fn whitelisted_package_bypasses_both_mirrors() {
    let mut stub = AlwaysExistsStub { queried: false };
    let step = dispatch_begin(true, &sample_dist());
    match step {
        DispatchStep::Fallback => {}
        DispatchStep::Probe { .. } => {
            stub.probe();
            panic!("whitelisted package must not probe a mirror");
        }
        DispatchStep::Respond(_) => panic!("whitelisted package must run the fallback strategy"),
    }
    assert!(!stub.queried);
}

#[test]
fn non_whitelisted_package_probes_tencent_first() {
    let step = dispatch_begin(false, &sample_dist());
    match step {
        DispatchStep::Probe { mirror, url } => {
            assert_eq!(mirror, MirrorId::Tencent);
            assert_eq!(
                url,
                "https://mirrors.cloud.tencent.com/repository/composer/acme/widget/v1.2.0/acme-widget-v1.2.0.zip"
            );
        }
        _ => panic!("expected a probe of the first mirror"),
    }
}

#[test]
fn first_mirror_hit_redirects_and_never_probes_second() {
    let step = dispatch_after_probe(MirrorId::Tencent, true, &sample_dist());
    match step {
        DispatchStep::Respond(DistResponse::Redirect(url)) => {
            assert_eq!(
                url,
                "https://mirrors.cloud.tencent.com/repository/composer/acme/widget/v1.2.0/acme-widget-v1.2.0.zip"
            );
        }
        _ => panic!("a reported hit on the first mirror must redirect there"),
    }
}

#[test]
fn first_mirror_miss_probes_aliyun() {
    let step = dispatch_after_probe(MirrorId::Tencent, false, &sample_dist());
    match step {
        DispatchStep::Probe { mirror, url } => {
            assert_eq!(mirror, MirrorId::Aliyun);
            assert_eq!(url, "https://mirrors.aliyun.com/composer/dists/acme/widget/abcd1234.zip");
        }
        _ => panic!("a miss on the first mirror must probe the second"),
    }
}

#[test]
fn second_mirror_hit_redirects_there() {
    let step = dispatch_after_probe(MirrorId::Aliyun, true, &sample_dist());
    match step {
        DispatchStep::Respond(DistResponse::Redirect(url)) => {
            assert_eq!(url, "https://mirrors.aliyun.com/composer/dists/acme/widget/abcd1234.zip");
        }
        _ => panic!("a reported hit on the second mirror must redirect there"),
    }
}

#[test]
fn both_mirrors_missing_falls_back_to_strategy() {
    let step = dispatch_after_probe(MirrorId::Aliyun, false, &sample_dist());
    assert!(matches!(step, DispatchStep::Fallback));
}
