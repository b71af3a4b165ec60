//! Dispatcher: the entry point of dist resolution. It applies the whitelist
//! bypass, then asks for the two official mirrors' existence probes in fixed
//! order, and falls back to the configured strategy.
//!
//! The network probes are performed by the caller; this module decides, from
//! the whitelist fact and each probe's outcome, what to do next. The route
//! parsing that turns path segments into identifiers lives here as well.

use crate::dist::Dist;
use crate::mirrors::aliyun::Aliyun;
use crate::mirrors::aliyun::spec_aliyun_dist_url;
use crate::mirrors::storage_self::spec_object_name;
use crate::mirrors::tencent::Tencent;
use crate::mirrors::tencent::spec_tencent_dist_url;
use crate::response::DistResponse;
use crate::response::DistResponseView;
use crate::text::has_suffix;
use crate::text::find_char;
use crate::text::spec_find_char;
use crate::text::spec_has_suffix;
use crate::text::substring_from;
use crate::text::substring_to;
use vstd::prelude::*;
use vstd::string::StrSliceExecFns;

verus! {

/// The two officially replicated mirrors, in their fixed probe order.
#[derive(Clone, Copy, PartialEq, Eq, Structural, Debug)]
pub enum MirrorId {
    Tencent,
    Aliyun,
}

/// The archive URL the given mirror is expected to serve for `d`.
pub open spec fn spec_mirror_dist_url(mirror: MirrorId, d: Dist) -> Seq<char> {
    match mirror {
        MirrorId::Tencent => spec_tencent_dist_url(d),
        MirrorId::Aliyun => spec_aliyun_dist_url(d),
    }
}

/// Ghost form of the dispatcher's next step.
pub enum DispatchStepView {
    Probe { mirror: MirrorId, url: Seq<char> },
    Fallback,
    Respond(DistResponseView),
}

/// What the dispatcher asks its caller to do next: run an existence check
/// against a mirror's URL, run the configured fallback strategy, or answer
/// the request at once.
pub enum DispatchStep {
    Probe { mirror: MirrorId, url: String },
    Fallback,
    Respond(DistResponse),
}

impl View for DispatchStep {
    type V = DispatchStepView;

    open spec fn view(&self) -> DispatchStepView {
        match self {
            DispatchStep::Probe { mirror, url } => DispatchStepView::Probe {
                mirror: *mirror,
                url: url@,
            },
            DispatchStep::Fallback => DispatchStepView::Fallback,
            DispatchStep::Respond(resp) => DispatchStepView::Respond(resp@),
        }
    }
}

/// First step for a dist request: a whitelisted package goes straight to the
/// configured fallback strategy; any other package is probed on the first
/// mirror.
pub open spec fn spec_dispatch_begin(whitelisted: bool, d: Dist) -> DispatchStepView {
    if whitelisted {
        DispatchStepView::Fallback
    } else {
        DispatchStepView::Probe { mirror: MirrorId::Tencent, url: spec_tencent_dist_url(d) }
    }
}

/// Step after a mirror probe: a hit redirects to that mirror at once; a miss
/// on the first mirror probes the second, and a miss on the second falls
/// back to the configured strategy.
pub open spec fn spec_dispatch_after_probe(mirror: MirrorId, exists: bool, d: Dist) -> DispatchStepView {
    if exists {
        DispatchStepView::Respond(DistResponseView::Redirect(spec_mirror_dist_url(mirror, d)))
    } else {
        match mirror {
            MirrorId::Tencent => DispatchStepView::Probe {
                mirror: MirrorId::Aliyun,
                url: spec_aliyun_dist_url(d),
            },
            MirrorId::Aliyun => DispatchStepView::Fallback,
        }
    }
}

/// Decides the dispatcher's first step from the whitelist fact.
pub fn dispatch_begin(whitelisted: bool, dist: &Dist) -> (s: DispatchStep)
    ensures
        s@ == spec_dispatch_begin(whitelisted, *dist),
        whitelisted ==> s is Fallback,
{
    if whitelisted {
        DispatchStep::Fallback
    } else {
        let tencent_mirror = Tencent::new();
        DispatchStep::Probe { mirror: MirrorId::Tencent, url: tencent_mirror.get_dist_url(dist) }
    }
}

/// Decides the dispatcher's step after one mirror's existence probe.
pub fn dispatch_after_probe(mirror: MirrorId, exists: bool, dist: &Dist) -> (s: DispatchStep)
    ensures
        s@ == spec_dispatch_after_probe(mirror, exists, *dist),
        exists ==> s is Respond,
{
    if exists {
        let url = match mirror {
            MirrorId::Tencent => Tencent::new().get_dist_url(dist),
            MirrorId::Aliyun => Aliyun::new().get_dist_url(dist),
        };
        DispatchStep::Respond(DistResponse::Redirect(url))
    } else {
        match mirror {
            MirrorId::Tencent => DispatchStep::Probe {
                mirror: MirrorId::Aliyun,
                url: Aliyun::new().get_dist_url(dist),
            },
            MirrorId::Aliyun => DispatchStep::Fallback,
        }
    }
}

/// Law: a whitelisted package routes straight to the configured fallback
/// strategy; no mirror probe is ever requested for it, whatever the mirrors
/// hold.
pub proof fn lemma_whitelist_bypasses_mirrors(d: Dist)
    ensures
        spec_dispatch_begin(true, d) == DispatchStepView::Fallback,
{
}

/// Law: mirror probe order is respected: when the first mirror reports the
/// archive, the dispatcher redirects there at once, so the second mirror is
/// never probed.
pub proof fn lemma_mirror_order_respected(d: Dist)
    ensures
        spec_dispatch_after_probe(MirrorId::Tencent, true, d) == DispatchStepView::Respond(
            DistResponseView::Redirect(spec_tencent_dist_url(d)),
        ),
{
}

/// The dispatcher's decision table over the whitelist fact and the two
/// mirrors' presence bits: whitelisted packages and packages neither mirror
/// holds go to the configured fallback strategy; otherwise the first mirror
/// that holds the archive wins, the earlier-listed one preferred.
pub open spec fn spec_dispatch_decision(
    whitelisted: bool,
    exists_a: bool,
    exists_b: bool,
    d: Dist,
) -> DispatchStepView {
    if whitelisted {
        DispatchStepView::Fallback
    } else if exists_a {
        DispatchStepView::Respond(DistResponseView::Redirect(spec_tencent_dist_url(d)))
    } else if exists_b {
        DispatchStepView::Respond(DistResponseView::Redirect(spec_aliyun_dist_url(d)))
    } else {
        DispatchStepView::Fallback
    }
}

/// Law: driving the dispatcher step by step with the mirrors' probe answers
/// realises exactly the decision table above, whatever the answers are.
pub proof fn lemma_dispatch_pipeline(whitelisted: bool, exists_a: bool, exists_b: bool, d: Dist)
    ensures
        whitelisted ==> spec_dispatch_begin(whitelisted, d) == spec_dispatch_decision(
            whitelisted,
            exists_a,
            exists_b,
            d,
        ),
        !whitelisted ==> spec_dispatch_begin(whitelisted, d) == (DispatchStepView::Probe {
            mirror: MirrorId::Tencent,
            url: spec_tencent_dist_url(d),
        }),
        !whitelisted && exists_a ==> spec_dispatch_after_probe(MirrorId::Tencent, exists_a, d)
            == spec_dispatch_decision(whitelisted, exists_a, exists_b, d),
        !whitelisted && !exists_a ==> spec_dispatch_after_probe(MirrorId::Tencent, exists_a, d)
            == (DispatchStepView::Probe { mirror: MirrorId::Aliyun, url: spec_aliyun_dist_url(d) }),
        !whitelisted && !exists_a ==> spec_dispatch_after_probe(MirrorId::Aliyun, exists_b, d)
            == spec_dispatch_decision(whitelisted, exists_a, exists_b, d),
{
}

/// Law: the object-storage key and each mirror's archive URL are pure
/// functions of the dist's fields: equal fields give equal strings.
pub proof fn lemma_resolution_is_pure(d1: Dist, d2: Dist)
    requires
        d1.package.full_name@ == d2.package.full_name@,
        d1.version@ == d2.version@,
        d1.reference@ == d2.reference@,
        d1.dist_type@ == d2.dist_type@,
    ensures
        spec_object_name(d1) == spec_object_name(d2),
        spec_tencent_dist_url(d1) == spec_tencent_dist_url(d2),
        spec_aliyun_dist_url(d1) == spec_aliyun_dist_url(d2),
{
}

/// How a request's trailing path segment splits at its first `.`: the
/// content reference before it and the archive type after it.
pub open spec fn spec_split_reference(segment: Seq<char>) -> Option<(Seq<char>, Seq<char>)> {
    match spec_find_char(segment, '.') {
        Some(k) => Some((segment.subrange(0, k), segment.subrange(k + 1, segment.len() as int))),
        None => None,
    }
}

/// Splits a trailing path segment such as `abcd1234.zip` at its first `.`
/// into the content reference and the archive type; `None` when the segment
/// holds no `.`.
pub fn split_reference_and_type(segment: &str) -> (r: Option<(String, String)>)
    ensures
        (r matches Some(parts) ==> spec_split_reference(segment@) == Some((parts.0@, parts.1@))),
        r is None ==> spec_split_reference(segment@) is None,
{
    // The character count fits in usize, so an index the scan returns stays
    // below usize::MAX and `k + 1` cannot overflow.
    let _len: usize = segment.unicode_len();
    match find_char(segment, '.') {
        Some(k) => {
            let reference = substring_to(segment, k);
            let dist_type = substring_from(segment, k + 1);
            Some((reference, dist_type))
        },
        None => None,
    }
}

/// `path` with one trailing `.json` removed; `None` when the suffix is
/// absent, which a metadata route answers as not-found.
pub fn trim_json_suffix(path: &str) -> (r: Option<String>)
    ensures
        (r matches Some(combine) ==> spec_has_suffix(path@, ".json"@) && combine@ == path@.subrange(
            0,
            path@.len() - ".json"@.len(),
        )),
        r is None ==> !spec_has_suffix(path@, ".json"@),
{
    proof {
        reveal_strlit(".json");
    }
    if has_suffix(path, ".json") {
        let n: usize = path.unicode_len();
        Some(substring_to(path, n - 5))
    } else {
        None
    }
}

/// The vendor and package segments of a combined key such as
/// `vendor/name`: the first `/`-separated segment and the one after it (up
/// to the next `/`, if any); `None` when the key holds no `/`.
pub fn split_package_combine(combine: &str) -> (r: Option<(String, String)>)
    ensures
        (r matches Some(parts) ==> (spec_find_char(combine@, '/') matches Some(k)
            && parts.0@ == combine@.subrange(0, k) && parts.1@ == ({
            let rest = combine@.subrange(k + 1, combine@.len() as int);
            match spec_find_char(rest, '/') {
                Some(m) => rest.subrange(0, m),
                None => rest,
            }
        }))),
        r is None ==> spec_find_char(combine@, '/') is None,
{
    // As above: binds the character count so `k + 1` is known to fit.
    let _len: usize = combine.unicode_len();
    match find_char(combine, '/') {
        Some(k) => {
            let vendor = substring_to(combine, k);
            let rest = substring_from(combine, k + 1);
            let package = match find_char(rest.as_str(), '/') {
                Some(m) => substring_to(rest.as_str(), m),
                None => rest,
            };
            Some((vendor, package))
        },
        None => None,
    }
}

} // verus!
