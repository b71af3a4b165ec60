//! Racing Resolver: builds the candidate URLs for a dist — each configured
//! third-party cache site prefixed to a tag-archive URL derived from the
//! package's source repository, plus the two official mirrors' URLs — and
//! decides the race over them.
//!
//! The caller probes all candidates concurrently and reports each task's
//! outcome as it completes; the first completed success wins, and when every
//! task completes without one the race ends as not-found.

use crate::dist::Dist;
use crate::metadata::find_version_entry;
use crate::metadata::spec_lookup;
use crate::metadata::spec_strip_git;
use crate::metadata::strip_git_suffix;
use crate::mirrors::aliyun::Aliyun;
use crate::mirrors::aliyun::spec_aliyun_dist_url;
use crate::mirrors::packagist::spec_package_meta_url;
use crate::mirrors::tencent::Tencent;
use crate::mirrors::tencent::spec_tencent_dist_url;
use crate::response::DistResponse;
use crate::response::DistResponseView;
use crate::text::replace;
use vstd::prelude::*;
use vstd::string::StringExecFns;

verus! {

/// The first success among race task outcomes, taken in completion order.
pub open spec fn spec_first_success(events: Seq<Option<Seq<char>>>) -> Option<Seq<char>>
    decreases events.len(),
{
    if events.len() == 0 {
        None
    } else if events[0] is Some {
        events[0]
    } else {
        spec_first_success(events.drop_first())
    }
}

/// What the race resolves to for a given sequence of task outcomes in
/// completion order: a redirect to the first completed success, or
/// not-found when every task completes without one.
pub open spec fn spec_race_outcome(events: Seq<Option<Seq<char>>>) -> DistResponseView {
    match spec_first_success(events) {
        Some(url) => DistResponseView::Redirect(url),
        None => DistResponseView::NotFound,
    }
}

/// Law: if task `k` is the first to complete with a success, the race
/// resolves to exactly that task's URL; outcomes completing after it do not
/// matter.
pub proof fn lemma_race_first_completed_success_wins(events: Seq<Option<Seq<char>>>, k: int)
    requires
        0 <= k < events.len(),
        events[k] is Some,
        forall|j: int| 0 <= j < k ==> events[j] is None,
    ensures
        spec_race_outcome(events) == DistResponseView::Redirect(events[k]->0),
    decreases k,
{
    if k > 0 {
        assert(forall|j: int| 0 <= j < k - 1 ==> events.drop_first()[j] is None);
        assert(events.drop_first()[k - 1] is Some);
        lemma_race_first_completed_success_wins(events.drop_first(), k - 1);
    }
}

/// Law: if every task completes with not-found or an error, the race
/// resolves to not-found.
pub proof fn lemma_race_all_fail(events: Seq<Option<Seq<char>>>)
    requires
        forall|j: int| 0 <= j < events.len() ==> events[j] is None,
    ensures
        spec_race_outcome(events) == DistResponseView::NotFound,
    decreases events.len(),
{
    if events.len() > 0 {
        assert(forall|j: int| 0 <= j < events.drop_first().len() ==> events.drop_first()[j] is None);
        lemma_race_all_fail(events.drop_first());
    }
}

/// Ghost form of the resolver's next step.
pub enum RacingStepView {
    Race(Seq<Seq<char>>),
    Respond(DistResponseView),
}

/// What the resolver asks its caller to do next: probe the given candidate
/// URLs concurrently, or answer the request at once.
pub enum RacingStep {
    Race(Vec<String>),
    Respond(DistResponse),
}

impl View for RacingStep {
    type V = RacingStepView;

    open spec fn view(&self) -> RacingStepView {
        match self {
            RacingStep::Race(urls) => RacingStepView::Race(urls.deep_view()),
            RacingStep::Respond(resp) => RacingStepView::Respond(resp@),
        }
    }
}

/// The verdict on one completed race task.
pub enum RaceVerdict {
    Continue,
    Respond(DistResponse),
}

/// Decides the race after one task completes: a success ends the race with a
/// redirect to its URL; a failure with tasks still pending continues the
/// race; the last failure ends it as not-found.
pub fn race_step(finished: &Option<String>, remaining: usize) -> (v: RaceVerdict)
    ensures
        (finished matches Some(url) ==> (v matches RaceVerdict::Respond(resp) && resp@
            == DistResponseView::Redirect(url@))),
        finished is None && remaining == 0 ==> (v matches RaceVerdict::Respond(resp) && resp@
            == DistResponseView::NotFound),
        finished is None && remaining > 0 ==> v is Continue,
{
    match finished {
        Some(url) => RaceVerdict::Respond(DistResponse::Redirect(url.clone())),
        None => {
            if remaining == 0 {
                RaceVerdict::Respond(DistResponse::NotFound)
            } else {
                RaceVerdict::Continue
            }
        },
    }
}

/// Resolves a whole race from its task outcomes in completion order,
/// stopping at the first success and leaving later outcomes unread.
pub fn settle_race(results: &Vec<Option<String>>) -> (r: DistResponse)
    ensures
        r@ == spec_race_outcome(results.deep_view()),
{
    let n = results.len();
    let mut i: usize = 0;
    while i < n
        invariant
            i <= n,
            n == results.len(),
            forall|j: int| 0 <= j < i ==> results.deep_view()[j] is None,
        decreases n - i,
    {
        let v = race_step(&results[i], n - 1 - i);
        match v {
            RaceVerdict::Respond(resp) => {
                proof {
                    if results@[i as int] is Some {
                        lemma_race_first_completed_success_wins(results.deep_view(), i as int);
                    } else {
                        assert(i == n - 1);
                        assert(forall|j: int|
                            0 <= j < results.deep_view().len() ==> results.deep_view()[j] is None);
                        lemma_race_all_fail(results.deep_view());
                    }
                }
                return resp;
            },
            RaceVerdict::Continue => {},
        }
        i += 1;
    }
    proof {
        lemma_race_all_fail(results.deep_view());
    }
    DistResponse::NotFound
}

/// Serves a dist by racing the configured third-party cache sites and the
/// two official mirrors for the first successful probe.
pub struct CacheThirdSiteStrategy {
    pub cache_site_list: Vec<String>,
    pub dist_url_params: Dist,
    pub packages_meta_url_template: String,
}

impl CacheThirdSiteStrategy {
    pub fn new(
        cache_site_list: Vec<String>,
        dist: Dist,
        packages_meta_url_template: String,
    ) -> (s: CacheThirdSiteStrategy)
        ensures
            s.cache_site_list == cache_site_list,
            s.dist_url_params == dist,
            s.packages_meta_url_template == packages_meta_url_template,
    {
        CacheThirdSiteStrategy { cache_site_list, dist_url_params: dist, packages_meta_url_template }
    }

    /// The metadata-document URL used to locate the source repository.
    pub open spec fn spec_meta_url(self) -> Seq<char> {
        spec_package_meta_url(self.packages_meta_url_template@, self.dist_url_params.package)
    }

    /// The tag-archive URL derived from a source-repository URL:
    /// `{source}/archive/refs/tags/{version}.{dist_type}`.
    pub open spec fn spec_tag_url(self, source_url: Seq<char>) -> Seq<char> {
        source_url + "/archive/refs/tags/"@ + self.dist_url_params.version@ + "."@
            + self.dist_url_params.dist_type@
    }

    /// The candidate set raced for this dist: each cache site prefixed to
    /// the tag-archive URL, then the two official mirrors' URLs.
    pub open spec fn spec_candidate_urls(self, tag_url: Seq<char>) -> Seq<Seq<char>> {
        self.cache_site_list.deep_view().map_values(|site: Seq<char>| site + "/"@ + tag_url)
            + seq![
            spec_tencent_dist_url(self.dist_url_params),
            spec_aliyun_dist_url(self.dist_url_params),
        ]
    }

    /// Next step after the metadata fetch (`None` for a transport failure):
    /// a located source repository starts the race over the candidate set;
    /// anything else ends the request as not-found.
    pub open spec fn spec_on_metadata(self, doc: Option<Seq<char>>) -> RacingStepView {
        match doc {
            Some(d) => match spec_lookup(
                d,
                self.dist_url_params.package.full_name@,
                self.dist_url_params.version@,
            ) {
                Some(entry) => RacingStepView::Race(
                    self.spec_candidate_urls(self.spec_tag_url(spec_strip_git(entry.source_url))),
                ),
                None => RacingStepView::Respond(DistResponseView::NotFound),
            },
            None => RacingStepView::Respond(DistResponseView::NotFound),
        }
    }

    /// The metadata-document URL for this request's package.
    pub fn get_meta_url(&self) -> (r: String)
        ensures
            r@ == self.spec_meta_url(),
    {
        replace(
            self.packages_meta_url_template.as_str(),
            "%package%",
            self.dist_url_params.package.full_name.as_str(),
        )
    }

    /// The source-repository URL for this request's version, with a trailing
    /// `.git` removed; `None` when the document has no usable entry.
    pub fn get_source_url(&self, doc: &str) -> (r: Option<String>)
        ensures
            (r matches Some(u) ==> (spec_lookup(
                doc@,
                self.dist_url_params.package.full_name@,
                self.dist_url_params.version@,
            ) matches Some(entry) && u@ == spec_strip_git(entry.source_url))),
            r is None ==> spec_lookup(
                doc@,
                self.dist_url_params.package.full_name@,
                self.dist_url_params.version@,
            ) is None,
    {
        let entry = find_version_entry(
            doc,
            self.dist_url_params.package.full_name.as_str(),
            self.dist_url_params.version.as_str(),
        );
        match entry {
            Some(e) => Some(strip_git_suffix(e.source_url.as_str())),
            None => None,
        }
    }

    /// The tag-archive URL for this request under `source_url`.
    pub fn get_tag_url(&self, source_url: &str) -> (r: String)
        ensures
            r@ == self.spec_tag_url(source_url@),
    {
        let mut r = source_url.to_owned();
        r.append("/archive/refs/tags/");
        r.append(self.dist_url_params.version.as_str());
        r.append(".");
        r.append(self.dist_url_params.dist_type.as_str());
        r
    }

    /// The candidate URLs raced for this request, in submission order.
    pub fn candidate_urls(&self, tag_url: &str) -> (r: Vec<String>)
        ensures
            r.deep_view() == self.spec_candidate_urls(tag_url@),
    {
        let mut r: Vec<String> = Vec::new();
        let n = self.cache_site_list.len();
        let mut i: usize = 0;
        while i < n
            invariant
                i <= n,
                n == self.cache_site_list.len(),
                r@.len() == i,
                forall|j: int|
                    0 <= j < i ==> r@[j]@ == self.cache_site_list@[j]@ + "/"@ + tag_url@,
            decreases n - i,
        {
            let mut url = self.cache_site_list[i].clone();
            url.append("/");
            url.append(tag_url);
            r.push(url);
            i += 1;
        }
        let tencent_mirror = Tencent::new();
        r.push(tencent_mirror.get_dist_url(&self.dist_url_params));
        let aliyun_mirror = Aliyun::new();
        r.push(aliyun_mirror.get_dist_url(&self.dist_url_params));
        proof {
            let goal = self.spec_candidate_urls(tag_url@);
            assert forall|j: int| 0 <= j < n + 2 implies r.deep_view()[j] == goal[j] by {
                assert(r.deep_view()[j] == r@[j]@);
                if j < n {
                    assert(self.cache_site_list.deep_view()[j] == self.cache_site_list@[j]@);
                }
            }
            assert(r.deep_view() =~= goal);
        }
        r
    }

    /// Decides the step after the metadata fetch; `doc` is `None` when the
    /// fetch itself failed.
    pub fn on_metadata(&self, doc: Option<&str>) -> (s: RacingStep)
        ensures
            (doc matches Some(d) ==> s@ == self.spec_on_metadata(Some(d@))),
            doc is None ==> s@ == self.spec_on_metadata(None),
    {
        let d = match doc {
            Some(d) => d,
            None => {
                return RacingStep::Respond(DistResponse::NotFound);
            },
        };
        match self.get_source_url(d) {
            Some(source_url) => {
                let tag_url = self.get_tag_url(source_url.as_str());
                RacingStep::Race(self.candidate_urls(tag_url.as_str()))
            },
            None => RacingStep::Respond(DistResponse::NotFound),
        }
    }
}

} // verus!
