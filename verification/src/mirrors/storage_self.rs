//! Self-Hosted Cache Strategy: check whether the archive already sits at a
//! deterministic key in the operator's own object store; on a miss, locate
//! the origin archive through the metadata client, upload it, and resolve to
//! the self-hosted URL.
//!
//! The network steps (existence probe, metadata fetch, download and upload)
//! are performed by the caller; this module decides, from each step's
//! outcome, what to do next.

use crate::dist::Dist;
use crate::metadata::find_version_entry;
use crate::metadata::spec_lookup;
use crate::mirrors::packagist::spec_package_meta_url;
use crate::response::DistResponse;
use crate::response::DistResponseView;
use crate::text::replace;
use vstd::prelude::*;
use vstd::string::StringExecFns;

verus! {

/// The deterministic object-storage key for a dist:
/// `full_name/version/reference.dist_type`.
pub open spec fn spec_object_name(d: Dist) -> Seq<char> {
    d.package.full_name@ + "/"@ + d.version@ + "/"@ + d.reference@ + "."@ + d.dist_type@
}

/// Ghost form of the strategy's next step.
pub enum SelfHostedStepView {
    Respond(DistResponseView),
    FetchOrigin(Seq<char>),
    Upload { origin_url: Seq<char>, object_name: Seq<char> },
}

/// What the strategy asks its caller to do next: answer the request, fetch
/// the metadata document at the given URL, or download the origin archive
/// and upload it under the given object name.
pub enum SelfHostedStep {
    Respond(DistResponse),
    FetchOrigin(String),
    Upload { origin_url: String, object_name: String },
}

impl View for SelfHostedStep {
    type V = SelfHostedStepView;

    open spec fn view(&self) -> SelfHostedStepView {
        match self {
            SelfHostedStep::Respond(resp) => SelfHostedStepView::Respond(resp@),
            SelfHostedStep::FetchOrigin(url) => SelfHostedStepView::FetchOrigin(url@),
            SelfHostedStep::Upload { origin_url, object_name } => SelfHostedStepView::Upload {
                origin_url: origin_url@,
                object_name: object_name@,
            },
        }
    }
}

/// Serves a dist from the operator's own object store, populating it from
/// the origin registry on first access.
pub struct StorageSelfStrategy {
    pub domain: String,
    pub access_key: String,
    pub secret_key: String,
    pub bucket_name: String,
    pub packages_meta_url_template: String,
    pub dist_url_params: Dist,
}

impl StorageSelfStrategy {
    pub fn new(
        domain: String,
        access_key: String,
        secret_key: String,
        bucket_name: String,
        packages_meta_url_template: String,
        dist: Dist,
    ) -> (s: StorageSelfStrategy)
        ensures
            s.domain == domain,
            s.access_key == access_key,
            s.secret_key == secret_key,
            s.bucket_name == bucket_name,
            s.packages_meta_url_template == packages_meta_url_template,
            s.dist_url_params == dist,
    {
        StorageSelfStrategy {
            domain,
            access_key,
            secret_key,
            bucket_name,
            packages_meta_url_template,
            dist_url_params: dist,
        }
    }

    /// The self-hosted URL the dist resolves to once cached.
    pub open spec fn spec_dist_url(self) -> Seq<char> {
        "http://"@ + self.domain@ + "/"@ + spec_object_name(self.dist_url_params)
    }

    /// The metadata-document URL used on a cache miss.
    pub open spec fn spec_meta_url(self) -> Seq<char> {
        spec_package_meta_url(
            self.packages_meta_url_template@,
            self.dist_url_params.package,
        )
    }

    /// Next step after the existence probe: a hit resolves immediately to
    /// the self-hosted URL; a miss asks for the origin metadata.
    pub open spec fn spec_on_existence(self, exists: bool) -> SelfHostedStepView {
        if exists {
            SelfHostedStepView::Respond(DistResponseView::Redirect(self.spec_dist_url()))
        } else {
            SelfHostedStepView::FetchOrigin(self.spec_meta_url())
        }
    }

    /// Next step after the metadata fetch (`None` for a transport failure):
    /// a located origin entry asks for the download-and-upload; anything
    /// else ends the request as not-found, with no upload attempted.
    pub open spec fn spec_on_metadata(self, doc: Option<Seq<char>>) -> SelfHostedStepView {
        match doc {
            Some(d) => match spec_lookup(
                d,
                self.dist_url_params.package.full_name@,
                self.dist_url_params.version@,
            ) {
                Some(entry) => SelfHostedStepView::Upload {
                    origin_url: entry.dist_url,
                    object_name: spec_object_name(self.dist_url_params),
                },
                None => SelfHostedStepView::Respond(DistResponseView::NotFound),
            },
            None => SelfHostedStepView::Respond(DistResponseView::NotFound),
        }
    }

    /// The final answer after the upload: success resolves to the
    /// self-hosted URL, failure ends the request as not-found.
    pub open spec fn spec_on_upload(self, ok: bool) -> DistResponseView {
        if ok {
            DistResponseView::Redirect(self.spec_dist_url())
        } else {
            DistResponseView::NotFound
        }
    }

    /// The deterministic object-storage key for this request's dist.
    pub fn get_object_name(&self) -> (r: String)
        ensures
            r@ == spec_object_name(self.dist_url_params),
    {
        let d = &self.dist_url_params;
        let mut r = d.package.full_name.clone();
        r.append("/");
        r.append(d.version.as_str());
        r.append("/");
        r.append(d.reference.as_str());
        r.append(".");
        r.append(d.dist_type.as_str());
        r
    }

    /// The self-hosted URL for this request's dist.
    pub fn get_dist_url(&self) -> (r: String)
        ensures
            r@ == self.spec_dist_url(),
    {
        let mut r = "http://".to_owned();
        r.append(self.domain.as_str());
        r.append("/");
        let object_name = self.get_object_name();
        r.append(object_name.as_str());
        r
    }

    /// The metadata-document URL for this request's package.
    pub fn get_meta_url(&self) -> (r: String)
        ensures
            r@ == self.spec_meta_url(),
    {
        replace(
            self.packages_meta_url_template.as_str(),
            "%package%",
            self.dist_url_params.package.full_name.as_str(),
        )
    }

    /// Decides the step after the self-hosted existence probe.
    pub fn on_existence(&self, exists: bool) -> (s: SelfHostedStep)
        ensures
            s@ == self.spec_on_existence(exists),
    {
        if exists {
            SelfHostedStep::Respond(DistResponse::Redirect(self.get_dist_url()))
        } else {
            SelfHostedStep::FetchOrigin(self.get_meta_url())
        }
    }

    /// Decides the step after the metadata fetch; `doc` is `None` when the
    /// fetch itself failed.
    pub fn on_metadata(&self, doc: Option<&str>) -> (s: SelfHostedStep)
        ensures
            (doc matches Some(d) ==> s@ == self.spec_on_metadata(Some(d@))),
            doc is None ==> s@ == self.spec_on_metadata(None),
    {
        let d = match doc {
            Some(d) => d,
            None => {
                return SelfHostedStep::Respond(DistResponse::NotFound);
            },
        };
        let entry = find_version_entry(
            d,
            self.dist_url_params.package.full_name.as_str(),
            self.dist_url_params.version.as_str(),
        );
        match entry {
            Some(e) => SelfHostedStep::Upload {
                origin_url: e.dist_url,
                object_name: self.get_object_name(),
            },
            None => SelfHostedStep::Respond(DistResponse::NotFound),
        }
    }

    /// Decides the final answer after the upload attempt.
    pub fn on_upload(&self, ok: bool) -> (r: DistResponse)
        ensures
            r@ == self.spec_on_upload(ok),
    {
        if ok {
            DistResponse::Redirect(self.get_dist_url())
        } else {
            DistResponse::NotFound
        }
    }
}

/// Law: on a miss whose origin metadata holds the requested version, the
/// strategy fetches the metadata, uploads the origin archive under the
/// deterministic key, and a successful upload resolves to the deterministic
/// self-hosted URL; on a hit it resolves there immediately, asking for no
/// fetch and no upload.
pub proof fn lemma_self_hosted_cache_population(s: StorageSelfStrategy, doc: Seq<char>)
    requires
        spec_lookup(doc, s.dist_url_params.package.full_name@, s.dist_url_params.version@)
            is Some,
    ensures
        s.spec_on_existence(false) == SelfHostedStepView::FetchOrigin(s.spec_meta_url()),
        s.spec_on_metadata(Some(doc)) == (SelfHostedStepView::Upload {
            origin_url: spec_lookup(
                doc,
                s.dist_url_params.package.full_name@,
                s.dist_url_params.version@,
            )->0.dist_url,
            object_name: spec_object_name(s.dist_url_params),
        }),
        s.spec_on_upload(true) == DistResponseView::Redirect(s.spec_dist_url()),
        s.spec_on_existence(true) == SelfHostedStepView::Respond(
            DistResponseView::Redirect(s.spec_dist_url()),
        ),
{
}

/// Law: when the metadata fetch fails or its document has no entry matching
/// the requested version, the strategy answers not-found and never asks for
/// an upload.
pub proof fn lemma_self_hosted_missing_version(s: StorageSelfStrategy, doc: Option<Seq<char>>)
    requires
        (doc matches Some(d) ==> spec_lookup(
            d,
            s.dist_url_params.package.full_name@,
            s.dist_url_params.version@,
        ) is None),
    ensures
        s.spec_on_metadata(doc) == SelfHostedStepView::Respond(DistResponseView::NotFound),
        !(s.spec_on_metadata(doc) is Upload),
{
}

} // verus!
