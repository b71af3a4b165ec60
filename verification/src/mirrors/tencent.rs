//! The Tencent Composer mirror: archives live under the package key and
//! version, with a flattened package-and-version segment as the file name.

use crate::dist::Dist;
use crate::package::Package;
use crate::text::replace_slash_dash;
use crate::text::spec_dashed;
use vstd::prelude::*;
use vstd::string::StringExecFns;

verus! {

/// The flattened `package/version` segment: every `/` becomes `-`.
pub open spec fn spec_tencent_combine(d: Dist) -> Seq<char> {
    spec_dashed(d.package.full_name@ + "/"@ + d.version@)
}

/// The archive URL this mirror is expected to serve for `d`.
pub open spec fn spec_tencent_dist_url(d: Dist) -> Seq<char> {
    "https://mirrors.cloud.tencent.com/repository/composer/"@ + d.package.full_name@ + "/"@
        + d.version@ + "/"@ + spec_tencent_combine(d) + "."@ + d.dist_type@
}

/// The version-metadata URL this mirror serves for a package.
pub open spec fn spec_tencent_package_meta_url(p: Package) -> Seq<char> {
    "https://mirrors.cloud.tencent.com/repository/composer/p/"@ + p.full_name@ + ".json"@
}

pub struct Tencent {}

impl Tencent {
    pub fn new() -> (m: Tencent) {
        Tencent {  }
    }

    /// The deterministic archive URL for `dist` on this mirror.
    pub fn get_dist_url(&self, dist: &Dist) -> (r: String)
        ensures
            r@ == spec_tencent_dist_url(*dist),
    {
        let mut combined = dist.package.full_name.clone();
        combined.append("/");
        combined.append(dist.version.as_str());
        let combine = replace_slash_dash(combined.as_str());
        let mut r = "https://mirrors.cloud.tencent.com/repository/composer/".to_owned();
        r.append(dist.package.full_name.as_str());
        r.append("/");
        r.append(dist.version.as_str());
        r.append("/");
        r.append(combine.as_str());
        r.append(".");
        r.append(dist.dist_type.as_str());
        r
    }

    /// The metadata-document URL for `package` on this mirror.
    pub fn get_package_meta_url(&self, package: &Package) -> (r: String)
        ensures
            r@ == spec_tencent_package_meta_url(*package),
    {
        let mut r = "https://mirrors.cloud.tencent.com/repository/composer/p/".to_owned();
        r.append(package.full_name.as_str());
        r.append(".json");
        r
    }
}

} // verus!
