//! The Aliyun Composer mirror: archives live at a deterministic path built
//! from the package key, the reference and the archive type.

use crate::dist::Dist;
use vstd::prelude::*;
use vstd::string::StringExecFns;

verus! {

/// The archive URL this mirror is expected to serve for `d`.
pub open spec fn spec_aliyun_dist_url(d: Dist) -> Seq<char> {
    "https://mirrors.aliyun.com/composer/dists/"@ + d.package.full_name@ + "/"@ + d.reference@
        + "."@ + d.dist_type@
}

pub struct Aliyun {}

impl Aliyun {
    pub fn new() -> (m: Aliyun) {
        Aliyun {  }
    }

    /// The deterministic archive URL for `dist` on this mirror.
    pub fn get_dist_url(&self, dist: &Dist) -> (r: String)
        ensures
            r@ == spec_aliyun_dist_url(*dist),
    {
        let mut r = "https://mirrors.aliyun.com/composer/dists/".to_owned();
        r.append(dist.package.full_name.as_str());
        r.append("/");
        r.append(dist.reference.as_str());
        r.append(".");
        r.append(dist.dist_type.as_str());
        r
    }
}

} // verus!
