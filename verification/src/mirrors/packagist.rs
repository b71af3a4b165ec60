//! The registry fallback: its metadata URL template and the choice between
//! the two caching strategies that serve a dist when no official mirror has
//! it.

use crate::package::Package;
use crate::text::replace;
use crate::text::spec_replace;
use vstd::prelude::*;

verus! {

/// The metadata URL for a package under a `%package%` template.
pub open spec fn spec_package_meta_url(template: Seq<char>, p: Package) -> Seq<char> {
    spec_replace(template, "%package%"@, p.full_name@)
}

/// The configured fallback strategies a dist request may be served by.
#[derive(Clone, Copy, PartialEq, Eq, Structural, Debug)]
pub enum PackagistStrategy {
    StorageSelf,
    CacheThirdSite,
}

/// Decodes the configured strategy selector; any value other than the two
/// recognized codes is a fatal configuration error for the caller.
pub fn strategy_from_code(code: i32) -> (r: Option<PackagistStrategy>)
    ensures
        code == 1 ==> r == Some(PackagistStrategy::StorageSelf),
        code == 2 ==> r == Some(PackagistStrategy::CacheThirdSite),
        !(code == 1 || code == 2) ==> r is None,
{
    if code == 1 {
        Some(PackagistStrategy::StorageSelf)
    } else if code == 2 {
        Some(PackagistStrategy::CacheThirdSite)
    } else {
        None
    }
}

/// The upstream registry, reached through a configured metadata URL template
/// holding a `%package%` placeholder.
pub struct Packagist {
    pub packages_meta_url_template: String,
}

impl Packagist {
    pub fn new(packages_meta_url_template: String) -> (m: Packagist)
        ensures
            m.packages_meta_url_template == packages_meta_url_template,
    {
        Packagist { packages_meta_url_template }
    }

    /// The metadata-document URL for `package` at the upstream registry.
    pub fn get_package_meta_url(&self, package: &Package) -> (r: String)
        ensures
            r@ == spec_package_meta_url(self.packages_meta_url_template@, *package),
    {
        replace(self.packages_meta_url_template.as_str(), "%package%", package.full_name.as_str())
    }
}

} // verus!
