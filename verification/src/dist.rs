//! Dist identifier: the tuple naming one requested archive of a package.

use crate::package::Package;
use vstd::prelude::*;

verus! {

/// The identifying tuple for one requested archive: package, version,
/// content reference and archive type (a file extension such as `zip`).
#[derive(Clone)]
pub struct Dist {
    pub package: Package,
    pub version: String,
    pub reference: String,
    pub dist_type: String,
}

impl Dist {
    /// The stored combined package key agrees with its parts.
    pub open spec fn wf(self) -> bool {
        self.package.wf()
    }

    pub fn new(package: Package, version: String, reference: String, dist_type: String) -> (d:
        Dist)
        ensures
            d.package == package,
            d.version == version,
            d.reference == reference,
            d.dist_type == dist_type,
    {
        Dist { package, version, reference, dist_type }
    }
}

} // verus!
