//! Package identifier: vendor plus name, with the derived `full_name`
//! used as the only key into upstream registries.

use vstd::prelude::*;
use vstd::string::StringExecFns;

verus! {

/// The combined registry key of a package: `vendor + "/" + name`.
pub open spec fn spec_full_name(vendor: Seq<char>, package: Seq<char>) -> Seq<char> {
    vendor + "/"@ + package
}

/// A versioned package's identity: vendor and name, with the derived
/// combined key stored alongside.
#[derive(Clone)]
pub struct Package {
    pub vendor: String,
    pub package: String,
    pub full_name: String,
}

impl Package {
    /// The stored combined key agrees with the vendor and name fields.
    pub open spec fn wf(self) -> bool {
        self.full_name@ == spec_full_name(self.vendor@, self.package@)
    }

    pub fn new(vendor: &str, package: &str) -> (p: Package)
        ensures
            p.vendor@ == vendor@,
            p.package@ == package@,
            p.wf(),
    {
        let mut full_name = vendor.to_owned();
        full_name.append("/");
        full_name.append(package);
        Package { vendor: vendor.to_owned(), package: package.to_owned(), full_name }
    }
}

} // verus!
