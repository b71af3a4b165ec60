//! Whitelist matching: whether a package's combined key matches one of the
//! configured glob-style patterns. Matching itself is delegated to the glob
//! crate behind one trusted wrapper.

use vstd::prelude::*;

verus! {

/// What glob matching yields for a pattern and a name: `None` when the
/// pattern is not a valid glob pattern, otherwise whether it matches.
pub uninterp spec fn glob_check(pattern: Seq<char>, name: Seq<char>) -> Option<bool>;

/// Relies on glob::Pattern::new and glob::Pattern::matches: whether the
/// glob-style `pattern` matches `name`; `None` when `pattern` is not a
/// valid pattern.
#[verifier::external_body]
fn glob_matches(pattern: &str, name: &str) -> (r: Option<bool>)
    ensures
        r == glob_check(pattern@, name@),
{
    match glob::Pattern::new(pattern) {
        Ok(p) => Some(p.matches(name)),
        Err(_) => None,
    }
}

/// Whether some pattern of the list is valid and matches `name`.
pub open spec fn spec_in_white_list(patterns: Seq<Seq<char>>, name: Seq<char>) -> bool {
    exists|i: int|
        0 <= i < patterns.len() && #[trigger] glob_check(patterns[i], name) == Some(true)
}

/// Whether `package` matches one of the whitelist's glob patterns; a pattern
/// that is not a valid glob pattern matches nothing.
pub fn check_package_in_white_list(package: &str, white_list: &Vec<String>) -> (r: bool)
    ensures
        r == spec_in_white_list(white_list.deep_view(), package@),
{
    let n = white_list.len();
    let mut i: usize = 0;
    while i < n
        invariant
            i <= n,
            n == white_list.len(),
            forall|j: int|
                0 <= j < i ==> #[trigger] glob_check(white_list.deep_view()[j], package@)
                    != Some(true),
        decreases n - i,
    {
        proof {
            assert(white_list.deep_view()[i as int] == white_list@[i as int]@);
        }
        match glob_matches(white_list[i].as_str(), package) {
            Some(true) => {
                proof {
                    assert(glob_check(white_list.deep_view()[i as int], package@) == Some(true));
                }
                return true;
            },
            _ => {},
        }
        i += 1;
    }
    proof {
        assert forall|j: int| 0 <= j < white_list.deep_view().len() implies #[trigger] glob_check(
            white_list.deep_view()[j],
            package@,
        ) != Some(true) by {}
    }
    false
}

} // verus!
