//! Probe outcomes: how a network probe's observed status is downgraded to a
//! presence bit, and what one racing task reports when it completes.

use vstd::prelude::*;

verus! {

/// The HTTP status establishing presence in an existence check.
pub const STATUS_OK: u16 = 200;

/// How many buffered bytes end a speed probe's bounded download: large
/// enough for a stable timing signal, small enough to bound cost.
pub const SPEED_TEST_BYTE_CEILING: usize = 81920;

/// Downgrades an existence check's outcome to a presence bit: present
/// exactly when a response arrived with status OK; a transport failure
/// (`None`) or any other status counts as absent and is never surfaced.
pub fn exists_from_status(status: Option<u16>) -> (r: bool)
    ensures
        r == (status == Some(STATUS_OK)),
{
    match status {
        Some(code) => code == STATUS_OK,
        None => false,
    }
}

/// Whether a speed probe's bounded download should stop after having
/// buffered `buffered` bytes.
pub fn download_budget_exhausted(buffered: usize) -> (r: bool)
    ensures
        r == (buffered > SPEED_TEST_BYTE_CEILING),
{
    buffered > SPEED_TEST_BYTE_CEILING
}

/// What one racing task reports when it completes: its URL when its
/// existence check succeeded, and no winner otherwise.
pub fn speed_probe_result(exists: bool, url: &str) -> (r: Option<String>)
    ensures
        (r matches Some(u) ==> exists && u@ == url@),
        r is None <==> !exists,
{
    if exists {
        Some(url.to_owned())
    } else {
        None
    }
}

} // verus!
