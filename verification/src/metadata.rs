//! Origin Metadata Client: reads a package's version-metadata document from
//! the upstream registry and extracts, for a requested version, the origin
//! archive URL and the source-repository URL.
//!
//! The document is an externally owned JSON structure,
//! `packages[full_name] = [ {version, dist: {url}, source: {url}}, ... ]`.
//! Decoding it is delegated to serde_json behind one trusted wrapper; all
//! selection logic works on the plain entries the wrapper hands out.

use crate::text::has_suffix;
use crate::text::spec_has_suffix;
use crate::text::str_eq;
use crate::text::substring_to;
use vstd::prelude::*;
use vstd::string::StrSliceExecFns;

verus! {

/// Ghost form of one version entry of the metadata document.
pub struct VersionEntryView {
    pub version: Seq<char>,
    pub dist_url: Seq<char>,
    pub source_url: Seq<char>,
}

/// One entry of a package's version array, reduced to the three fields the
/// resolution engine reads.
pub struct VersionEntry {
    pub version: String,
    pub dist_url: String,
    pub source_url: String,
}

impl View for VersionEntry {
    type V = VersionEntryView;

    open spec fn view(&self) -> VersionEntryView {
        VersionEntryView {
            version: self.version@,
            dist_url: self.dist_url@,
            source_url: self.source_url@,
        }
    }
}

impl DeepView for VersionEntry {
    type V = VersionEntryView;

    open spec fn deep_view(&self) -> VersionEntryView {
        self@
    }
}

/// What decoding the metadata document yields for a package: `None` when the
/// document is not valid JSON, the package is absent, or its entry is not an
/// array of objects with the expected fields; otherwise the entries in
/// document order.
pub uninterp spec fn parsed_entries(doc: Seq<char>, full_name: Seq<char>) -> Option<
    Seq<VersionEntryView>,
>;

/// Relies on serde_json::from_str and serde_json::Value's get, as_array and
/// as_str accessors: decodes the version-metadata document and hands out the
/// entries under `packages[full_name]` as plain strings, in document order;
/// `None` when the document or that entry is structurally unexpected.
#[verifier::external_body]
fn parse_version_entries(doc: &str, full_name: &str) -> (r: Option<Vec<VersionEntry>>)
    ensures
        (r matches Some(es) ==> parsed_entries(doc@, full_name@) == Some(es.deep_view())),
        r is None ==> parsed_entries(doc@, full_name@) is None,
{
    let root: serde_json::Value = serde_json::from_str(doc).ok()?;
    let arr = root.get("packages")?.get(full_name)?.as_array()?;
    let mut out = Vec::new();
    for e in arr {
        out.push(VersionEntry {
            version: e.get("version")?.as_str()?.to_string(),
            dist_url: e.get("dist")?.get("url")?.as_str()?.to_string(),
            source_url: e.get("source")?.get("url")?.as_str()?.to_string(),
        });
    }
    Some(out)
}

/// The first entry whose version matches exactly, if any.
pub open spec fn spec_entries_lookup(entries: Seq<VersionEntryView>, version: Seq<char>) -> Option<
    VersionEntryView,
>
    decreases entries.len(),
{
    if entries.len() == 0 {
        None
    } else if entries[0].version == version {
        Some(entries[0])
    } else {
        spec_entries_lookup(entries.drop_first(), version)
    }
}

/// What the metadata client yields for a document: the first entry of
/// `packages[full_name]` matching `version`, or `None` when the document is
/// unusable or no entry matches.
pub open spec fn spec_lookup(doc: Seq<char>, full_name: Seq<char>, version: Seq<char>) -> Option<
    VersionEntryView,
> {
    match parsed_entries(doc, full_name) {
        Some(es) => spec_entries_lookup(es, version),
        None => None,
    }
}

proof fn lemma_entries_lookup_at(entries: Seq<VersionEntryView>, version: Seq<char>, i: int)
    requires
        0 <= i < entries.len(),
        entries[i].version == version,
        forall|j: int| 0 <= j < i ==> entries[j].version != version,
    ensures
        spec_entries_lookup(entries, version) == Some(entries[i]),
    decreases i,
{
    if i > 0 {
        assert(forall|j: int|
            0 <= j < i - 1 ==> entries.drop_first()[j].version != version);
        assert(entries.drop_first()[i - 1].version == version);
        lemma_entries_lookup_at(entries.drop_first(), version, i - 1);
    }
}

proof fn lemma_entries_lookup_none(entries: Seq<VersionEntryView>, version: Seq<char>)
    requires
        forall|j: int| 0 <= j < entries.len() ==> entries[j].version != version,
    ensures
        spec_entries_lookup(entries, version) is None,
    decreases entries.len(),
{
    if entries.len() > 0 {
        assert(forall|j: int|
            0 <= j < entries.drop_first().len() ==> entries.drop_first()[j].version != version);
        lemma_entries_lookup_none(entries.drop_first(), version);
    }
}

/// Scans the document's entries for `full_name` and returns the first one
/// whose version matches `version` exactly.
pub fn find_version_entry(doc: &str, full_name: &str, version: &str) -> (r: Option<VersionEntry>)
    ensures
        (r matches Some(e) ==> spec_lookup(doc@, full_name@, version@) == Some(e@)),
        r is None ==> spec_lookup(doc@, full_name@, version@) is None,
{
    let entries = match parse_version_entries(doc, full_name) {
        Some(es) => es,
        None => {
            return None;
        },
    };
    let n = entries.len();
    let mut i: usize = 0;
    while i < n
        invariant
            i <= n,
            n == entries.len(),
            parsed_entries(doc@, full_name@) == Some(entries.deep_view()),
            forall|j: int| 0 <= j < i ==> entries.deep_view()[j].version != version@,
        decreases n - i,
    {
        let e = &entries[i];
        if str_eq(e.version.as_str(), version) {
            proof {
                lemma_entries_lookup_at(entries.deep_view(), version@, i as int);
            }
            return Some(
                VersionEntry {
                    version: e.version.clone(),
                    dist_url: e.dist_url.clone(),
                    source_url: e.source_url.clone(),
                },
            );
        }
        i += 1;
    }
    proof {
        lemma_entries_lookup_none(entries.deep_view(), version@);
    }
    None
}

/// `s` with one trailing `.git` removed, as a source-repository URL is
/// normalised before a tag-archive URL is built from it.
pub open spec fn spec_strip_git(s: Seq<char>) -> Seq<char> {
    if spec_has_suffix(s, ".git"@) {
        s.subrange(0, s.len() - ".git"@.len())
    } else {
        s
    }
}

/// Removes a trailing `.git` from a source-repository URL, if present.
pub fn strip_git_suffix(s: &str) -> (r: String)
    ensures
        r@ == spec_strip_git(s@),
{
    proof {
        reveal_strlit(".git");
    }
    if has_suffix(s, ".git") {
        let n: usize = s.unicode_len();
        substring_to(s, n - 4)
    } else {
        s.to_owned()
    }
}

} // verus!
