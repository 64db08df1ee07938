//! The artifact cache: mapping a release's platform artifact to its
//! canonical path under the cache directory, and deciding whether a
//! download is needed at all.
//!
//! The cache is download-once, reuse-forever: entries are never evicted.

use vstd::prelude::*;
use vstd::string::StringExecFns;

verus! {

/// The canonical cache path of an archive: `<cache_root>/wasmerenv/<name>`.
pub open spec fn spec_cache_path(cache_root: Seq<char>, name: Seq<char>) -> Seq<char> {
    cache_root + "/wasmerenv/"@ + name
}

/// The canonical cache path of the archive named `name`.
pub fn cache_path(cache_root: &str, name: &str) -> (r: String)
    ensures
        r@ == spec_cache_path(cache_root@, name@),
{
    let mut s = cache_root.to_owned();
    s.append("/wasmerenv/");
    s.append(name);
    s
}

/// What `ensure_cached` decides once it knows whether the archive is
/// already present.
pub enum CachePlan {
    /// Cache hit: hand the existing archive back, no network transfer.
    Reuse,
    /// Cache miss: stream the artifact from its download URL into the
    /// cache path, creating parent directories as needed.
    Download,
}

/// The caching decision as a function of presence.
pub open spec fn spec_cache_plan(present: bool) -> CachePlan {
    if present {
        CachePlan::Reuse
    } else {
        CachePlan::Download
    }
}

/// Decide how to guarantee the archive is present: reuse it when the file
/// already exists at its canonical path, download it otherwise.
pub fn ensure_cached_plan(already_present: bool) -> (r: CachePlan)
    ensures
        r == spec_cache_plan(already_present),
        r is Reuse <==> already_present,
{
    if already_present {
        CachePlan::Reuse
    } else {
        CachePlan::Download
    }
}

/// Law: `ensure_cached` is idempotent. The archive path is a function of
/// the cache root and the archive name alone, so a second call computes the
/// same path; and since either branch of the first call leaves the archive
/// at that path (it was there, or it was just downloaded there), the second
/// call reuses it and performs no network transfer.
pub proof fn lemma_ensure_cached_idempotent(
    files: Set<Seq<char>>,
    cache_root: Seq<char>,
    name: Seq<char>,
)
    ensures
        ({
            let path = spec_cache_path(cache_root, name);
            let after_first = files.insert(path);
            spec_cache_plan(after_first.contains(path)) is Reuse
        }),
{
}

} // verus!
