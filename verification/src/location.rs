//! Paths as text, and where an installation goes when the caller names no place.

use std::path::Path;
use vstd::prelude::*;

verus! {

/// What `std::path::Path::join` makes of `base` and `segment`.
pub uninterp spec fn path_join(base: Seq<char>, segment: Seq<char>) -> Seq<char>;

/// Calls `std::path::Path::join`, which adjoins `segment` to `base` by the
/// conventions of the platform the program is built for. Both arguments are text,
/// so the joined path is text too; the contract gives it the name `path_join`
/// and says nothing of what that text is.
#[verifier::external_body]
pub(crate) fn join(base: &str, segment: &str) -> (joined: String)
    ensures
        joined@ == path_join(base@, segment@),
{
    Path::new(base).join(segment).to_string_lossy().into_owned()
}

/// Calls `dirs::cache_dir`, which answers from the user's environment and may
/// have no answer. A directory whose name is not valid Unicode is carried in its
/// lossy rendering. Nothing is claimed of the answer.
#[verifier::external_body]
pub(crate) fn user_cache_dir() -> (dir: Option<String>) {
    match dirs::cache_dir() {
        Some(dir) => Some(dir.to_string_lossy().into_owned()),
        None => None,
    }
}

/// The installation directory below `base`: three fixed segments, the vendor's
/// namespace, the product's, and the artifact.
pub open spec fn dest_under(base: Seq<char>) -> Seq<char> {
    path_join(path_join(path_join(base, "ms-playwright"@), "playwright-rust"@), "driver"@)
}

/// The default installation directory, given the user's cache directory, if the
/// environment has one, and the directory for temporary files.
pub open spec fn dest_for(cache_dir: Option<Seq<char>>, temp_dir: Seq<char>) -> Seq<char> {
    match cache_dir {
        Some(cache) => dest_under(cache),
        None => dest_under(temp_dir),
    }
}

/// The installation directory below `base`.
pub fn dest_in(base: &str) -> (dest: String)
    ensures
        dest@ == dest_under(base@),
{
    let vendor = join(base, "ms-playwright");
    let product = join(vendor.as_str(), "playwright-rust");
    join(product.as_str(), "driver")
}

/// Two environments that give the same answers resolve to the same destination.
pub proof fn lemma_dest_is_determined(
    first_cache: Option<Seq<char>>,
    first_temp: Seq<char>,
    second_cache: Option<Seq<char>>,
    second_temp: Seq<char>,
)
    requires
        first_cache == second_cache,
        first_temp == second_temp,
    ensures
        dest_for(first_cache, first_temp) == dest_for(second_cache, second_temp),
{
}

/// Only the directory that is used bears on the destination: with a cache
/// directory the temporary directory does not matter, and without one the
/// destination lies below the temporary directory.
pub proof fn lemma_dest_prefers_cache(cache: Seq<char>, first_temp: Seq<char>, second_temp: Seq<char>)
    ensures
        dest_for(Some(cache), first_temp) == dest_for(Some(cache), second_temp),
        dest_for(Some(cache), first_temp) == dest_under(cache),
        dest_for(None, first_temp) == dest_under(first_temp),
{
}

} // verus!
