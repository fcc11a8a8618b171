//! The version inspector: the version that a binary's banner reports.
//!
//! The version is the run of characters that follows the first occurrence
//! of a marker and ends before the next whitespace, or with the banner. A
//! banner without the marker reports no version; that is an answer, not a
//! failure.

use crate::service::ServiceName;
use crate::text::{
    contains, find, first_occurrence, from_chars, is_first_occurrence, is_whitespace,
    lemma_least_occurrence, lemma_token_end, occurs_at, scan_token, slice_chars, slice_text_of,
    text_of, to_chars, token_at,
};
use vstd::prelude::*;
use vstd::string::*;

verus! {

/// The version that `banner` reports behind `marker`.
pub open spec fn version_in(banner: Seq<char>, marker: Seq<char>) -> Option<Seq<char>> {
    match first_occurrence(banner, marker) {
        Some(at) => Some(token_at(banner, at + marker.len())),
        None => None,
    }
}

/// The version that `banner` reports behind `marker`.
pub fn extract_version(banner: &str, marker: &str) -> (version: Option<String>)
    ensures
        text_of(version) == version_in(banner@, marker@),
{
    let banner_chars = to_chars(banner);
    let marker_chars = to_chars(marker);
    match find(&banner_chars, &marker_chars) {
        Some(at) => {
            let from = at + marker_chars.len();
            let end = scan_token(&banner_chars, from);
            let token = slice_chars(&banner_chars, from, end);
            Some(from_chars(&token))
        },
        None => None,
    }
}

/// The marker that stands before the version in the banner of the
/// interpreter runtime.
pub open spec fn runtime_version_marker() -> Seq<char> {
    "PHP "@
}

/// The version of a service's binary, given the banner that it printed, if
/// it could be made to print one.
pub open spec fn reported_version(service: ServiceName, banner: Option<Seq<char>>) -> Option<
    Seq<char>,
> {
    match banner {
        Some(text) => version_in(text, service.spec_version_marker()),
        None => None,
    }
}

/// The version of a service's binary, given the banner that it printed, if
/// it could be made to print one.
pub fn service_version(service: ServiceName, banner: Option<&str>) -> (version: Option<String>)
    ensures
        text_of(version) == reported_version(service, slice_text_of(banner)),
{
    match banner {
        Some(text) => extract_version(text, service.version_marker()),
        None => None,
    }
}

/// A banner reports a version exactly if the marker stands in it. The
/// version stands right behind the first marker, holds no whitespace,
/// and ends where a whitespace follows or the banner ends.
pub proof fn law_version_is_a_token(banner: Seq<char>, marker: Seq<char>)
    ensures
        version_in(banner, marker) is Some <==> contains(banner, marker),
        version_in(banner, marker) matches Some(version) ==> exists|at: int|
            {
                let from = at + marker.len();
                &&& #[trigger] is_first_occurrence(banner, marker, at)
                &&& occurs_at(banner, version, from)
                &&& forall|k: int| 0 <= k < version.len() ==> !is_whitespace(version[k])
                &&& from + version.len() == banner.len() || is_whitespace(
                    banner[from + version.len()],
                )
            },
{
    if contains(banner, marker) {
        let somewhere = choose|at: int| occurs_at(banner, marker, at);
        lemma_least_occurrence(banner, marker, somewhere);
        let at = choose|at: int| is_first_occurrence(banner, marker, at);
        let from = at + marker.len();
        lemma_token_end(banner, from);
        let version = token_at(banner, from);
        assert(version_in(banner, marker) == Some(version));
        assert(banner.subrange(from, from + version.len()) == version);
        assert(is_first_occurrence(banner, marker, at));
    }
}

} // verus!
