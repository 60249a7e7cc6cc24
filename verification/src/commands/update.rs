//! `skulk update` and the staleness hint: compare release versions, read
//! and write the version cache, and pick the release asset for this platform.

use vstd::prelude::*;
use crate::error::{ErrorView, SkulkError};
use crate::order::{lex_lt, str_less};
use crate::text::{
    contains, contains_str, lines, lines_of, nat_dec, owned, parse_u64, parse_u64_spec,
    strip_prefix_str, starts_with, u64_to_dec, views,
};

verus! {

/// How long a cached latest version stays fresh, in seconds (a day).
pub const CACHE_DURATION_SECS: u64 = 86400;

/// A release: its tag and downloadable assets.
#[derive(Debug, Clone)]
pub struct ReleaseInfo {
    pub tag_name: String,
    pub assets: Vec<ReleaseAsset>,
}

/// One downloadable file of a release.
#[derive(Debug, Clone)]
pub struct ReleaseAsset {
    pub name: String,
    pub browser_download_url: String,
}

/// A tag without a leading `v`.
pub open spec fn strip_v(tag: Seq<char>) -> Seq<char> {
    if starts_with(tag, "v"@) {
        tag.skip(1)
    } else {
        tag
    }
}

/// A tag without a leading `v`.
pub fn strip_v_exec(tag: &str) -> (r: String)
    ensures
        r@ == strip_v(tag@),
{
    proof {
        reveal_strlit("v");
    }
    match strip_prefix_str(tag, "v") {
        Some(t) => t,
        None => owned(tag),
    }
}

/// Whether the release tag names a later version than `current`: the tag
/// without its `v`, compared as text, sorts after it.
pub fn version_is_newer(latest_tag: &str, current: &str) -> (b: bool)
    ensures
        b == lex_lt(current@, strip_v(latest_tag@)),
{
    let t = strip_v_exec(latest_tag);
    str_less(current, t.as_str())
}

/// The staleness hint: the latest tag and the current version when the tag
/// is newer, else nothing.
pub fn staleness(latest_tag: &str, current: &str) -> (r: Option<(String, String)>)
    ensures
        lex_lt(current@, strip_v(latest_tag@)) ==> (r matches Some(p) && p.0@ == latest_tag@ && p.1@ == current@),
        !lex_lt(current@, strip_v(latest_tag@)) ==> r is None,
{
    if version_is_newer(latest_tag, current) {
        Some((owned(latest_tag), owned(current)))
    } else {
        None
    }
}

/// The cache file's content: the version, a newline, the epoch seconds.
pub fn cache_content(version: &str, timestamp: u64) -> (r: String)
    ensures
        r@ == version@ + "\n"@ + nat_dec(timestamp as nat),
{
    let mut s = owned(version);
    s.append("\n");
    s.append(u64_to_dec(timestamp).as_str());
    s
}

/// A cache file read back: its first line is the version and its second
/// the epoch seconds it was written; anything else is no cache.
pub open spec fn cache_spec(content: Seq<char>) -> Option<(Seq<char>, u64)> {
    let ls = lines(content);
    if ls.len() >= 2 && parse_u64_spec(ls[1]) is Some {
        Some((ls[0], parse_u64_spec(ls[1])->0))
    } else {
        None
    }
}

/// Parse the cache file.
pub fn parse_cache(content: &str) -> (r: Option<(String, u64)>)
    ensures
        match r {
            Some(p) => cache_spec(content@) == Some((p.0@, p.1)),
            None => cache_spec(content@) is None,
        },
{
    let ls = lines_of(content);
    if ls.len() < 2 {
        return None;
    }
    assert(views(ls@)[0] == ls@[0]@ && views(ls@)[1] == ls@[1]@);
    match parse_u64(ls[1].as_str()) {
        Some(ts) => Some((ls[0].clone(), ts)),
        None => None,
    }
}

/// Whether a cache written at `written` is still fresh at `now`: written
/// no later than now and less than a day ago.
pub fn cache_fresh(now: u64, written: u64) -> (b: bool)
    ensures
        b == (written <= now && now - written < 86400),
{
    written <= now && now - written < CACHE_DURATION_SECS
}

/// The index of the first asset whose name contains `target`.
pub fn find_asset(assets: &Vec<ReleaseAsset>, target: &str) -> (r: Option<usize>)
    ensures
        match r {
            Some(i) => i < assets@.len() && contains(assets@[i as int].name@, target@) && forall|j: int|
                0 <= j < i ==> !contains(#[trigger] assets@[j].name@, target@),
            None => forall|j: int| 0 <= j < assets@.len() ==> !contains(#[trigger] assets@[j].name@, target@),
        },
{
    let mut i: usize = 0;
    while i < assets.len()
        invariant
            i <= assets.len(),
            forall|j: int| 0 <= j < i ==> !contains(#[trigger] assets@[j].name@, target@),
        decreases assets.len() - i,
    {
        if contains_str(assets[i].name.as_str(), target) {
            return Some(i);
        }
        i = i + 1;
    }
    None
}

/// The error when no asset matches the platform.
pub fn no_asset_error(target: &str) -> (r: SkulkError)
    ensures
        r@ == ErrorView::UpdateFailed("No release asset found for target "@ + target@),
{
    let mut m = owned("No release asset found for target ");
    m.append(target);
    SkulkError::UpdateFailed(m)
}

/// The line printed when no update is needed.
pub fn up_to_date_message(current: &str) -> (r: String)
    ensures
        r@ == "skulk is already up to date (v"@ + current@ + ")"@,
{
    let mut m = owned("skulk is already up to date (v");
    m.append(current);
    m.append(")");
    m
}

/// The line printed after an update.
pub fn updated_message(latest: &str) -> (r: String)
    ensures
        r@ == "Updated skulk to v"@ + latest@,
{
    let mut m = owned("Updated skulk to v");
    m.append(latest);
    m
}

} // verus!
