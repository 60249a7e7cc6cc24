//! The decisions next to the process boundary: whether a host is this
//! machine, and which lines of a repeated pane capture are new.

use vstd::prelude::*;
use crate::text::{chars_eq, to_chars, views};

verus! {

/// `localhost`, `127.0.0.1` and `::1` name this machine; nothing else does.
pub open spec fn is_localhost_spec(host: Seq<char>) -> bool {
    host == "localhost"@ || host == "127.0.0.1"@ || host == "::1"@
}

/// Whether `host` names this machine, so commands run through `sh -c`
/// rather than over SSH. Exact matches only.
pub fn is_localhost(host: &str) -> (b: bool)
    ensures
        b == is_localhost_spec(host@),
{
    let h = to_chars(host);
    let a = to_chars("localhost");
    let b = to_chars("127.0.0.1");
    let c = to_chars("::1");
    chars_eq(h.as_slice(), a.as_slice()) || chars_eq(h.as_slice(), b.as_slice()) || chars_eq(h.as_slice(), c.as_slice())
}

/// The suffix of `old` from `start` appears in `new` at `at`.
pub open spec fn suffix_at(old: Seq<Seq<char>>, new: Seq<Seq<char>>, start: int, at: int) -> bool {
    &&& 0 <= start < old.len()
    &&& 0 <= at
    &&& at + (old.len() - start) <= new.len()
    &&& new.subrange(at, at + (old.len() - start)) == old.skip(start)
}

/// Where new content begins in `new`: the longest suffix of `old` (shortest
/// `start`) that appears in `new`, at its first position `at`, gives
/// `at + its length`; with no overlap, or no `old`, everything is new (0).
pub open spec fn new_content_start_ok(old: Seq<Seq<char>>, new: Seq<Seq<char>>, r: int) -> bool {
    ||| (forall|s: int, a: int| !suffix_at(old, new, s, a)) && r == 0
    ||| exists|s: int, a: int|
        suffix_at(old, new, s, a) && (forall|s2: int, a2: int| s2 < s ==> !suffix_at(old, new, s2, a2))
            && (forall|a2: int| a2 < a ==> !suffix_at(old, new, s, a2)) && r == a + (old.len() - s)
}

/// Whether `old[start..]` equals `new[at..at + len]`.
fn slice_eq(old: &Vec<String>, new: &Vec<String>, start: usize, at: usize) -> (b: bool)
    requires
        start < old.len(),
        at + (old.len() - start) <= new.len(),
    ensures
        b == (views(new@).subrange(at as int, at + (old.len() - start)) == views(old@).skip(start as int)),
{
    let len = old.len() - start;
    let mut k: usize = 0;
    while k < len
        invariant
            len == old.len() - start,
            start < old.len(),
            at + len <= new.len(),
            k <= len,
            forall|j: int| 0 <= j < k ==> views(new@).subrange(at as int, at + len)[j] == #[trigger] views(old@).skip(start as int)[j],
        decreases len - k,
    {
        let a = to_chars(new[at + k].as_str());
        let b = to_chars(old[start + k].as_str());
        if !chars_eq(a.as_slice(), b.as_slice()) {
            assert(views(new@).subrange(at as int, at + len)[k as int] != views(old@).skip(start as int)[k as int]);
            return false;
        }
        k = k + 1;
    }
    assert(views(new@).subrange(at as int, at + len) =~= views(old@).skip(start as int));
    true
}

/// Find where new content begins in a fresh capture `new_lines`, given the
/// previous capture `old_lines`: everything after the longest suffix of the
/// old lines found in the new ones.
pub fn find_new_content_start(old_lines: &Vec<String>, new_lines: &Vec<String>) -> (r: usize)
    ensures
        new_content_start_ok(views(old_lines@), views(new_lines@), r as int),
        r <= new_lines@.len(),
{
    let ghost o = views(old_lines@);
    let ghost n = views(new_lines@);
    let mut start: usize = 0;
    while start < old_lines.len()
        invariant
            start <= old_lines.len(),
            o == views(old_lines@),
            n == views(new_lines@),
            forall|s2: int, a2: int| s2 < start ==> !suffix_at(o, n, s2, a2),
        decreases old_lines.len() - start,
    {
        let len = old_lines.len() - start;
        if len <= new_lines.len() {
            let mut at: usize = 0;
            while at <= new_lines.len() - len
                invariant
                    len == old_lines.len() - start,
                    start < old_lines.len(),
                    len <= new_lines.len(),
                    at <= new_lines.len() - len + 1,
                    o == views(old_lines@),
                    n == views(new_lines@),
                    forall|s2: int, a2: int| s2 < start ==> !suffix_at(o, n, s2, a2),
                    forall|a2: int| a2 < at ==> !suffix_at(o, n, start as int, a2),
                decreases new_lines.len() - len + 1 - at,
            {
                if slice_eq(old_lines, new_lines, start, at) {
                    assert(suffix_at(o, n, start as int, at as int));
                    return at + len;
                }
                at = at + 1;
            }
            assert forall|a2: int| !suffix_at(o, n, start as int, a2) by {
                if suffix_at(o, n, start as int, a2) {
                    assert(a2 < at);
                }
            }
        }
        assert forall|s2: int, a2: int| s2 < start + 1 implies !suffix_at(o, n, s2, a2) by {
            if s2 == start && suffix_at(o, n, s2, a2) {
                assert(a2 + len <= new_lines.len());
            }
        }
        start = start + 1;
    }
    assert forall|s: int, a: int| !suffix_at(o, n, s, a) by {
        if suffix_at(o, n, s, a) {
            assert(s < old_lines.len());
        }
    }
    0
}

} // verus!
