//! Lexicographic order on texts and sorted, duplicate-free lists of names.

use vstd::prelude::*;
use crate::text::{chars_eq, to_chars, views};

verus! {

/// `a` sorts strictly before `b` (`Ord` on `String`: code point order, which
/// is the byte order of UTF-8).
pub open spec fn lex_lt(a: Seq<char>, b: Seq<char>) -> bool
    decreases a.len(),
{
    if b.len() == 0 {
        false
    } else if a.len() == 0 {
        true
    } else if a[0] != b[0] {
        a[0] < b[0]
    } else {
        lex_lt(a.drop_first(), b.drop_first())
    }
}

/// No text sorts before itself.
pub proof fn lemma_lex_irreflexive(a: Seq<char>)
    ensures
        !lex_lt(a, a),
    decreases a.len(),
{
    if a.len() > 0 {
        lemma_lex_irreflexive(a.drop_first());
    }
}

/// At most one of two texts sorts before the other.
pub proof fn lemma_lex_asymmetric(a: Seq<char>, b: Seq<char>)
    ensures
        !(lex_lt(a, b) && lex_lt(b, a)),
    decreases a.len(),
{
    if a.len() > 0 && b.len() > 0 && a[0] == b[0] {
        lemma_lex_asymmetric(a.drop_first(), b.drop_first());
    }
}

/// The order is transitive.
pub proof fn lemma_lex_transitive(a: Seq<char>, b: Seq<char>, c: Seq<char>)
    requires
        lex_lt(a, b),
        lex_lt(b, c),
    ensures
        lex_lt(a, c),
    decreases a.len(),
{
    if a.len() > 0 && b.len() > 0 && c.len() > 0 && a[0] == b[0] && b[0] == c[0] {
        lemma_lex_transitive(a.drop_first(), b.drop_first(), c.drop_first());
    }
}

/// Of two different texts, one sorts before the other.
pub proof fn lemma_lex_total(a: Seq<char>, b: Seq<char>)
    requires
        a != b,
    ensures
        lex_lt(a, b) || lex_lt(b, a),
    decreases a.len(),
{
    if a.len() > 0 && b.len() > 0 && a[0] == b[0] {
        if a.drop_first() == b.drop_first() {
            assert(a =~= seq![a[0]] + a.drop_first());
            assert(b =~= seq![b[0]] + b.drop_first());
        }
        lemma_lex_total(a.drop_first(), b.drop_first());
    } else if a.len() == 0 && b.len() == 0 {
        assert(a =~= b);
    }
}

/// Each text sorts strictly after the one before it.
pub open spec fn strictly_sorted(s: Seq<Seq<char>>) -> bool {
    forall|i: int, j: int| 0 <= i < j < s.len() ==> lex_lt(s[i], s[j])
}

/// `a` sorts strictly before `b`.
pub fn str_less(a: &str, b: &str) -> (r: bool)
    ensures
        r == lex_lt(a@, b@),
{
    let av = to_chars(a);
    let bv = to_chars(b);
    let mut i: usize = 0;
    assert(av@.skip(0) =~= av@);
    assert(bv@.skip(0) =~= bv@);
    while i < av.len() && i < bv.len()
        invariant
            i <= av.len(),
            i <= bv.len(),
            av@ == a@,
            bv@ == b@,
            lex_lt(a@, b@) == lex_lt(av@.skip(i as int), bv@.skip(i as int)),
        decreases av.len() - i,
    {
        assert(av@.skip(i as int)[0] == av@[i as int]);
        assert(bv@.skip(i as int)[0] == bv@[i as int]);
        if av[i] < bv[i] {
            return true;
        }
        if av[i] > bv[i] {
            return false;
        }
        assert(av@.skip(i as int).drop_first() =~= av@.skip(i + 1));
        assert(bv@.skip(i as int).drop_first() =~= bv@.skip(i + 1));
        i = i + 1;
    }
    av.len() - i < bv.len() - i
}

/// The distinct texts of `v`, sorted: a strictly sorted list holding exactly
/// the texts that occur in `v`.
pub fn sorted_unique(v: &Vec<String>) -> (r: Vec<String>)
    ensures
        strictly_sorted(views(r@)),
        views(r@).to_set() == views(v@).to_set(),
{
    let mut out: Vec<String> = Vec::new();
    let mut i: usize = 0;
    assert(views(out@).to_set() =~= views(v@).take(0).to_set());
    while i < v.len()
        invariant
            i <= v.len(),
            strictly_sorted(views(out@)),
            views(out@).to_set() == views(v@).take(i as int).to_set(),
        decreases v.len() - i,
    {
        let x = &v[i];
        let ghost xs = views(v@).take(i + 1);
        assert(xs =~= views(v@).take(i as int).push(x@));
        // first position whose text does not sort before x
        let mut p: usize = 0;
        while p < out.len() && str_less(out[p].as_str(), x.as_str())
            invariant
                p <= out.len(),
                forall|k: int| 0 <= k < p ==> lex_lt(#[trigger] out@[k]@, x@),
            decreases out.len() - p,
        {
            p = p + 1;
        }
        let ghost before = views(out@);
        let dup = if p < out.len() {
            let a = to_chars(out[p].as_str());
            let b = to_chars(x.as_str());
            chars_eq(a.as_slice(), b.as_slice())
        } else {
            false
        };
        if dup {
            assert(before.to_set() =~= before.to_set().insert(x@)) by {
                assert(before[p as int] == x@);
            }
        } else {
            out.insert(p, x.clone());
            proof {
                let after = views(out@);
                assert(after =~= before.insert(p as int, x@));
                assert forall|a: int, b: int| 0 <= a < b < after.len() implies lex_lt(
                    after[a],
                    after[b],
                ) by {
                    if b < p {
                        assert(after[a] == before[a] && after[b] == before[b]);
                    } else if b == p {
                        assert(after[a] == before[a]);
                    } else if a < p {
                        assert(after[a] == before[a] && after[b] == before[b - 1]);
                        assert(lex_lt(before[a], x@));
                        // x sorts before or equals before[p], which is <= before[b - 1]
                        if p < before.len() {
                            assert(!lex_lt(before[p as int], x@));
                            assert(before[p as int] != x@);
                            lemma_lex_total(before[p as int], x@);
                            if b - 1 > p {
                                lemma_lex_transitive(x@, before[p as int], before[b - 1]);
                            }
                            lemma_lex_transitive(before[a], x@, before[b - 1]);
                        }
                    } else if a == p {
                        assert(after[b] == before[b - 1]);
                        assert(!lex_lt(before[p as int], x@));
                        assert(before[p as int] != x@);
                        lemma_lex_total(before[p as int], x@);
                        if b - 1 > p {
                            lemma_lex_transitive(x@, before[p as int], before[b - 1]);
                        }
                    } else {
                        assert(after[a] == before[a - 1] && after[b] == before[b - 1]);
                    }
                }
                assert(after.to_set() =~= before.to_set().insert(x@)) by {
                    assert forall|y: Seq<char>| after.to_set().contains(y) implies before.to_set().insert(
                        x@,
                    ).contains(y) by {
                        let k = choose|k: int| 0 <= k < after.len() && after[k] == y;
                        if k < p {
                            assert(before[k] == y);
                        } else if k > p {
                            assert(before[k - 1] == y);
                        }
                    }
                    assert forall|y: Seq<char>| before.to_set().insert(x@).contains(y) implies after.to_set().contains(
                        y,
                    ) by {
                        if y == x@ {
                            assert(after[p as int] == y);
                        } else {
                            let k = choose|k: int| 0 <= k < before.len() && before[k] == y;
                            if k < p {
                                assert(after[k] == y);
                            } else {
                                assert(after[k + 1] == y);
                            }
                        }
                    }
                }
            }
        }
        assert(xs.to_set() =~= views(v@).take(i as int).to_set().insert(x@)) by {
            assert forall|y: Seq<char>| xs.to_set().contains(y) implies views(v@).take(
                i as int,
            ).to_set().insert(x@).contains(y) by {
                let k = choose|k: int| 0 <= k < xs.len() && xs[k] == y;
                if k < i {
                    assert(views(v@).take(i as int)[k] == y);
                }
            }
            assert forall|y: Seq<char>| views(v@).take(i as int).to_set().insert(x@).contains(
                y,
            ) implies xs.to_set().contains(y) by {
                if y == x@ {
                    assert(xs[i as int] == y);
                } else {
                    let k = choose|k: int| 0 <= k < i && views(v@).take(i as int)[k] == y;
                    assert(xs[k] == y);
                }
            }
        }
        i = i + 1;
    }
    assert(views(v@).take(v.len() as int) =~= views(v@));
    out
}

} // verus!
