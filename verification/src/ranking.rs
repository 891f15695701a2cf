//! Ranking system calls by how often they were made: most calls first,
//! equal counts by name, and only the first five kept.

use vstd::prelude::*;
use crate::text::chars_of;
use crate::trace::{counts_view, distinct_names};

verus! {

/// How many system calls a ranking keeps.
pub const TOP_SYSCALLS: usize = 5;

/// Text order: character by character by code point, a proper prefix
/// first. This is the order of `String`'s `Ord`, since UTF-8 keeps the
/// order of code points.
pub open spec fn text_lt(a: Seq<char>, b: Seq<char>) -> bool
    decreases a.len(),
{
    if a.len() == 0 {
        b.len() > 0
    } else if b.len() == 0 {
        false
    } else if a[0] != b[0] {
        a[0] < b[0]
    } else {
        text_lt(a.drop_first(), b.drop_first())
    }
}

/// `a` comes before `b` in a ranking: it was called more often, or as often
/// and its name comes first.
pub open spec fn ranks_before(a: (Seq<char>, usize), b: (Seq<char>, usize)) -> bool {
    a.1 > b.1 || (a.1 == b.1 && text_lt(a.0, b.0))
}

pub proof fn lemma_text_lt_irreflexive(a: Seq<char>)
    ensures
        !text_lt(a, a),
    decreases a.len(),
{
    if a.len() > 0 {
        lemma_text_lt_irreflexive(a.drop_first());
    }
}

pub proof fn lemma_text_lt_transitive(a: Seq<char>, b: Seq<char>, c: Seq<char>)
    requires
        text_lt(a, b),
        text_lt(b, c),
    ensures
        text_lt(a, c),
    decreases a.len(),
{
    if a.len() > 0 && b.len() > 0 && c.len() > 0 {
        if a[0] == b[0] && b[0] == c[0] {
            lemma_text_lt_transitive(a.drop_first(), b.drop_first(), c.drop_first());
        }
    }
}

pub proof fn lemma_text_lt_total(a: Seq<char>, b: Seq<char>)
    requires
        a != b,
    ensures
        text_lt(a, b) || text_lt(b, a),
    decreases a.len(),
{
    if a.len() > 0 && b.len() > 0 && a[0] == b[0] {
        if a.drop_first() == b.drop_first() {
            assert(a.drop_first().len() == a.len() - 1);
            assert(b.drop_first().len() == b.len() - 1);
            assert(a.len() == b.len());
            assert(a =~= b) by {
                assert forall|i: int| 0 <= i < a.len() implies a[i] == b[i] by {
                    if i > 0 {
                        assert(a[i] == a.drop_first()[i - 1]);
                        assert(b[i] == b.drop_first()[i - 1]);
                    }
                }
            }
        }
        lemma_text_lt_total(a.drop_first(), b.drop_first());
    } else if a.len() == 0 && b.len() == 0 {
        assert(a =~= b);
    } else if a.len() > 0 && b.len() > 0 {
        assert(a[0] < b[0] || b[0] < a[0]);
    }
}

pub proof fn lemma_text_lt_asymmetric(a: Seq<char>, b: Seq<char>)
    requires
        text_lt(a, b),
    ensures
        !text_lt(b, a),
{
    if text_lt(b, a) {
        lemma_text_lt_transitive(a, b, a);
        lemma_text_lt_irreflexive(a);
    }
}

/// Ranking is a strict order ...
pub proof fn lemma_ranks_before_transitive(
    a: (Seq<char>, usize),
    b: (Seq<char>, usize),
    c: (Seq<char>, usize),
)
    requires
        ranks_before(a, b),
        ranks_before(b, c),
    ensures
        ranks_before(a, c),
{
    if a.1 == b.1 && b.1 == c.1 {
        lemma_text_lt_transitive(a.0, b.0, c.0);
    }
}

/// ... that puts any two entries with different names one before the other ...
pub proof fn lemma_ranks_before_total(a: (Seq<char>, usize), b: (Seq<char>, usize))
    requires
        a.0 != b.0,
    ensures
        ranks_before(a, b) || ranks_before(b, a),
{
    lemma_text_lt_total(a.0, b.0);
}

/// ... and never both ways.
pub proof fn lemma_ranks_before_asymmetric(a: (Seq<char>, usize), b: (Seq<char>, usize))
    requires
        ranks_before(a, b),
    ensures
        !ranks_before(b, a),
{
    if a.1 == b.1 {
        lemma_text_lt_asymmetric(a.0, b.0);
    }
}

/// Text order on two names.
pub fn text_less(a: &[char], b: &[char]) -> (r: bool)
    ensures
        r == text_lt(a@, b@),
{
    let mut i: usize = 0;
    assert(a@.skip(0) =~= a@);
    assert(b@.skip(0) =~= b@);
    while i < a.len() && i < b.len()
        invariant
            i <= a@.len(),
            i <= b@.len(),
            text_lt(a@, b@) == text_lt(a@.skip(i as int), b@.skip(i as int)),
        decreases a.len() - i,
    {
        assert(a@.skip(i as int)[0] == a@[i as int]);
        assert(b@.skip(i as int)[0] == b@[i as int]);
        if a[i] != b[i] {
            return a[i] < b[i];
        }
        assert(a@.skip(i as int).drop_first() =~= a@.skip(i + 1));
        assert(b@.skip(i as int).drop_first() =~= b@.skip(i + 1));
        i = i + 1;
    }
    i < b.len()
}

/// The number of entries a ranking of `n` system calls keeps.
pub open spec fn top_len(n: nat) -> nat {
    if n < TOP_SYSCALLS {
        n
    } else {
        TOP_SYSCALLS as nat
    }
}

/// `r` is the ranking of `entries`: its first `top_len` entries in ranking
/// order. Together with different names this fixes `r`.
pub open spec fn is_top_ranking(r: Seq<(Seq<char>, usize)>, entries: Seq<(Seq<char>, usize)>) -> bool {
    &&& r.len() == top_len(entries.len())
    &&& forall|i: int| 0 <= i < r.len() ==> entries.contains(#[trigger] r[i])
    &&& forall|i: int, j: int| 0 <= i < j < r.len() ==> ranks_before(#[trigger] r[i], #[trigger] r[j])
    &&& forall|i: int, j: int|
        0 <= i < r.len() && 0 <= j < entries.len() && !r.contains(#[trigger] entries[j])
            ==> ranks_before(#[trigger] r[i], entries[j])
}

/// The most frequent system calls, most calls first and equal counts by
/// name, at most five of them.
pub fn top_syscalls(counts: &Vec<(String, usize)>) -> (r: Vec<(String, usize)>)
    requires
        distinct_names(counts_view(counts@)),
    ensures
        is_top_ranking(counts_view(r@), counts_view(counts@)),
{
    let ghost e = counts_view(counts@);
    let n = counts.len();
    // The names as characters, for comparing.
    let mut keys: Vec<Vec<char>> = Vec::new();
    let mut rest: Vec<usize> = Vec::new();
    let mut i: usize = 0;
    while i < n
        invariant
            n == counts@.len() == e.len(),
            e == counts_view(counts@),
            i <= n,
            keys@.len() == i,
            rest@ == Seq::new(i as nat, |j: int| j as usize),
            forall|j: int| 0 <= j < i ==> #[trigger] keys@[j]@ == e[j].0,
        decreases n - i,
    {
        keys.push(chars_of(counts[i].0.as_str()));
        rest.push(i);
        assert(rest@ =~= Seq::new(i as nat + 1, |j: int| j as usize));
        i = i + 1;
    }
    let m: usize = if n < TOP_SYSCALLS {
        n
    } else {
        TOP_SYSCALLS
    };
    let mut r: Vec<(String, usize)> = Vec::new();
    let ghost mut picked: Seq<int> = seq![];
    assert forall|j: int| 0 <= j < n implies #[trigger] rest@.contains(j as usize) by {
        assert(rest@[j] == j as usize);
    }
    while r.len() < m
        invariant
            n == counts@.len() == e.len(),
            e == counts_view(counts@),
            distinct_names(e),
            m == top_len(n as nat),
            r@.len() <= m,
            keys@.len() == n,
            forall|j: int| 0 <= j < n ==> #[trigger] keys@[j]@ == e[j].0,
            rest@.len() + r@.len() == n,
            rest@.no_duplicates(),
            forall|t: int| 0 <= t < rest@.len() ==> #[trigger] rest@[t] < n,
            picked.len() == r@.len(),
            forall|i: int|
                0 <= i < picked.len() ==> 0 <= #[trigger] picked[i] < n && counts_view(r@)[i]
                    == e[picked[i]],
            forall|j: int| 0 <= j < n ==> (rest@.contains(j as usize) <==> !picked.contains(j)),
            forall|i: int, j: int|
                0 <= i < j < r@.len() ==> ranks_before(
                    #[trigger] counts_view(r@)[i],
                    #[trigger] counts_view(r@)[j],
                ),
            forall|i: int, t: int|
                0 <= i < r@.len() && 0 <= t < rest@.len() ==> ranks_before(
                    #[trigger] counts_view(r@)[i],
                    e[#[trigger] rest@[t] as int],
                ),
        decreases m - r@.len(),
    {
        // The best of the entries not yet ranked.
        let mut best: usize = 0;
        let mut q: usize = 1;
        while q < rest.len()
            invariant
                n == e.len(),
                distinct_names(e),
                keys@.len() == n,
                forall|j: int| 0 <= j < n ==> #[trigger] keys@[j]@ == e[j].0,
                e == counts_view(counts@),
                rest@.no_duplicates(),
                forall|t: int| 0 <= t < rest@.len() ==> #[trigger] rest@[t] < n,
                best < q <= rest@.len(),
                forall|t: int|
                    0 <= t < q && t != best ==> ranks_before(
                        e[rest@[best as int] as int],
                        e[#[trigger] rest@[t] as int],
                    ),
            decreases rest.len() - q,
        {
            let x = rest[q];
            let b = rest[best];
            let better = counts[x].1 > counts[b].1 || (counts[x].1 == counts[b].1 && text_less(
                keys[x].as_slice(),
                keys[b].as_slice(),
            ));
            proof {
                assert(e[x as int] == (counts@[x as int].0@, counts@[x as int].1));
                assert(e[b as int] == (counts@[b as int].0@, counts@[b as int].1));
                assert(better == ranks_before(e[x as int], e[b as int]));
                assert(x != b);
                assert(e[x as int].0 != e[b as int].0) by {
                    if (x as int) < (b as int) {
                        assert(e[x as int].0 != e[b as int].0);
                    } else {
                        assert(e[b as int].0 != e[x as int].0);
                    }
                }
            }
            if better {
                proof {
                    assert forall|t: int| 0 <= t < q + 1 && t != q implies ranks_before(
                        e[rest@[q as int] as int],
                        e[#[trigger] rest@[t] as int],
                    ) by {
                        if t != best {
                            lemma_ranks_before_transitive(
                                e[x as int],
                                e[b as int],
                                e[rest@[t] as int],
                            );
                        }
                    }
                }
                best = q;
            } else {
                proof {
                    lemma_ranks_before_total(e[x as int], e[b as int]);
                }
            }
            q = q + 1;
        }
        let ghost rest0 = rest@;
        let ghost r0 = counts_view(r@);
        let ghost picked0 = picked;
        let b = rest.remove(best);
        let ghost k = r@.len() as int;
        r.push((counts[b].0.clone(), counts[b].1));
        proof {
            rest0.remove_ensures(best as int);
            let rv = counts_view(r@);
            assert(rv[k] == e[b as int]);
            assert forall|i: int| 0 <= i < k implies #[trigger] rv[i] == r0[i] by {}
            picked = picked.push(b as int);
            // Where the entries left over stood before the removal.
            assert forall|t: int| 0 <= t < rest@.len() implies #[trigger] rest@[t] == rest0[if t
                < best {
                t
            } else {
                t + 1
            }] by {}
            assert(rest@.no_duplicates()) by {
                assert forall|t1: int, t2: int|
                    0 <= t1 < rest@.len() && 0 <= t2 < rest@.len() && t1 != t2 implies rest@[t1]
                    != rest@[t2] by {
                    let u1 = if t1 < best {
                        t1
                    } else {
                        t1 + 1
                    };
                    let u2 = if t2 < best {
                        t2
                    } else {
                        t2 + 1
                    };
                    assert(rest@[t1] == rest0[u1] && rest@[t2] == rest0[u2]);
                }
            }
            assert forall|j: int| 0 <= j < n implies (rest@.contains(j as usize)
                <==> !picked.contains(j)) by {
                if rest@.contains(j as usize) {
                    let t = choose|t: int| 0 <= t < rest@.len() && rest@[t] == j as usize;
                    let u = if t < best {
                        t
                    } else {
                        t + 1
                    };
                    assert(rest0[u] == j as usize);
                    assert(rest0.contains(j as usize));
                    assert(u != best as int);
                    assert(j != b as int);
                    assert(!picked0.contains(j));
                    if picked.contains(j) {
                        let w = choose|w: int| 0 <= w < picked.len() && picked[w] == j;
                        if w < picked0.len() {
                            assert(picked0[w] == j);
                        }
                    }
                } else {
                    if j == b as int {
                        assert(picked[picked.len() - 1] == j);
                    } else if rest0.contains(j as usize) {
                        let u = choose|u: int| 0 <= u < rest0.len() && rest0[u] == j as usize;
                        assert(u != best as int);
                        let t = if u < best {
                            u
                        } else {
                            u - 1
                        };
                        assert(rest@[t] == j as usize);
                    } else {
                        assert(picked0.contains(j));
                        let w = choose|w: int| 0 <= w < picked0.len() && picked0[w] == j;
                        assert(picked[w] == j);
                    }
                }
            }
            assert forall|i: int, j: int|
                0 <= i < j < r@.len() implies ranks_before(
                #[trigger] counts_view(r@)[i],
                #[trigger] counts_view(r@)[j],
            ) by {
                if j == k {
                    assert(ranks_before(r0[i], e[rest0[best as int] as int]));
                } else {
                    assert(ranks_before(r0[i], r0[j]));
                }
            }
            assert forall|i: int, t: int|
                0 <= i < r@.len() && 0 <= t < rest@.len() implies ranks_before(
                #[trigger] counts_view(r@)[i],
                e[#[trigger] rest@[t] as int],
            ) by {
                let u = if t < best {
                    t
                } else {
                    t + 1
                };
                assert(rest@[t] == rest0[u]);
                if i == k {
                    assert(u != best as int);
                    assert(ranks_before(e[rest0[best as int] as int], e[rest0[u] as int]));
                } else {
                    assert(ranks_before(r0[i], e[rest0[u] as int]));
                }
            }
        }
    }
    proof {
        let rv = counts_view(r@);
        assert forall|i: int, j: int|
            0 <= i < rv.len() && 0 <= j < e.len() && !rv.contains(#[trigger] e[j]) implies ranks_before(
            #[trigger] rv[i],
            e[j],
        ) by {
            if picked.contains(j) {
                let t = choose|t: int| 0 <= t < picked.len() && picked[t] == j;
                assert(rv[t] == e[j]);
            } else {
                assert(rest@.contains(j as usize));
                let t = choose|t: int| 0 <= t < rest@.len() && rest@[t] == j as usize;
                assert(ranks_before(rv[i], e[rest@[t] as int]));
            }
        }
        assert forall|i: int| 0 <= i < rv.len() implies e.contains(#[trigger] rv[i]) by {
            assert(e[picked[i]] == rv[i]);
        }
    }
    r
}

// ---------------------------------------------------------------------------
// Laws
// ---------------------------------------------------------------------------

proof fn lemma_ranks_before_irreflexive(a: (Seq<char>, usize))
    ensures
        !ranks_before(a, a),
{
    lemma_text_lt_irreflexive(a.0);
}

/// Where `x` stands in a strictly ordered ranking, it stands nowhere else.
proof fn lemma_ranking_no_repeats(r: Seq<(Seq<char>, usize)>, i: int, j: int)
    requires
        forall|a: int, b: int| 0 <= a < b < r.len() ==> ranks_before(#[trigger] r[a], #[trigger] r[b]),
        0 <= i < r.len(),
        0 <= j < r.len(),
        r[i] == r[j],
    ensures
        i == j,
{
    if i < j {
        assert(ranks_before(r[i], r[j]));
        lemma_ranks_before_irreflexive(r[i]);
    } else if j < i {
        assert(ranks_before(r[j], r[i]));
        lemma_ranks_before_irreflexive(r[i]);
    }
}

/// The first `k` entries of two rankings of the same entries agree.
proof fn lemma_rankings_agree_up_to(
    r1: Seq<(Seq<char>, usize)>,
    r2: Seq<(Seq<char>, usize)>,
    e1: Seq<(Seq<char>, usize)>,
    e2: Seq<(Seq<char>, usize)>,
    k: int,
)
    requires
        is_top_ranking(r1, e1),
        is_top_ranking(r2, e2),
        r1.len() == r2.len(),
        forall|x: (Seq<char>, usize)| e1.contains(x) <==> e2.contains(x),
        0 <= k <= r1.len(),
    ensures
        forall|j: int| 0 <= j < k ==> r1[j] == r2[j],
    decreases k,
{
    if k > 0 {
        lemma_rankings_agree_up_to(r1, r2, e1, e2, k - 1);
        let i = k - 1;
        let a = r1[i];
        let b = r2[i];
        if a != b {
            // `b` is ranked after `a` in `r1`, and `a` after `b` in `r2`.
            assert(ranks_before(a, b)) by {
                if r1.contains(b) {
                    let j = choose|j: int| 0 <= j < r1.len() && r1[j] == b;
                    if j < i {
                        assert(r2[j] == b);
                        lemma_ranking_no_repeats(r2, i, j);
                    }
                    assert(j != i);
                } else {
                    assert(e2.contains(b));
                    let t = choose|t: int| 0 <= t < e1.len() && e1[t] == b;
                    assert(!r1.contains(e1[t]));
                }
            }
            assert(ranks_before(b, a)) by {
                if r2.contains(a) {
                    let j = choose|j: int| 0 <= j < r2.len() && r2[j] == a;
                    if j < i {
                        assert(r1[j] == a);
                        lemma_ranking_no_repeats(r1, i, j);
                    }
                    assert(j != i);
                } else {
                    assert(e1.contains(a));
                    assert(e2.contains(a));
                    let t = choose|t: int| 0 <= t < e2.len() && e2[t] == a;
                    assert(!r2.contains(e2[t]));
                }
            }
            lemma_ranks_before_asymmetric(a, b);
        }
    }
}

/// The ranking depends only on which entries there are, not on the order
/// in which they come: two rankings of the same entries are equal.
pub proof fn lemma_top_ranking_unique(
    r1: Seq<(Seq<char>, usize)>,
    r2: Seq<(Seq<char>, usize)>,
    e1: Seq<(Seq<char>, usize)>,
    e2: Seq<(Seq<char>, usize)>,
)
    requires
        is_top_ranking(r1, e1),
        is_top_ranking(r2, e2),
        e1.len() == e2.len(),
        forall|x: (Seq<char>, usize)| e1.contains(x) <==> e2.contains(x),
    ensures
        r1 == r2,
{
    lemma_rankings_agree_up_to(r1, r2, e1, e2, r1.len() as int);
    assert(r1 =~= r2);
}

/// The direction of a ranking: more calls come first; at equal counts a
/// name whose first differing character is smaller comes first, and a name
/// comes before any longer name it begins.
pub proof fn lemma_ranking_direction(a: (Seq<char>, usize), b: (Seq<char>, usize), k: int)
    ensures
        a.1 > b.1 ==> ranks_before(a, b),
        a.1 < b.1 ==> !ranks_before(a, b),
        a.1 == b.1 && 0 <= k < a.0.len() && k < b.0.len() && a.0.take(k) == b.0.take(k) && a.0[k]
            < b.0[k] ==> ranks_before(a, b),
        a.1 == b.1 && a.0.len() < b.0.len() && b.0.take(a.0.len() as int) == a.0 ==> ranks_before(
            a,
            b,
        ),
        TOP_SYSCALLS == 5,
{
    if a.1 == b.1 && 0 <= k < a.0.len() && k < b.0.len() && a.0.take(k) == b.0.take(k) && a.0[k]
        < b.0[k] {
        lemma_text_lt_first_difference(a.0, b.0, k);
    }
    if a.1 == b.1 && a.0.len() < b.0.len() && b.0.take(a.0.len() as int) == a.0 {
        lemma_text_lt_proper_prefix(a.0, b.0);
    }
}

proof fn lemma_text_lt_first_difference(a: Seq<char>, b: Seq<char>, k: int)
    requires
        0 <= k < a.len(),
        k < b.len(),
        a.take(k) == b.take(k),
        a[k] < b[k],
    ensures
        text_lt(a, b),
    decreases k,
{
    if k > 0 {
        assert(a[0] == a.take(k)[0]);
        assert(b[0] == b.take(k)[0]);
        assert(a.drop_first().take(k - 1) =~= b.drop_first().take(k - 1)) by {
            assert forall|i: int| 0 <= i < k - 1 implies #[trigger] a.drop_first().take(k - 1)[i]
                == b.drop_first().take(k - 1)[i] by {
                assert(a[i + 1] == a.take(k)[i + 1]);
                assert(b[i + 1] == b.take(k)[i + 1]);
            }
        }
        lemma_text_lt_first_difference(a.drop_first(), b.drop_first(), k - 1);
    }
}

proof fn lemma_text_lt_proper_prefix(a: Seq<char>, b: Seq<char>)
    requires
        a.len() < b.len(),
        b.take(a.len() as int) == a,
    ensures
        text_lt(a, b),
    decreases a.len(),
{
    if a.len() > 0 {
        assert(a[0] == b.take(a.len() as int)[0]);
        assert(b.drop_first().take(a.drop_first().len() as int) =~= a.drop_first()) by {
            assert forall|i: int| 0 <= i < a.len() - 1 implies #[trigger] b.drop_first()[i]
                == a.drop_first()[i] by {
                assert(b[i + 1] == b.take(a.len() as int)[i + 1]);
            }
        }
        lemma_text_lt_proper_prefix(a.drop_first(), b.drop_first());
    }
}

} // verus!
