//! Reading an strace log (`strace -f -tt -T`): the lines of the log, the
//! system call named on a line, the duration text at its end, and the tally
//! of a whole trace.

use vstd::prelude::*;
use vstd::slice::slice_subrange;
use crate::category::{Category, classify, classify_chars};
use crate::ranking::{is_top_ranking, lemma_top_ranking_unique};
use crate::text::{
    chars_of, find_char, first_index_of, is_white_space, last_index_of, rfind_char,
    starts_with, starts_with_str, string_from_chars, substring, white_space, chars_eq,
};

verus! {

// ---------------------------------------------------------------------------
// Lines
// ---------------------------------------------------------------------------

/// `l` without one trailing carriage return.
pub open spec fn strip_cr(l: Seq<char>) -> Seq<char> {
    if l.len() > 0 && l.last() == '\r' {
        l.drop_last()
    } else {
        l
    }
}

/// The lines of a text as `str::lines` yields them: pieces ended by `\n`
/// (a `\r` just before the `\n` is dropped too), the last piece needing no
/// `\n`, and no empty piece after a final `\n`.
pub open spec fn lines_of(s: Seq<char>) -> Seq<Seq<char>>
    decreases s.len(),
{
    if s.len() == 0 {
        seq![]
    } else {
        match first_index_of(s, '\n') {
            None => seq![s],
            // The first newline always lies inside `s`; checking it lets the
            // recursion be seen to shrink.
            Some(i) => if 0 <= i < s.len() {
                seq![strip_cr(s.take(i))] + lines_of(s.skip(i + 1))
            } else {
                seq![]
            },
        }
    }
}

/// Finds the line that starts at `pos`: it is `s[pos..end]`, and the next
/// line starts at `next`.
fn next_line(s: &[char], pos: usize) -> (r: (usize, usize))
    requires
        pos < s@.len(),
    ensures
        pos <= r.0 <= r.1 <= s@.len(),
        pos < r.1,
        lines_of(s@.skip(pos as int)) =~= seq![s@.subrange(pos as int, r.0 as int)] + lines_of(
            s@.skip(r.1 as int),
        ),
{
    let rest = slice_subrange(s, pos, s.len());
    assert(rest@ =~= s@.skip(pos as int));
    match find_char(rest, '\n') {
        None => {
            assert(s@.skip(s@.len() as int) =~= Seq::<char>::empty());
            assert(rest@ =~= s@.subrange(pos as int, s@.len() as int));
            (s.len(), s.len())
        },
        Some(i) => {
            let end = pos + i;
            let line_end = if i > 0 && s[end - 1] == '\r' {
                end - 1
            } else {
                end
            };
            assert(rest@.skip(i + 1) =~= s@.skip(end + 1));
            assert(strip_cr(rest@.take(i as int)) =~= s@.subrange(pos as int, line_end as int));
            (line_end, end + 1)
        },
    }
}

/// The number of lines in `contents`, as `contents.lines().count()` gives it.
pub fn line_count(contents: &str) -> (r: usize)
    ensures
        r == lines_of(contents@).len(),
{
    let chars = chars_of(contents);
    let s = chars.as_slice();
    let mut pos: usize = 0;
    let mut n: usize = 0;
    let ghost mut acc: Seq<Seq<char>> = seq![];
    assert(s@.skip(0) =~= s@);
    while pos < s.len()
        invariant
            pos <= s@.len(),
            s@ == contents@,
            n == acc.len(),
            n <= pos,
            lines_of(s@) == acc + lines_of(s@.skip(pos as int)),
        decreases s.len() - pos,
    {
        let (end, next) = next_line(s, pos);
        proof {
            let line = s@.subrange(pos as int, end as int);
            assert(acc + (seq![line] + lines_of(s@.skip(next as int))) =~= acc.push(line)
                + lines_of(s@.skip(next as int)));
            acc = acc.push(line);
        }
        n = n + 1;
        pos = next;
    }
    assert(s@.skip(pos as int) =~= Seq::<char>::empty());
    assert(acc + lines_of(s@.skip(pos as int)) =~= acc);
    n
}

// ---------------------------------------------------------------------------
// The system call on a line
// ---------------------------------------------------------------------------

/// Length of `s` once trailing white space is dropped.
pub open spec fn trimmed_end(s: Seq<char>) -> int
    decreases s.len(),
{
    if s.len() == 0 {
        0
    } else if is_white_space(s.last()) {
        trimmed_end(s.drop_last())
    } else {
        s.len() as int
    }
}

/// Start of the run of non-white-space characters that ends `s`.
pub open spec fn word_start(s: Seq<char>) -> int
    decreases s.len(),
{
    if s.len() == 0 || is_white_space(s.last()) {
        s.len() as int
    } else {
        word_start(s.drop_last())
    }
}

/// The last white-space-separated word of `s`, as
/// `s.split_whitespace().last()` gives it.
pub open spec fn last_word(s: Seq<char>) -> Option<Seq<char>> {
    let t = s.take(trimmed_end(s));
    if t.len() == 0 {
        None
    } else {
        Some(t.subrange(word_start(t), t.len() as int))
    }
}

/// The name of the system call on a trace line: the last word before the
/// first `(`. Lines that report an exit (`+++ `) or a signal (`--- `), lines
/// without `(`, and lines with no word before it name none.
pub open spec fn syscall_name_of(line: Seq<char>) -> Option<Seq<char>> {
    if starts_with(line, "+++ "@) || starts_with(line, "--- "@) {
        None
    } else {
        match first_index_of(line, '(') {
            None => None,
            Some(p) => match last_word(line.take(p)) {
                Some(w) => if w.len() > 0 {
                    Some(w)
                } else {
                    None
                },
                None => None,
            },
        }
    }
}

/// Where the name of the system call on `line` lies: `line[start..end]`.
fn syscall_name_span(line: &[char]) -> (r: Option<(usize, usize)>)
    ensures
        r matches Some(span) ==> span.0 <= span.1 <= line@.len() && syscall_name_of(line@) == Some(
            line@.subrange(span.0 as int, span.1 as int),
        ),
        r is None ==> syscall_name_of(line@) is None,
{
    if starts_with_str(line, "+++ ") || starts_with_str(line, "--- ") {
        return None;
    }
    let paren = match find_char(line, '(') {
        Some(p) => p,
        None => return None,
    };
    let ghost before = line@.take(paren as int);
    // Drop the white space that ends the text before the parenthesis.
    let mut end: usize = paren;
    while end > 0 && white_space(line[end - 1])
        invariant
            end <= paren < line@.len(),
            before == line@.take(paren as int),
            trimmed_end(line@.take(end as int)) == trimmed_end(before),
        decreases end,
    {
        assert(line@.take(end as int).drop_last() =~= line@.take(end - 1));
        end = end - 1;
    }
    if end == 0 {
        assert(line@.take(0) =~= Seq::<char>::empty());
        assert(before.take(0) =~= Seq::<char>::empty());
        return None;
    }
    assert(trimmed_end(before) == end);
    let ghost t = before.take(end as int);
    assert(t =~= line@.take(end as int));
    // Walk back over the word itself.
    let mut start: usize = end;
    while start > 0 && !white_space(line[start - 1])
        invariant
            start <= end <= paren < line@.len(),
            t == line@.take(end as int),
            word_start(t) == word_start(line@.take(start as int)),
        decreases start,
    {
        assert(line@.take(start as int).drop_last() =~= line@.take(start - 1));
        start = start - 1;
    }
    assert(word_start(line@.take(start as int)) == start);
    assert(t.subrange(start as int, end as int) =~= line@.subrange(start as int, end as int));
    if start == end {
        return None;
    }
    Some((start, end))
}

/// The name of the system call on a trace line (see `syscall_name_of`).
pub fn extract_syscall_name(line: &str) -> (r: Option<String>)
    ensures
        r matches Some(name) ==> syscall_name_of(line@) == Some(name@),
        r is None ==> syscall_name_of(line@) is None,
{
    let chars = chars_of(line);
    match syscall_name_span(chars.as_slice()) {
        Some((start, end)) => Some(substring(chars.as_slice(), start, end)),
        None => None,
    }
}

// ---------------------------------------------------------------------------
// The duration on a line
// ---------------------------------------------------------------------------

/// The text between the last `<` and the last `>` of a line, where strace
/// writes how long the call took; none when either is missing or the last
/// `>` does not come after the last `<`.
pub open spec fn duration_span(line: Seq<char>) -> Option<Seq<char>> {
    match last_index_of(line, '<') {
        None => None,
        Some(start) => match last_index_of(line, '>') {
            None => None,
            Some(end) => if end <= start {
                None
            } else {
                Some(line.subrange(start + 1, end))
            },
        },
    }
}

/// Where the duration text of `line` lies: `line[start..end]`.
fn duration_bounds(line: &[char]) -> (r: Option<(usize, usize)>)
    ensures
        r matches Some(b) ==> b.0 <= b.1 <= line@.len() && duration_span(line@) == Some(
            line@.subrange(b.0 as int, b.1 as int),
        ),
        r is None ==> duration_span(line@) is None,
{
    let start = match rfind_char(line, '<') {
        Some(i) => i,
        None => return None,
    };
    let end = match rfind_char(line, '>') {
        Some(i) => i,
        None => return None,
    };
    proof {
        let a = choose|k: int| crate::text::is_last_index(line@, '<', k);
        let b = choose|k: int| crate::text::is_last_index(line@, '>', k);
        assert(0 <= a < line@.len() && 0 <= b < line@.len());
    }
    if end <= start {
        return None;
    }
    Some((start + 1, end))
}

/// The duration text of a trace line (see `duration_span`); reading it as a
/// number of seconds is left to the caller.
pub fn duration_text(line: &str) -> (r: Option<String>)
    ensures
        r matches Some(t) ==> duration_span(line@) == Some(t@),
        r is None ==> duration_span(line@) is None,
{
    let chars = chars_of(line);
    match duration_bounds(chars.as_slice()) {
        Some((start, end)) => Some(substring(chars.as_slice(), start, end)),
        None => None,
    }
}

// ---------------------------------------------------------------------------
// Tallying a trace
// ---------------------------------------------------------------------------

/// How many lines of a trace fall in each category.
#[derive(Clone, Copy, Debug, PartialEq, Eq, Structural)]
pub struct CategoryCounts {
    pub file: usize,
    pub network: usize,
    pub process: usize,
    pub wait: usize,
}

impl CategoryCounts {
    /// The count kept for category `c`.
    pub open spec fn count_of(self, c: Category) -> usize {
        match c {
            Category::File => self.file,
            Category::Network => self.network,
            Category::Process => self.process,
            Category::Wait => self.wait,
        }
    }

    /// The count kept for category `c`.
    pub fn get(&self, c: Category) -> (r: usize)
        ensures
            r == self.count_of(c),
    {
        match c {
            Category::File => self.file,
            Category::Network => self.network,
            Category::Process => self.process,
            Category::Wait => self.wait,
        }
    }
}

/// How many of `lines` are classified as `c`.
pub open spec fn category_count(lines: Seq<Seq<char>>, c: Category) -> nat
    decreases lines.len(),
{
    if lines.len() == 0 {
        0
    } else {
        category_count(lines.drop_last(), c) + if classify(lines.last()) == Some(c) {
            1nat
        } else {
            0nat
        }
    }
}

/// For each classified line that carries a duration, in order, its category
/// and its duration text.
pub open spec fn timed_entries(lines: Seq<Seq<char>>) -> Seq<(Category, Seq<char>)>
    decreases lines.len(),
{
    if lines.len() == 0 {
        seq![]
    } else {
        let rest = timed_entries(lines.drop_last());
        match classify(lines.last()) {
            Some(c) => match duration_span(lines.last()) {
                Some(t) => rest.push((c, t)),
                None => rest,
            },
            None => rest,
        }
    }
}

/// The system call names found on `lines`, in order, one per line that
/// names one.
pub open spec fn syscall_names(lines: Seq<Seq<char>>) -> Seq<Seq<char>>
    decreases lines.len(),
{
    if lines.len() == 0 {
        seq![]
    } else {
        match syscall_name_of(lines.last()) {
            Some(n) => syscall_names(lines.drop_last()).push(n),
            None => syscall_names(lines.drop_last()),
        }
    }
}

/// How many times `n` occurs in `names`.
pub open spec fn occurrences(names: Seq<Seq<char>>, n: Seq<char>) -> nat
    decreases names.len(),
{
    if names.len() == 0 {
        0
    } else {
        occurrences(names.drop_last(), n) + if names.last() == n {
            1nat
        } else {
            0nat
        }
    }
}

/// Each entry of `entries` holds the number of occurrences of its name in
/// `names`, no name has two entries, and every name that occurs has one.
pub open spec fn counts_each_name(entries: Seq<(Seq<char>, usize)>, names: Seq<Seq<char>>) -> bool {
    &&& forall|i: int, j: int|
        0 <= i < j < entries.len() ==> #[trigger] entries[i].0 != #[trigger] entries[j].0
    &&& forall|i: int|
        0 <= i < entries.len() ==> #[trigger] entries[i].1 == occurrences(names, entries[i].0)
    &&& forall|n: Seq<char>|
        #[trigger] occurrences(names, n) > 0 ==> exists|i: int|
            0 <= i < entries.len() && #[trigger] entries[i].0 == n
}

/// `entries` is the tally of `names`: exactly the names that occur have an
/// entry, one each, holding its number of occurrences (so never 0).
pub open spec fn is_syscall_tally(entries: Seq<(Seq<char>, usize)>, names: Seq<Seq<char>>) -> bool {
    &&& counts_each_name(entries, names)
    &&& forall|i: int| 0 <= i < entries.len() ==> #[trigger] entries[i].1 > 0
}

/// The names of `entries` are pairwise different.
pub open spec fn distinct_names(entries: Seq<(Seq<char>, usize)>) -> bool {
    forall|i: int, j: int|
        0 <= i < j < entries.len() ==> #[trigger] entries[i].0 != #[trigger] entries[j].0
}

/// The view of a list of durations.
pub open spec fn timed_view(v: Seq<(Category, String)>) -> Seq<(Category, Seq<char>)> {
    Seq::new(v.len(), |i: int| (v[i].0, v[i].1@))
}

/// The view of a list of system call counts.
pub open spec fn counts_view(v: Seq<(String, usize)>) -> Seq<(Seq<char>, usize)> {
    Seq::new(v.len(), |i: int| (v[i].0@, v[i].1))
}

spec fn pairs(names: Seq<Vec<char>>, tallies: Seq<usize>) -> Seq<(Seq<char>, usize)> {
    Seq::new(names.len(), |i: int| (names[i]@, tallies[i]))
}

/// What a trace holds, line by line: the number of lines in each category,
/// the durations of the classified lines, and how often each system call
/// was named.
pub struct TraceTally {
    pub counts: CategoryCounts,
    pub timed: Vec<(Category, String)>,
    pub syscalls: Vec<(String, usize)>,
}

proof fn lemma_category_count_le(lines: Seq<Seq<char>>, c: Category)
    ensures
        category_count(lines, c) <= lines.len(),
    decreases lines.len(),
{
    if lines.len() > 0 {
        lemma_category_count_le(lines.drop_last(), c);
    }
}

proof fn lemma_syscall_names_le(lines: Seq<Seq<char>>)
    ensures
        syscall_names(lines).len() <= lines.len(),
    decreases lines.len(),
{
    if lines.len() > 0 {
        lemma_syscall_names_le(lines.drop_last());
    }
}

proof fn lemma_occurrences_le(names: Seq<Seq<char>>, n: Seq<char>)
    ensures
        occurrences(names, n) <= names.len(),
    decreases names.len(),
{
    if names.len() > 0 {
        lemma_occurrences_le(names.drop_last(), n);
    }
}

proof fn lemma_occurrences_push(names: Seq<Seq<char>>, w: Seq<char>, n: Seq<char>)
    ensures
        occurrences(names.push(w), n) == occurrences(names, n) + if w == n {
            1nat
        } else {
            0nat
        },
{
    assert(names.push(w).drop_last() =~= names);
}

/// Counts one more occurrence of the name `w`.
fn add_name(
    names: &mut Vec<Vec<char>>,
    tallies: &mut Vec<usize>,
    w: Vec<char>,
    Ghost(seen): Ghost<Seq<Seq<char>>>,
)
    requires
        old(names)@.len() == old(tallies)@.len(),
        is_syscall_tally(pairs(old(names)@, old(tallies)@), seen),
        seen.len() < usize::MAX,
    ensures
        final(names)@.len() == final(tallies)@.len(),
        is_syscall_tally(pairs(final(names)@, final(tallies)@), seen.push(w@)),
{
    let ghost old_pairs = pairs(names@, tallies@);
    let ghost seen2 = seen.push(w@);
    let mut k: usize = 0;
    while k < names.len()
        invariant
            names@.len() == tallies@.len(),
            k <= names@.len(),
            old_pairs == pairs(names@, tallies@),
            is_syscall_tally(old_pairs, seen),
            seen.len() < usize::MAX,
            seen2 == seen.push(w@),
            forall|j: int| 0 <= j < k ==> names@[j]@ != w@,
        decreases names.len() - k,
    {
        if chars_eq(names[k].as_slice(), w.as_slice()) {
            proof {
                assert(old_pairs[k as int].0 == w@);
                assert(old_pairs[k as int].1 == occurrences(seen, old_pairs[k as int].0));
                lemma_occurrences_le(seen, w@);
            }
            let t = tallies[k] + 1;
            tallies.set(k, t);
            proof {
                let p = pairs(names@, tallies@);
                assert forall|i: int| 0 <= i < p.len() implies #[trigger] p[i].1 == occurrences(
                    seen2,
                    p[i].0,
                ) by {
                    lemma_occurrences_push(seen, w@, p[i].0);
                    assert(old_pairs[i].1 == occurrences(seen, old_pairs[i].0));
                    assert(old_pairs[i].0 == p[i].0);
                }
                assert forall|n: Seq<char>| #[trigger] occurrences(seen2, n) > 0 implies exists|
                    i: int,
                |
                    0 <= i < p.len() && #[trigger] p[i].0 == n by {
                    lemma_occurrences_push(seen, w@, n);
                    if n == w@ {
                        assert(p[k as int].0 == n);
                    } else {
                        assert(occurrences(seen, n) > 0);
                        assert(exists|i: int| 0 <= i < old_pairs.len() && #[trigger] old_pairs[i].0 == n);
                        let i = choose|i: int| 0 <= i < old_pairs.len() && #[trigger] old_pairs[i].0 == n;
                        assert(p[i].0 == n);
                    }
                }
                assert forall|i: int, j: int|
                    0 <= i < j < p.len() implies #[trigger] p[i].0 != #[trigger] p[j].0 by {
                    assert(old_pairs[i].0 != old_pairs[j].0);
                }
                assert forall|i: int| 0 <= i < p.len() implies #[trigger] p[i].1 > 0 by {
                    assert(old_pairs[i].1 > 0);
                }
            }
            return;
        }
        k = k + 1;
    }
    proof {
        assert(occurrences(seen, w@) == 0) by {
            if occurrences(seen, w@) > 0 {
                let i = choose|i: int| 0 <= i < old_pairs.len() && #[trigger] old_pairs[i].0 == w@;
                assert(names@[i]@ == w@);
            }
        }
    }
    names.push(w);
    tallies.push(1);
    proof {
        let p = pairs(names@, tallies@);
        assert forall|i: int| 0 <= i < p.len() implies #[trigger] p[i].1 == occurrences(
            seen2,
            p[i].0,
        ) by {
            lemma_occurrences_push(seen, w@, p[i].0);
            if i < old_pairs.len() {
                assert(old_pairs[i].1 == occurrences(seen, old_pairs[i].0));
                assert(p[i] == old_pairs[i]);
            }
        }
        assert forall|n: Seq<char>| #[trigger] occurrences(seen2, n) > 0 implies exists|i: int|
            0 <= i < p.len() && #[trigger] p[i].0 == n by {
            lemma_occurrences_push(seen, w@, n);
            if n == w@ {
                assert(p[old_pairs.len() as int].0 == n);
            } else {
                let i = choose|i: int| 0 <= i < old_pairs.len() && #[trigger] old_pairs[i].0 == n;
                assert(p[i].0 == n);
            }
        }
        assert forall|i: int, j: int|
            0 <= i < j < p.len() implies #[trigger] p[i].0 != #[trigger] p[j].0 by {
            if j < old_pairs.len() {
                assert(old_pairs[i].0 != old_pairs[j].0);
            } else {
                assert(p[i] == old_pairs[i]);
            }
        }
        assert forall|i: int| 0 <= i < p.len() implies #[trigger] p[i].1 > 0 by {
            if i < old_pairs.len() {
                assert(old_pairs[i].1 > 0);
                assert(p[i] == old_pairs[i]);
            }
        }
    }
}

/// Goes through the lines of a trace once: counts the classified lines of
/// each category, keeps the duration text of each classified line that has
/// one, and counts how often each system call is named.
pub fn tally_trace(contents: &str) -> (r: TraceTally)
    ensures
        forall|c: Category| #[trigger] r.counts.count_of(c) == category_count(lines_of(contents@), c),
        timed_view(r.timed@) == timed_entries(lines_of(contents@)),
        is_syscall_tally(counts_view(r.syscalls@), syscall_names(lines_of(contents@))),
{
    let chars = chars_of(contents);
    let s = chars.as_slice();
    let mut counts = CategoryCounts { file: 0, network: 0, process: 0, wait: 0 };
    let mut timed: Vec<(Category, String)> = Vec::new();
    let mut names: Vec<Vec<char>> = Vec::new();
    let mut tallies: Vec<usize> = Vec::new();
    let mut pos: usize = 0;
    let ghost mut acc: Seq<Seq<char>> = seq![];
    assert(s@.skip(0) =~= s@);
    assert(timed_view(timed@) =~= timed_entries(acc));
    while pos < s.len()
        invariant
            pos <= s@.len(),
            s@ == contents@,
            acc.len() <= pos,
            lines_of(s@) == acc + lines_of(s@.skip(pos as int)),
            forall|c: Category| #[trigger] counts.count_of(c) == category_count(acc, c),
            timed_view(timed@) == timed_entries(acc),
            names@.len() == tallies@.len(),
            is_syscall_tally(pairs(names@, tallies@), syscall_names(acc)),
        decreases s.len() - pos,
    {
        let (end, next) = next_line(s, pos);
        let line = slice_subrange(s, pos, end);
        let ghost acc2 = acc.push(line@);
        proof {
            assert(acc2.drop_last() =~= acc);
            assert(acc + (seq![line@] + lines_of(s@.skip(next as int))) =~= acc2 + lines_of(
                s@.skip(next as int),
            ));
            lemma_syscall_names_le(acc);
        }
        let cls = classify_chars(line);
        let ghost old_counts = counts;
        match cls {
            Some(c) => {
                proof {
                    lemma_category_count_le(acc, c);
                }
                let n = counts.get(c) + 1;
                counts = match c {
                    Category::File => CategoryCounts { file: n, ..counts },
                    Category::Network => CategoryCounts { network: n, ..counts },
                    Category::Process => CategoryCounts { process: n, ..counts },
                    Category::Wait => CategoryCounts { wait: n, ..counts },
                };
                match duration_bounds(line) {
                    Some((a, b)) => {
                        let t = substring(line, a, b);
                        timed.push((c, t));
                        assert(timed_view(timed@) =~= timed_entries(acc2));
                    },
                    None => {
                        assert(timed_view(timed@) =~= timed_entries(acc2));
                    },
                }
            },
            None => {
                assert(timed_view(timed@) =~= timed_entries(acc2));
            },
        }
        proof {
            assert forall|c2: Category| #[trigger] counts.count_of(c2) == category_count(acc2, c2) by {
                assert(acc2.last() == line@);
                assert(old_counts.count_of(c2) == category_count(acc, c2));
                assert(category_count(acc2, c2) == category_count(acc, c2) + if classify(line@) == Some(c2) {
                    1nat
                } else {
                    0nat
                });
            }
        }
        match syscall_name_span(line) {
            Some((a, b)) => {
                let mut w: Vec<char> = Vec::new();
                crate::text::push_chars(&mut w, slice_subrange(line, a, b));
                add_name(&mut names, &mut tallies, w, Ghost(syscall_names(acc)));
                assert(syscall_names(acc2) =~= syscall_names(acc).push(w@));
            },
            None => {
                assert(syscall_names(acc2) =~= syscall_names(acc));
            },
        }
        proof {
            acc = acc2;
        }
        pos = next;
    }
    assert(s@.skip(pos as int) =~= Seq::<char>::empty());
    assert(acc + lines_of(s@.skip(pos as int)) =~= acc);
    let mut syscalls: Vec<(String, usize)> = Vec::new();
    let mut i: usize = 0;
    while i < names.len()
        invariant
            i <= names@.len() == tallies@.len(),
            syscalls@.len() == i,
            forall|j: int|
                0 <= j < i ==> #[trigger] syscalls@[j].0@ == names@[j]@ && syscalls@[j].1 == tallies@[j],
        decreases names.len() - i,
    {
        let name = string_from_chars(names[i].as_slice());
        syscalls.push((name, tallies[i]));
        i = i + 1;
    }
    assert(counts_view(syscalls@) =~= pairs(names@, tallies@));
    TraceTally { counts, timed, syscalls }
}

// ---------------------------------------------------------------------------
// Laws
// ---------------------------------------------------------------------------

/// How many of `lines` are classified at all.
pub open spec fn classified_count(lines: Seq<Seq<char>>) -> nat
    decreases lines.len(),
{
    if lines.len() == 0 {
        0
    } else {
        classified_count(lines.drop_last()) + if classify(lines.last()) is Some {
            1nat
        } else {
            0nat
        }
    }
}

/// Every classified line is counted in exactly one category: the four
/// counts add up to the classified lines, which are no more than the lines.
pub proof fn lemma_counts_partition(lines: Seq<Seq<char>>)
    ensures
        category_count(lines, Category::File) + category_count(lines, Category::Network)
            + category_count(lines, Category::Process) + category_count(lines, Category::Wait)
            == classified_count(lines),
        classified_count(lines) <= lines.len(),
    decreases lines.len(),
{
    if lines.len() > 0 {
        lemma_counts_partition(lines.drop_last());
    }
}

/// The sum of the counts in `entries`.
pub open spec fn total_count(entries: Seq<(Seq<char>, usize)>) -> nat
    decreases entries.len(),
{
    if entries.len() == 0 {
        0
    } else {
        total_count(entries.drop_last()) + entries.last().1 as nat
    }
}

proof fn lemma_total_count_update(entries: Seq<(Seq<char>, usize)>, k: int, e: (Seq<char>, usize))
    requires
        0 <= k < entries.len(),
    ensures
        total_count(entries.update(k, e)) + entries[k].1 == total_count(entries) + e.1,
    decreases entries.len(),
{
    let u = entries.update(k, e);
    if k == entries.len() - 1 {
        assert(u.drop_last() =~= entries.drop_last());
    } else {
        assert(u.drop_last() =~= entries.drop_last().update(k, e));
        lemma_total_count_update(entries.drop_last(), k, e);
    }
}

/// Every line that names a system call is counted exactly once: the counts
/// of a tally add up to the number of names it counts.
pub proof fn lemma_tally_total(entries: Seq<(Seq<char>, usize)>, names: Seq<Seq<char>>)
    requires
        counts_each_name(entries, names),
    ensures
        total_count(entries) == names.len(),
    decreases names.len(),
{
    if names.len() == 0 {
        assert forall|i: int| 0 <= i < entries.len() implies #[trigger] entries[i].1 == 0 by {
            assert(entries[i].1 == occurrences(names, entries[i].0));
        }
        lemma_total_count_zero(entries);
    } else {
        let w = names.last();
        let rest = names.drop_last();
        assert(names =~= rest.push(w));
        lemma_occurrences_push(rest, w, w);
        assert(occurrences(names, w) > 0);
        let k = choose|i: int| 0 <= i < entries.len() && #[trigger] entries[i].0 == w;
        assert(entries[k].1 == occurrences(names, w));
        let smaller = entries.update(k, (w, (entries[k].1 - 1) as usize));
        assert forall|i: int| 0 <= i < smaller.len() implies #[trigger] smaller[i].1 == occurrences(
            rest,
            smaller[i].0,
        ) by {
            lemma_occurrences_push(rest, w, entries[i].0);
            assert(entries[i].1 == occurrences(names, entries[i].0));
        }
        assert forall|n: Seq<char>| #[trigger] occurrences(rest, n) > 0 implies exists|i: int|
            0 <= i < smaller.len() && #[trigger] smaller[i].0 == n by {
            lemma_occurrences_push(rest, w, n);
            let i = choose|i: int| 0 <= i < entries.len() && #[trigger] entries[i].0 == n;
            assert(smaller[i].0 == n);
        }
        assert forall|i: int, j: int|
            0 <= i < j < smaller.len() implies #[trigger] smaller[i].0 != #[trigger] smaller[j].0 by {
            assert(entries[i].0 != entries[j].0);
        }
        lemma_tally_total(smaller, rest);
        lemma_total_count_update(entries, k, (w, (entries[k].1 - 1) as usize));
    }
}

proof fn lemma_total_count_zero(entries: Seq<(Seq<char>, usize)>)
    requires
        forall|i: int| 0 <= i < entries.len() ==> #[trigger] entries[i].1 == 0,
    ensures
        total_count(entries) == 0,
    decreases entries.len(),
{
    if entries.len() > 0 {
        let d = entries.drop_last();
        assert forall|i: int| 0 <= i < d.len() implies #[trigger] d[i].1 == 0 by {
            assert(d[i] == entries[i]);
        }
        lemma_total_count_zero(d);
    }
}

/// How many of `lines` satisfy `p`.
pub open spec fn count_where(lines: Seq<Seq<char>>, p: spec_fn(Seq<char>) -> bool) -> nat
    decreases lines.len(),
{
    if lines.len() == 0 {
        0
    } else {
        count_where(lines.drop_last(), p) + if p(lines.last()) {
            1nat
        } else {
            0nat
        }
    }
}

/// The lines classified as `c`.
pub open spec fn in_category(c: Category) -> spec_fn(Seq<char>) -> bool {
    |l: Seq<char>| classify(l) == Some(c)
}

/// The lines that name the system call `n`.
pub open spec fn names_call(n: Seq<char>) -> spec_fn(Seq<char>) -> bool {
    |l: Seq<char>| syscall_name_of(l) == Some(n)
}

proof fn lemma_category_count_where(lines: Seq<Seq<char>>, c: Category)
    ensures
        category_count(lines, c) == count_where(lines, in_category(c)),
    decreases lines.len(),
{
    if lines.len() > 0 {
        lemma_category_count_where(lines.drop_last(), c);
    }
}

proof fn lemma_occurrences_count_where(lines: Seq<Seq<char>>, n: Seq<char>)
    ensures
        occurrences(syscall_names(lines), n) == count_where(lines, names_call(n)),
    decreases lines.len(),
{
    if lines.len() > 0 {
        lemma_occurrences_count_where(lines.drop_last(), n);
        match syscall_name_of(lines.last()) {
            Some(w) => lemma_occurrences_push(syscall_names(lines.drop_last()), w, n),
            None => {},
        }
    }
}

proof fn lemma_count_where_remove(lines: Seq<Seq<char>>, j: int, p: spec_fn(Seq<char>) -> bool)
    requires
        0 <= j < lines.len(),
    ensures
        count_where(lines, p) == count_where(lines.remove(j), p) + if p(lines[j]) {
            1nat
        } else {
            0nat
        },
    decreases lines.len(),
{
    let r = lines.remove(j);
    if j == lines.len() - 1 {
        assert(r =~= lines.drop_last());
    } else {
        assert(r.drop_last() =~= lines.drop_last().remove(j));
        assert(r.last() == lines.last());
        lemma_count_where_remove(lines.drop_last(), j, p);
    }
}

proof fn lemma_count_where_permutation(
    lines1: Seq<Seq<char>>,
    lines2: Seq<Seq<char>>,
    p: spec_fn(Seq<char>) -> bool,
)
    requires
        lines1.to_multiset() == lines2.to_multiset(),
    ensures
        count_where(lines1, p) == count_where(lines2, p),
    decreases lines1.len(),
{
    lines1.to_multiset_ensures();
    lines2.to_multiset_ensures();
    if lines1.len() > 0 {
        let x = lines1.last();
        let d = lines1.drop_last();
        assert(lines1 =~= d.push(x));
        d.to_multiset_ensures();
        assert(lines1.to_multiset() =~= d.to_multiset().insert(x));
        assert(lines2.to_multiset().count(x) > 0);
        assert(lines2.contains(x));
        let j = choose|j: int| 0 <= j < lines2.len() && lines2[j] == x;
        assert(lines2.remove(j).to_multiset() =~= lines2.to_multiset().remove(x));
        assert(d.to_multiset().insert(x).remove(x) =~= d.to_multiset());
        lemma_count_where_permutation(d, lines2.remove(j), p);
        lemma_count_where_remove(lines2, j, p);
    }
}

/// The tally does not depend on the order of the lines: lines that are a
/// rearrangement of each other give the same count for every category and
/// the same number of occurrences for every system call name.
pub proof fn lemma_tally_ignores_line_order(lines1: Seq<Seq<char>>, lines2: Seq<Seq<char>>)
    requires
        lines1.to_multiset() == lines2.to_multiset(),
    ensures
        forall|c: Category| #[trigger] category_count(lines1, c) == category_count(lines2, c),
        forall|n: Seq<char>|
            #[trigger] occurrences(syscall_names(lines1), n) == occurrences(syscall_names(lines2), n),
{
    assert forall|c: Category| #[trigger] category_count(lines1, c) == category_count(lines2, c) by {
        lemma_category_count_where(lines1, c);
        lemma_category_count_where(lines2, c);
        lemma_count_where_permutation(lines1, lines2, in_category(c));
    }
    assert forall|n: Seq<char>|
        #[trigger] occurrences(syscall_names(lines1), n) == occurrences(syscall_names(lines2), n) by {
        lemma_occurrences_count_where(lines1, n);
        lemma_occurrences_count_where(lines2, n);
        lemma_count_where_permutation(lines1, lines2, names_call(n));
    }
}

/// Two tallies of the same names hold the same entries, in some order.
pub proof fn lemma_tallies_same_entries(
    e1: Seq<(Seq<char>, usize)>,
    e2: Seq<(Seq<char>, usize)>,
    names1: Seq<Seq<char>>,
    names2: Seq<Seq<char>>,
)
    requires
        is_syscall_tally(e1, names1),
        is_syscall_tally(e2, names2),
        forall|n: Seq<char>| #[trigger] occurrences(names1, n) == occurrences(names2, n),
    ensures
        forall|x: (Seq<char>, usize)| e1.contains(x) <==> e2.contains(x),
        e1.len() == e2.len(),
{
    assert forall|x: (Seq<char>, usize)| e1.contains(x) implies e2.contains(x) by {
        lemma_tally_entry_in_other(e1, e2, names1, names2, x);
    }
    assert forall|x: (Seq<char>, usize)| e2.contains(x) implies e1.contains(x) by {
        lemma_tally_entry_in_other(e2, e1, names2, names1, x);
    }
    lemma_tally_no_duplicates(e1, names1);
    lemma_tally_no_duplicates(e2, names2);
    e1.unique_seq_to_set();
    e2.unique_seq_to_set();
    assert(e1.to_set() =~= e2.to_set());
}

proof fn lemma_tally_entry_in_other(
    e1: Seq<(Seq<char>, usize)>,
    e2: Seq<(Seq<char>, usize)>,
    names1: Seq<Seq<char>>,
    names2: Seq<Seq<char>>,
    x: (Seq<char>, usize),
)
    requires
        is_syscall_tally(e1, names1),
        is_syscall_tally(e2, names2),
        forall|n: Seq<char>| #[trigger] occurrences(names1, n) == occurrences(names2, n),
        e1.contains(x),
    ensures
        e2.contains(x),
{
    let i = choose|i: int| 0 <= i < e1.len() && e1[i] == x;
    assert(e1[i].1 == occurrences(names1, x.0));
    assert(e1[i].1 > 0);
    assert(occurrences(names2, x.0) > 0);
    let j = choose|j: int| 0 <= j < e2.len() && #[trigger] e2[j].0 == x.0;
    assert(e2[j].1 == occurrences(names2, e2[j].0));
    assert(e2[j] == x);
}

proof fn lemma_tally_no_duplicates(e: Seq<(Seq<char>, usize)>, names: Seq<Seq<char>>)
    requires
        is_syscall_tally(e, names),
    ensures
        e.no_duplicates(),
{
    assert forall|i: int, j: int| 0 <= i < e.len() && 0 <= j < e.len() && i != j implies e[i]
        != e[j] by {
        if i < j {
            assert(e[i].0 != e[j].0);
        } else {
            assert(e[j].0 != e[i].0);
        }
    }
}

/// The top list does not depend on the order of the lines: rankings of
/// the tallies of two rearrangements of the same lines are equal.
pub proof fn lemma_top_list_ignores_line_order(
    lines1: Seq<Seq<char>>,
    lines2: Seq<Seq<char>>,
    e1: Seq<(Seq<char>, usize)>,
    e2: Seq<(Seq<char>, usize)>,
    r1: Seq<(Seq<char>, usize)>,
    r2: Seq<(Seq<char>, usize)>,
)
    requires
        lines1.to_multiset() == lines2.to_multiset(),
        is_syscall_tally(e1, syscall_names(lines1)),
        is_syscall_tally(e2, syscall_names(lines2)),
        is_top_ranking(r1, e1),
        is_top_ranking(r2, e2),
    ensures
        r1 == r2,
{
    lemma_tally_ignores_line_order(lines1, lines2);
    lemma_tallies_same_entries(e1, e2, syscall_names(lines1), syscall_names(lines2));
    lemma_top_ranking_unique(r1, r2, e1, e2);
}

/// A trace without lines names no system call: its tally is empty.
pub proof fn lemma_empty_trace_tally(e: Seq<(Seq<char>, usize)>)
    requires
        is_syscall_tally(e, syscall_names(lines_of(Seq::<char>::empty()))),
    ensures
        e.len() == 0,
{
    if e.len() > 0 {
        assert(e[0].1 > 0);
        assert(e[0].1 == occurrences(syscall_names(lines_of(Seq::<char>::empty())), e[0].0));
    }
}

/// What one more line adds to a tally: one to the count of its category,
/// its duration text together with its category (whichever category that
/// is), and its system call name; a line without a category or without a
/// duration adds no duration, and a line naming no call adds no name.
pub proof fn lemma_one_more_line(lines: Seq<Seq<char>>, l: Seq<char>)
    ensures
        forall|c: Category|
            #[trigger] category_count(lines.push(l), c) == category_count(lines, c) + if classify(l)
                == Some(c) {
                1nat
            } else {
                0nat
            },
        classify(l) is Some && duration_span(l) is Some ==> timed_entries(lines.push(l))
            == timed_entries(lines).push((classify(l).unwrap(), duration_span(l).unwrap())),
        classify(l) is None || duration_span(l) is None ==> timed_entries(lines.push(l))
            == timed_entries(lines),
        forall|n: Seq<char>|
            syscall_name_of(l) == Some(n) ==> #[trigger] syscall_names(lines.push(l)) == syscall_names(
                lines,
            ).push(n),
        syscall_name_of(l) is None ==> syscall_names(lines.push(l)) == syscall_names(lines),
{
    assert(lines.push(l).drop_last() =~= lines);
}

/// The duration text of a line is what lies between its last `<` and its
/// last `>`, when the `>` comes later; otherwise there is none.
pub proof fn lemma_duration_span_bounds(line: Seq<char>, a: int, b: int)
    ensures
        0 <= a < b < line.len() && line[a] == '<' && line[b] == '>' && (forall|j: int|
            a < j < line.len() ==> line[j] != '<') && (forall|j: int|
            b < j < line.len() ==> line[j] != '>') ==> duration_span(line) == Some(
            line.subrange(a + 1, b),
        ),
        0 <= b <= a < line.len() && line[a] == '<' && line[b] == '>' && (forall|j: int|
            a < j < line.len() ==> line[j] != '<') && (forall|j: int|
            b < j < line.len() ==> line[j] != '>') ==> duration_span(line) is None,
        (forall|j: int| 0 <= j < line.len() ==> line[j] != '<') ==> duration_span(line) is None,
        (forall|j: int| 0 <= j < line.len() ==> line[j] != '>') ==> duration_span(line) is None,
{
    if 0 <= a < line.len() && line[a] == '<' && (forall|j: int| a < j < line.len() ==> line[j] != '<') {
        assert(crate::text::is_last_index(line, '<', a));
        let k = choose|k: int| crate::text::is_last_index(line, '<', k);
        assert(k == a);
    }
    if 0 <= b < line.len() && line[b] == '>' && (forall|j: int| b < j < line.len() ==> line[j] != '>') {
        assert(crate::text::is_last_index(line, '>', b));
        let k = choose|k: int| crate::text::is_last_index(line, '>', k);
        assert(k == b);
    }
}

proof fn lemma_word_start_of_word(pre: Seq<char>, w: Seq<char>)
    requires
        pre.len() == 0 || is_white_space(pre.last()),
        forall|i: int| 0 <= i < w.len() ==> !is_white_space(#[trigger] w[i]),
    ensures
        word_start(pre + w) == pre.len(),
    decreases w.len(),
{
    if w.len() == 0 {
        assert(pre + w =~= pre);
    } else {
        assert((pre + w).drop_last() =~= pre + w.drop_last());
        assert((pre + w).last() == w[w.len() - 1]);
        lemma_word_start_of_word(pre, w.drop_last());
    }
}

/// The call named on a line is the word just before its first `(`: when
/// the line is `pre`, then a word `w` (no white space, no `(`), then `(`,
/// with `pre` free of `(` and ending in white space or empty, and the line
/// reports no exit or signal, the name is `w`.
pub proof fn lemma_syscall_name_is_word_before_paren(
    pre: Seq<char>,
    w: Seq<char>,
    rest: Seq<char>,
)
    requires
        w.len() > 0,
        forall|i: int| 0 <= i < w.len() ==> !is_white_space(#[trigger] w[i]) && w[i] != '(',
        forall|i: int| 0 <= i < pre.len() ==> #[trigger] pre[i] != '(',
        pre.len() == 0 || is_white_space(pre.last()),
        !starts_with(pre + w + seq!['('] + rest, "+++ "@),
        !starts_with(pre + w + seq!['('] + rest, "--- "@),
    ensures
        syscall_name_of(pre + w + seq!['('] + rest) == Some(w),
{
    let line = pre + w + seq!['('] + rest;
    let p: int = (pre.len() + w.len()) as int;
    assert(line[p] == '(');
    assert forall|j: int| 0 <= j < p implies line[j] != '(' by {
        if j < pre.len() {
            assert(line[j] == pre[j]);
        } else {
            assert(line[j] == w[j - pre.len()]);
        }
    }
    assert(crate::text::is_first_index(line, '(', p));
    let k = choose|k: int| crate::text::is_first_index(line, '(', k);
    assert(k == p);
    let t = line.take(p);
    assert(t =~= pre + w);
    assert(t.last() == w[w.len() - 1]);
    assert(trimmed_end(t) == t.len());
    assert(t.take(t.len() as int) =~= t);
    lemma_word_start_of_word(pre, w);
    assert(t.subrange(pre.len() as int, t.len() as int) =~= w);
}

/// How a text splits into lines: no text has no lines, a text without a
/// newline is a single line, and a newline ends the line before it (a
/// carriage return just before the newline is dropped) and the lines of
/// the rest follow.
pub proof fn lemma_lines_split(a: Seq<char>, b: Seq<char>)
    requires
        forall|i: int| 0 <= i < a.len() ==> #[trigger] a[i] != '\n',
    ensures
        lines_of(Seq::<char>::empty()) == Seq::<Seq<char>>::empty(),
        a.len() > 0 ==> lines_of(a) == seq![a],
        lines_of(a + seq!['\n'] + b) == seq![
            if a.len() > 0 && a.last() == '\r' {
                a.drop_last()
            } else {
                a
            },
        ] + lines_of(b),
{
    if a.len() > 0 {
        if exists|i: int| crate::text::is_first_index(a, '\n', i) {
            let i = choose|i: int| crate::text::is_first_index(a, '\n', i);
            assert(a[i] != '\n');
        }
    }
    let s = a + seq!['\n'] + b;
    let p = a.len() as int;
    assert(s[p] == '\n');
    assert forall|j: int| 0 <= j < p implies s[j] != '\n' by {
        assert(s[j] == a[j]);
    }
    assert(crate::text::is_first_index(s, '\n', p));
    let k = choose|k: int| crate::text::is_first_index(s, '\n', k);
    assert(k == p);
    assert(s.take(p) =~= a);
    assert(s.skip(p + 1) =~= b);
}

/// Lines that report an exit (`+++ `) or a signal (`--- `), and lines
/// without `(`, name no call.
pub proof fn lemma_lines_naming_no_call(line: Seq<char>)
    ensures
        starts_with(line, "+++ "@) ==> syscall_name_of(line) is None,
        starts_with(line, "--- "@) ==> syscall_name_of(line) is None,
        (forall|i: int| 0 <= i < line.len() ==> line[i] != '(') ==> syscall_name_of(line) is None,
{
    if exists|i: int| crate::text::is_first_index(line, '(', i) {
        let i = choose|i: int| crate::text::is_first_index(line, '(', i);
        assert(line[i] == '(');
    }
}

} // verus!
