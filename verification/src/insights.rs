//! Short observations about a trace, drawn from the call counts of each
//! category and the share of the traced time that each category took.

use vstd::prelude::*;

verus! {

/// The share of the total traced time that each category took, in whole
/// percent rounded down (the time of the category divided by the total,
/// times 100). Every rule compares a share with a whole number of percent,
/// so rounding down decides each rule as the exact share does.
#[derive(Clone, Copy, Debug, PartialEq, Eq, Structural)]
pub struct TimeShares {
    pub file: u64,
    pub network: u64,
    pub process: u64,
    pub wait: u64,
}

/// `line` when `cond` holds, nothing otherwise.
pub open spec fn line_if(cond: bool, line: Seq<char>) -> Seq<Seq<char>> {
    if cond {
        seq![line]
    } else {
        seq![]
    }
}

/// The observations, in order. `shares` is `None` when the trace holds no
/// traced time at all.
pub open spec fn insight_lines(
    file_calls: nat,
    network_calls: nat,
    process_calls: nat,
    wait_calls: nat,
    shares: Option<TimeShares>,
) -> Seq<Seq<char>> {
    match shares {
        None => seq!["Not enough traced time data yet."@],
        Some(p) => line_if(p.wait >= 60, "This command spent most of its traced time waiting."@)
            + line_if(p.file >= 40, "This command looked file-heavy."@) + line_if(
            p.network >= 20,
            "Noticeable network activity was detected."@,
        ) + line_if(p.process >= 20, "A meaningful chunk of time went into process-related work."@)
            + line_if(process_calls >= 5, "This command spawned or waited on many processes."@)
            + line_if(
            network_calls > 0 && p.wait >= 40,
            "A lot of the waiting may be network-related."@,
        ) + line_if(file_calls >= 100, "This command touched a lot of files or file metadata."@)
            + line_if(
            wait_calls == 1 && p.wait >= 80,
            "This looks a lot like sleep or one big blocking wait."@,
        ),
    }
}

/// The view of a list of texts.
pub open spec fn strings_view(v: Seq<String>) -> Seq<Seq<char>> {
    Seq::new(v.len(), |i: int| v[i]@)
}

fn push_line_if(out: &mut Vec<String>, cond: bool, line: &str)
    ensures
        strings_view(final(out)@) == strings_view(old(out)@) + line_if(cond, line@),
{
    if cond {
        out.push(line.to_owned());
    }
    assert(strings_view(out@) =~= strings_view(old(out)@) + line_if(cond, line@));
}

/// The observations about a trace (see `insight_lines`).
pub fn build_insights(
    file_calls: usize,
    network_calls: usize,
    process_calls: usize,
    wait_calls: usize,
    shares: Option<TimeShares>,
) -> (r: Vec<String>)
    ensures
        strings_view(r@) == insight_lines(
            file_calls as nat,
            network_calls as nat,
            process_calls as nat,
            wait_calls as nat,
            shares,
        ),
{
    let mut insights: Vec<String> = Vec::new();
    assert(strings_view(insights@) =~= seq![]);
    let p = match shares {
        None => {
            push_line_if(&mut insights, true, "Not enough traced time data yet.");
            assert(strings_view(insights@) =~= seq!["Not enough traced time data yet."@]);
            return insights;
        },
        Some(p) => p,
    };
    push_line_if(
        &mut insights,
        p.wait >= 60,
        "This command spent most of its traced time waiting.",
    );
    assert(strings_view(insights@) =~= line_if(
        p.wait >= 60,
        "This command spent most of its traced time waiting."@,
    ));
    push_line_if(&mut insights, p.file >= 40, "This command looked file-heavy.");
    push_line_if(&mut insights, p.network >= 20, "Noticeable network activity was detected.");
    push_line_if(
        &mut insights,
        p.process >= 20,
        "A meaningful chunk of time went into process-related work.",
    );
    push_line_if(
        &mut insights,
        process_calls >= 5,
        "This command spawned or waited on many processes.",
    );
    push_line_if(
        &mut insights,
        network_calls > 0 && p.wait >= 40,
        "A lot of the waiting may be network-related.",
    );
    push_line_if(
        &mut insights,
        file_calls >= 100,
        "This command touched a lot of files or file metadata.",
    );
    push_line_if(
        &mut insights,
        wait_calls == 1 && p.wait >= 80,
        "This looks a lot like sleep or one big blocking wait.",
    );
    insights
}

// ---------------------------------------------------------------------------
// Laws
// ---------------------------------------------------------------------------

proof fn lemma_contains_concat(a: Seq<Seq<char>>, b: Seq<Seq<char>>, x: Seq<char>)
    ensures
        (a + b).contains(x) <==> a.contains(x) || b.contains(x),
{
    if a.contains(x) {
        let i = choose|i: int| 0 <= i < a.len() && a[i] == x;
        assert((a + b)[i] == x);
    }
    if b.contains(x) {
        let i = choose|i: int| 0 <= i < b.len() && b[i] == x;
        assert((a + b)[a.len() + i] == x);
    }
    if (a + b).contains(x) {
        let i = choose|i: int| 0 <= i < (a + b).len() && (a + b)[i] == x;
        if i < a.len() {
            assert(a[i] == x);
        } else {
            assert(b[i - a.len()] == x);
        }
    }
}

proof fn lemma_line_if_contains(cond: bool, line: Seq<char>, x: Seq<char>)
    ensures
        line_if(cond, line).contains(x) <==> cond && line == x,
{
    if cond && line == x {
        assert(line_if(cond, line)[0] == x);
    }
}

proof fn lemma_insight_membership(
    file_calls: nat,
    network_calls: nat,
    process_calls: nat,
    wait_calls: nat,
    p: TimeShares,
    x: Seq<char>,
)
    ensures
        insight_lines(file_calls, network_calls, process_calls, wait_calls, Some(p)).contains(x) <==> {
            ||| (p.wait >= 60) && "This command spent most of its traced time waiting."@ == x
            ||| (p.file >= 40) && "This command looked file-heavy."@ == x
            ||| (p.network >= 20) && "Noticeable network activity was detected."@ == x
            ||| (p.process >= 20) && "A meaningful chunk of time went into process-related work."@ == x
            ||| (process_calls >= 5) && "This command spawned or waited on many processes."@ == x
            ||| (network_calls > 0 && p.wait >= 40) && "A lot of the waiting may be network-related."@ == x
            ||| (file_calls >= 100) && "This command touched a lot of files or file metadata."@ == x
            ||| (wait_calls == 1 && p.wait >= 80) && "This looks a lot like sleep or one big blocking wait."@ == x
        },
{
    lemma_line_if_contains(p.wait >= 60, "This command spent most of its traced time waiting."@, x);
    lemma_line_if_contains(p.file >= 40, "This command looked file-heavy."@, x);
    lemma_contains_concat(line_if(p.wait >= 60, "This command spent most of its traced time waiting."@), line_if(p.file >= 40, "This command looked file-heavy."@), x);
    lemma_line_if_contains(p.network >= 20, "Noticeable network activity was detected."@, x);
    lemma_contains_concat(line_if(p.wait >= 60, "This command spent most of its traced time waiting."@) + line_if(p.file >= 40, "This command looked file-heavy."@), line_if(p.network >= 20, "Noticeable network activity was detected."@), x);
    lemma_line_if_contains(p.process >= 20, "A meaningful chunk of time went into process-related work."@, x);
    lemma_contains_concat(line_if(p.wait >= 60, "This command spent most of its traced time waiting."@) + line_if(p.file >= 40, "This command looked file-heavy."@) + line_if(p.network >= 20, "Noticeable network activity was detected."@), line_if(p.process >= 20, "A meaningful chunk of time went into process-related work."@), x);
    lemma_line_if_contains(process_calls >= 5, "This command spawned or waited on many processes."@, x);
    lemma_contains_concat(line_if(p.wait >= 60, "This command spent most of its traced time waiting."@) + line_if(p.file >= 40, "This command looked file-heavy."@) + line_if(p.network >= 20, "Noticeable network activity was detected."@) + line_if(p.process >= 20, "A meaningful chunk of time went into process-related work."@), line_if(process_calls >= 5, "This command spawned or waited on many processes."@), x);
    lemma_line_if_contains(network_calls > 0 && p.wait >= 40, "A lot of the waiting may be network-related."@, x);
    lemma_contains_concat(line_if(p.wait >= 60, "This command spent most of its traced time waiting."@) + line_if(p.file >= 40, "This command looked file-heavy."@) + line_if(p.network >= 20, "Noticeable network activity was detected."@) + line_if(p.process >= 20, "A meaningful chunk of time went into process-related work."@) + line_if(process_calls >= 5, "This command spawned or waited on many processes."@), line_if(network_calls > 0 && p.wait >= 40, "A lot of the waiting may be network-related."@), x);
    lemma_line_if_contains(file_calls >= 100, "This command touched a lot of files or file metadata."@, x);
    lemma_contains_concat(line_if(p.wait >= 60, "This command spent most of its traced time waiting."@) + line_if(p.file >= 40, "This command looked file-heavy."@) + line_if(p.network >= 20, "Noticeable network activity was detected."@) + line_if(p.process >= 20, "A meaningful chunk of time went into process-related work."@) + line_if(process_calls >= 5, "This command spawned or waited on many processes."@) + line_if(network_calls > 0 && p.wait >= 40, "A lot of the waiting may be network-related."@), line_if(file_calls >= 100, "This command touched a lot of files or file metadata."@), x);
    lemma_line_if_contains(wait_calls == 1 && p.wait >= 80, "This looks a lot like sleep or one big blocking wait."@, x);
    lemma_contains_concat(line_if(p.wait >= 60, "This command spent most of its traced time waiting."@) + line_if(p.file >= 40, "This command looked file-heavy."@) + line_if(p.network >= 20, "Noticeable network activity was detected."@) + line_if(p.process >= 20, "A meaningful chunk of time went into process-related work."@) + line_if(process_calls >= 5, "This command spawned or waited on many processes."@) + line_if(network_calls > 0 && p.wait >= 40, "A lot of the waiting may be network-related."@) + line_if(file_calls >= 100, "This command touched a lot of files or file metadata."@), line_if(wait_calls == 1 && p.wait >= 80, "This looks a lot like sleep or one big blocking wait."@), x);
}

proof fn lemma_insight_texts_differ()
    ensures
        "This command spent most of its traced time waiting."@ != "This command looked file-heavy."@,
        "This command spent most of its traced time waiting."@ != "Noticeable network activity was detected."@,
        "This command spent most of its traced time waiting."@ != "A meaningful chunk of time went into process-related work."@,
        "This command spent most of its traced time waiting."@ != "This command spawned or waited on many processes."@,
        "This command spent most of its traced time waiting."@ != "A lot of the waiting may be network-related."@,
        "This command spent most of its traced time waiting."@ != "This command touched a lot of files or file metadata."@,
        "This command spent most of its traced time waiting."@ != "This looks a lot like sleep or one big blocking wait."@,
        "This command spent most of its traced time waiting."@ != "Not enough traced time data yet."@,
        "This command looked file-heavy."@ != "Noticeable network activity was detected."@,
        "This command looked file-heavy."@ != "A meaningful chunk of time went into process-related work."@,
        "This command looked file-heavy."@ != "This command spawned or waited on many processes."@,
        "This command looked file-heavy."@ != "A lot of the waiting may be network-related."@,
        "This command looked file-heavy."@ != "This command touched a lot of files or file metadata."@,
        "This command looked file-heavy."@ != "This looks a lot like sleep or one big blocking wait."@,
        "This command looked file-heavy."@ != "Not enough traced time data yet."@,
        "Noticeable network activity was detected."@ != "A meaningful chunk of time went into process-related work."@,
        "Noticeable network activity was detected."@ != "This command spawned or waited on many processes."@,
        "Noticeable network activity was detected."@ != "A lot of the waiting may be network-related."@,
        "Noticeable network activity was detected."@ != "This command touched a lot of files or file metadata."@,
        "Noticeable network activity was detected."@ != "This looks a lot like sleep or one big blocking wait."@,
        "Noticeable network activity was detected."@ != "Not enough traced time data yet."@,
        "A meaningful chunk of time went into process-related work."@ != "This command spawned or waited on many processes."@,
        "A meaningful chunk of time went into process-related work."@ != "A lot of the waiting may be network-related."@,
        "A meaningful chunk of time went into process-related work."@ != "This command touched a lot of files or file metadata."@,
        "A meaningful chunk of time went into process-related work."@ != "This looks a lot like sleep or one big blocking wait."@,
        "A meaningful chunk of time went into process-related work."@ != "Not enough traced time data yet."@,
        "This command spawned or waited on many processes."@ != "A lot of the waiting may be network-related."@,
        "This command spawned or waited on many processes."@ != "This command touched a lot of files or file metadata."@,
        "This command spawned or waited on many processes."@ != "This looks a lot like sleep or one big blocking wait."@,
        "This command spawned or waited on many processes."@ != "Not enough traced time data yet."@,
        "A lot of the waiting may be network-related."@ != "This command touched a lot of files or file metadata."@,
        "A lot of the waiting may be network-related."@ != "This looks a lot like sleep or one big blocking wait."@,
        "A lot of the waiting may be network-related."@ != "Not enough traced time data yet."@,
        "This command touched a lot of files or file metadata."@ != "This looks a lot like sleep or one big blocking wait."@,
        "This command touched a lot of files or file metadata."@ != "Not enough traced time data yet."@,
        "This looks a lot like sleep or one big blocking wait."@ != "Not enough traced time data yet."@,
{
    reveal_strlit("This command spent most of its traced time waiting.");
    reveal_strlit("This command looked file-heavy.");
    reveal_strlit("Noticeable network activity was detected.");
    reveal_strlit("A meaningful chunk of time went into process-related work.");
    reveal_strlit("This command spawned or waited on many processes.");
    reveal_strlit("A lot of the waiting may be network-related.");
    reveal_strlit("This command touched a lot of files or file metadata.");
    reveal_strlit("This looks a lot like sleep or one big blocking wait.");
    reveal_strlit("Not enough traced time data yet.");
    assert("This command spent most of its traced time waiting."@.len() == 51);
    assert("This command looked file-heavy."@.len() == 31);
    assert("Noticeable network activity was detected."@.len() == 41);
    assert("A meaningful chunk of time went into process-related work."@.len() == 58);
    assert("This command spawned or waited on many processes."@.len() == 49);
    assert("A lot of the waiting may be network-related."@.len() == 44);
    assert("This command touched a lot of files or file metadata."@.len() == 53);
    assert("This looks a lot like sleep or one big blocking wait."@.len() == 53);
    assert("Not enough traced time data yet."@.len() == 32);
    assert("This command touched a lot of files or file metadata."@[5] == 'c');
    assert("This looks a lot like sleep or one big blocking wait."@[5] == 'l');
}

/// Each observation is made exactly when its rule holds: mostly waiting
/// from 60% of the time waiting, file-heavy from 40% on files, network
/// activity and process work from 20% each, many processes from 5 process
/// calls, network-related waiting from one network call and 40% waiting,
/// many files from 100 file calls, and one big blocking wait only with
/// exactly one wait call and 80% waiting. With traced time there is never
/// the note that time is missing; without it that note is all there is.
pub proof fn lemma_insight_rules(
    file_calls: nat,
    network_calls: nat,
    process_calls: nat,
    wait_calls: nat,
    p: TimeShares,
)
    ensures
        insight_lines(file_calls, network_calls, process_calls, wait_calls, Some(p)).contains("This command spent most of its traced time waiting."@) <==> (p.wait >= 60),
        insight_lines(file_calls, network_calls, process_calls, wait_calls, Some(p)).contains("This command looked file-heavy."@) <==> (p.file >= 40),
        insight_lines(file_calls, network_calls, process_calls, wait_calls, Some(p)).contains("Noticeable network activity was detected."@) <==> (p.network >= 20),
        insight_lines(file_calls, network_calls, process_calls, wait_calls, Some(p)).contains("A meaningful chunk of time went into process-related work."@) <==> (p.process >= 20),
        insight_lines(file_calls, network_calls, process_calls, wait_calls, Some(p)).contains("This command spawned or waited on many processes."@) <==> (process_calls >= 5),
        insight_lines(file_calls, network_calls, process_calls, wait_calls, Some(p)).contains("A lot of the waiting may be network-related."@) <==> (network_calls > 0 && p.wait >= 40),
        insight_lines(file_calls, network_calls, process_calls, wait_calls, Some(p)).contains("This command touched a lot of files or file metadata."@) <==> (file_calls >= 100),
        insight_lines(file_calls, network_calls, process_calls, wait_calls, Some(p)).contains("This looks a lot like sleep or one big blocking wait."@) <==> (wait_calls == 1 && p.wait >= 80),
        !insight_lines(file_calls, network_calls, process_calls, wait_calls, Some(p)).contains("Not enough traced time data yet."@),
        insight_lines(file_calls, network_calls, process_calls, wait_calls, None) == seq!["Not enough traced time data yet."@],
{
    lemma_insight_texts_differ();
    lemma_insight_membership(file_calls, network_calls, process_calls, wait_calls, p, "This command spent most of its traced time waiting."@);
    lemma_insight_membership(file_calls, network_calls, process_calls, wait_calls, p, "This command looked file-heavy."@);
    lemma_insight_membership(file_calls, network_calls, process_calls, wait_calls, p, "Noticeable network activity was detected."@);
    lemma_insight_membership(file_calls, network_calls, process_calls, wait_calls, p, "A meaningful chunk of time went into process-related work."@);
    lemma_insight_membership(file_calls, network_calls, process_calls, wait_calls, p, "This command spawned or waited on many processes."@);
    lemma_insight_membership(file_calls, network_calls, process_calls, wait_calls, p, "A lot of the waiting may be network-related."@);
    lemma_insight_membership(file_calls, network_calls, process_calls, wait_calls, p, "This command touched a lot of files or file metadata."@);
    lemma_insight_membership(file_calls, network_calls, process_calls, wait_calls, p, "This looks a lot like sleep or one big blocking wait."@);
    lemma_insight_membership(file_calls, network_calls, process_calls, wait_calls, p, "Not enough traced time data yet."@);
}

} // verus!
