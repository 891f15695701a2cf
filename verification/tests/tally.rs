use why::{tally_trace, top_syscalls, Category, TOP_SYSCALLS};

const TRACE: &str = "1000 12:00:00.000001 execve(\"/bin/x\", [\"x\"], 0x7ffd) = 0 <0.000200>\n\
1000 12:00:00.000300 openat(AT_FDCWD, \"/etc/ld.so.cache\", O_RDONLY|O_CLOEXEC) = 3 <0.000010>\n\
1000 12:00:00.000400 read(3, \"x\", 832) = 832 <0.000005>\n\
1000 12:00:00.000500 close(3) = 0 <0.000003>\n\
1000 12:00:00.000600 clock_nanosleep(CLOCK_REALTIME, 0, {tv_sec=1, tv_nsec=0}, 0x7ffd) = 0 <1.000100>\n\
1000 12:00:01.000800 read(3, \"\", 832) = 0\n\
1000 12:00:01.000900 exit_group(0) = ?\n\
1000 12:00:01.001000 +++ exited with 0 +++\n";

#[test]
fn tallies_a_trace() {
    let t = tally_trace(TRACE);
    assert_eq!(t.counts.file, 4);
    assert_eq!(t.counts.network, 0);
    assert_eq!(t.counts.process, 1);
    assert_eq!(t.counts.wait, 1);
    assert_eq!(t.counts.get(Category::File), 4);
    let timed: Vec<(Category, &str)> = t.timed.iter().map(|(c, s)| (*c, s.as_str())).collect();
    assert_eq!(
        timed,
        vec![
            (Category::Process, "0.000200"),
            (Category::File, "0.000010"),
            (Category::File, "0.000005"),
            (Category::File, "0.000003"),
            (Category::Wait, "1.000100"),
        ]
    );
    let mut calls: Vec<(String, usize)> = t.syscalls.clone();
    calls.sort();
    assert_eq!(
        calls,
        vec![
            ("clock_nanosleep".to_string(), 1),
            ("close".to_string(), 1),
            ("execve".to_string(), 1),
            ("exit_group".to_string(), 1),
            ("openat".to_string(), 1),
            ("read".to_string(), 2),
        ]
    );
}

#[test]
fn counts_add_up_to_classified_lines() {
    let t = tally_trace(TRACE);
    let classified = TRACE.lines().filter(|l| why::classify_line(l).is_some()).count();
    assert_eq!(t.counts.file + t.counts.network + t.counts.process + t.counts.wait, classified);
}

#[test]
fn empty_trace_tallies_nothing() {
    let t = tally_trace("");
    assert_eq!(t.counts.file + t.counts.network + t.counts.process + t.counts.wait, 0);
    assert!(t.timed.is_empty());
    assert!(t.syscalls.is_empty());
}

#[test]
fn ranks_most_called_first_then_by_name() {
    let counts = vec![
        ("write".to_string(), 3),
        ("brk".to_string(), 7),
        ("mmap".to_string(), 7),
        ("close".to_string(), 1),
        ("read".to_string(), 3),
        ("openat".to_string(), 9),
        ("access".to_string(), 1),
    ];
    let top = top_syscalls(&counts);
    assert_eq!(
        top,
        vec![
            ("openat".to_string(), 9),
            ("brk".to_string(), 7),
            ("mmap".to_string(), 7),
            ("read".to_string(), 3),
            ("write".to_string(), 3),
        ]
    );
    assert_eq!(top.len(), TOP_SYSCALLS);
}

#[test]
fn ranking_ignores_input_order() {
    let a = vec![
        ("b".to_string(), 2),
        ("a".to_string(), 2),
        ("c".to_string(), 5),
        ("d".to_string(), 1),
        ("e".to_string(), 1),
        ("f".to_string(), 1),
    ];
    let mut b = a.clone();
    b.reverse();
    assert_eq!(top_syscalls(&a), top_syscalls(&b));
    assert_eq!(
        top_syscalls(&a),
        vec![
            ("c".to_string(), 5),
            ("a".to_string(), 2),
            ("b".to_string(), 2),
            ("d".to_string(), 1),
            ("e".to_string(), 1),
        ]
    );
}

#[test]
fn short_rankings_keep_everything() {
    assert!(top_syscalls(&Vec::new()).is_empty());
    let one = vec![("read".to_string(), 1)];
    assert_eq!(top_syscalls(&one), one);
    let names = vec![("ab".to_string(), 1), ("a".to_string(), 1), ("b".to_string(), 1)];
    assert_eq!(
        top_syscalls(&names),
        vec![("a".to_string(), 1), ("ab".to_string(), 1), ("b".to_string(), 1)]
    );
}

#[test]
fn ranking_of_a_tally() {
    let t = tally_trace(TRACE);
    let top = top_syscalls(&t.syscalls);
    assert_eq!(top[0], ("read".to_string(), 2));
    assert_eq!(top.len(), 5);
    assert_eq!(top[1], ("clock_nanosleep".to_string(), 1));
}

#[test]
fn every_named_line_counted_once() {
    let t = tally_trace(TRACE);
    let total: usize = t.syscalls.iter().map(|(_, n)| n).sum();
    let named = TRACE.lines().filter(|l| why::extract_syscall_name(l).is_some()).count();
    assert_eq!(total, named);
    assert_eq!(total, 7);
}

#[test]
fn line_order_does_not_change_the_tally() {
    let mut lines: Vec<&str> = TRACE.lines().collect();
    lines.reverse();
    let reversed = lines.join("\n");
    let a = tally_trace(TRACE);
    let b = tally_trace(&reversed);
    assert_eq!(a.counts, b.counts);
    let mut x = a.syscalls.clone();
    let mut y = b.syscalls.clone();
    x.sort();
    y.sort();
    assert_eq!(x, y);
    assert_eq!(top_syscalls(&a.syscalls), top_syscalls(&b.syscalls));
}

#[test]
fn tally_lists_only_calls_that_occur() {
    let t = tally_trace(TRACE);
    assert!(t.syscalls.iter().all(|(_, n)| *n > 0));
    let empty = tally_trace("");
    assert!(top_syscalls(&empty.syscalls).is_empty());
    let blank = tally_trace("\n\n+++ exited with 0 +++\n");
    assert!(blank.syscalls.is_empty());
}
