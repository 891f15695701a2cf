//! The four kinds of system call activity, how a trace line is classified
//! into one, and the explanations shown for each.

use vstd::prelude::*;
use crate::text::{chars_of, contains_seq, contains_str, str_is};

verus! {

/// A kind of system call activity.
#[derive(Clone, Copy, Debug, PartialEq, Eq, Structural)]
pub enum Category {
    File,
    Network,
    Process,
    Wait,
}

/// The categories in the order in which reports list them.
pub open spec fn category_order() -> Seq<Category> {
    seq![Category::File, Category::Network, Category::Process, Category::Wait]
}

impl Category {
    /// The name by which a category is known in reports and lookups.
    pub open spec fn label(self) -> Seq<char> {
        match self {
            Category::File => "file"@,
            Category::Network => "network"@,
            Category::Process => "process"@,
            Category::Wait => "wait"@,
        }
    }

    /// The category's name.
    pub fn name(self) -> (r: &'static str)
        ensures
            r@ == self.label(),
    {
        match self {
            Category::File => "file",
            Category::Network => "network",
            Category::Process => "process",
            Category::Wait => "wait",
        }
    }
}

/// The category called `name`, if `name` is one of the four names.
pub open spec fn category_named(name: Seq<char>) -> Option<Category> {
    if name == "file"@ {
        Some(Category::File)
    } else if name == "network"@ {
        Some(Category::Network)
    } else if name == "process"@ {
        Some(Category::Process)
    } else if name == "wait"@ {
        Some(Category::Wait)
    } else {
        None
    }
}

/// The categories in the order in which reports list them.
pub fn report_categories() -> (r: Vec<Category>)
    ensures
        r@ == category_order(),
{
    let mut r: Vec<Category> = Vec::new();
    r.push(Category::File);
    r.push(Category::Network);
    r.push(Category::Process);
    r.push(Category::Wait);
    assert(r@ =~= category_order());
    r
}

/// The category whose name is `name`.
pub fn parse_category(name: &str) -> (r: Option<Category>)
    ensures
        r == category_named(name@),
{
    if str_is(name, "file") {
        Some(Category::File)
    } else if str_is(name, "network") {
        Some(Category::Network)
    } else if str_is(name, "process") {
        Some(Category::Process)
    } else if str_is(name, "wait") {
        Some(Category::Wait)
    } else {
        None
    }
}

// ---------------------------------------------------------------------------
// Classifying a trace line
// ---------------------------------------------------------------------------

/// A line that names a file-related system call.
pub open spec fn mentions_file_call(line: Seq<char>) -> bool {
    ||| contains_seq(line, "open("@)
    ||| contains_seq(line, "openat("@)
    ||| contains_seq(line, "read("@)
    ||| contains_seq(line, "write("@)
    ||| contains_seq(line, "close("@)
    ||| contains_seq(line, "stat("@)
    ||| contains_seq(line, "lstat("@)
    ||| contains_seq(line, "newfstatat("@)
    ||| contains_seq(line, "access("@)
}

/// A line that names a network-related system call.
pub open spec fn mentions_network_call(line: Seq<char>) -> bool {
    ||| contains_seq(line, "socket("@)
    ||| contains_seq(line, "connect("@)
    ||| contains_seq(line, "accept("@)
    ||| contains_seq(line, "sendto("@)
    ||| contains_seq(line, "recvfrom("@)
    ||| contains_seq(line, "sendmsg("@)
    ||| contains_seq(line, "recvmsg("@)
}

/// A line that names a process-related system call.
pub open spec fn mentions_process_call(line: Seq<char>) -> bool {
    ||| contains_seq(line, "execve("@)
    ||| contains_seq(line, "clone("@)
    ||| contains_seq(line, "fork("@)
    ||| contains_seq(line, "vfork("@)
    ||| contains_seq(line, "wait4("@)
}

/// A line that names a system call that waits, blocks or sleeps.
pub open spec fn mentions_wait_call(line: Seq<char>) -> bool {
    ||| contains_seq(line, "poll("@)
    ||| contains_seq(line, "ppoll("@)
    ||| contains_seq(line, "select("@)
    ||| contains_seq(line, "pselect6("@)
    ||| contains_seq(line, "epoll_wait("@)
    ||| contains_seq(line, "nanosleep("@)
    ||| contains_seq(line, "clock_nanosleep("@)
    ||| contains_seq(line, "futex("@)
}

/// The category of a trace line: the first of file, network, process and
/// wait whose system call names occur in it.
pub open spec fn classify(line: Seq<char>) -> Option<Category> {
    if mentions_file_call(line) {
        Some(Category::File)
    } else if mentions_network_call(line) {
        Some(Category::Network)
    } else if mentions_process_call(line) {
        Some(Category::Process)
    } else if mentions_wait_call(line) {
        Some(Category::Wait)
    } else {
        None
    }
}

/// The name of the category in `c`, if any.
pub open spec fn label_of(c: Option<Category>) -> Option<Seq<char>> {
    match c {
        Some(c) => Some(c.label()),
        None => None,
    }
}

/// The view of an optional text.
pub open spec fn opt_str_view(r: Option<&str>) -> Option<Seq<char>> {
    match r {
        Some(s) => Some(s@),
        None => None,
    }
}

/// The category of the line held in `line`.
pub fn classify_chars(line: &[char]) -> (r: Option<Category>)
    ensures
        r == classify(line@),
{
    if contains_str(line, "open(") || contains_str(line, "openat(") || contains_str(line, "read(")
        || contains_str(line, "write(") || contains_str(line, "close(") || contains_str(
        line,
        "stat(",
    ) || contains_str(line, "lstat(") || contains_str(line, "newfstatat(") || contains_str(
        line,
        "access(",
    ) {
        return Some(Category::File);
    }
    if contains_str(line, "socket(") || contains_str(line, "connect(") || contains_str(
        line,
        "accept(",
    ) || contains_str(line, "sendto(") || contains_str(line, "recvfrom(") || contains_str(
        line,
        "sendmsg(",
    ) || contains_str(line, "recvmsg(") {
        return Some(Category::Network);
    }
    if contains_str(line, "execve(") || contains_str(line, "clone(") || contains_str(line, "fork(")
        || contains_str(line, "vfork(") || contains_str(line, "wait4(") {
        return Some(Category::Process);
    }
    if contains_str(line, "poll(") || contains_str(line, "ppoll(") || contains_str(line, "select(")
        || contains_str(line, "pselect6(") || contains_str(line, "epoll_wait(") || contains_str(
        line,
        "nanosleep(",
    ) || contains_str(line, "clock_nanosleep(") || contains_str(line, "futex(") {
        return Some(Category::Wait);
    }
    None
}

/// The name of the category of a trace line (`"file"`, `"network"`,
/// `"process"` or `"wait"`), or `None` when it names none of the known calls.
pub fn classify_line(line: &str) -> (r: Option<&'static str>)
    ensures
        opt_str_view(r) == label_of(classify(line@)),
{
    let chars = chars_of(line);
    match classify_chars(chars.as_slice()) {
        Some(c) => Some(c.name()),
        None => None,
    }
}

// ---------------------------------------------------------------------------
// Explanations
// ---------------------------------------------------------------------------

/// The diagnosis sentence for the dominant category.
pub open spec fn diagnosis_text(c: Option<Category>) -> Seq<char> {
    match c {
        Some(Category::File) => "This command mostly spent its traced time touching files."@,
        Some(Category::Network) => "This command mostly spent its traced time doing network work."@,
        Some(
            Category::Process,
        ) => "This command mostly spent its traced time creating or waiting on processes."@,
        Some(Category::Wait) => "This command mostly spent its traced time waiting or sleeping."@,
        None => "This command does not have enough classified data yet."@,
    }
}

/// The hint sentence for the dominant category.
pub open spec fn hint_text(c: Option<Category>) -> Seq<char> {
    match c {
        Some(
            Category::File,
        ) => "This often means lots of file reads, writes, metadata checks, or directory scanning."@,
        Some(
            Category::Network,
        ) => "This often means connecting, sending, receiving, or other socket-heavy work."@,
        Some(
            Category::Process,
        ) => "This often means spawning child processes or waiting for them to finish."@,
        Some(
            Category::Wait,
        ) => "This often means sleep, blocking I/O, waiting on sockets, or waiting on locks/events."@,
        None => "Try another command with more visible activity."@,
    }
}

/// The short diagnosis shown in the terminal views; for a name that is no
/// category it is the full diagnosis.
pub open spec fn short_diagnosis_text(c: Option<Category>) -> Seq<char> {
    match c {
        Some(Category::File) => "Mostly file work"@,
        Some(Category::Network) => "Mostly network work"@,
        Some(Category::Process) => "Mostly process work"@,
        Some(Category::Wait) => "Mostly waiting / sleeping"@,
        None => diagnosis_text(None),
    }
}

/// The short hint shown in the terminal views.
pub open spec fn short_hint_text(c: Option<Category>) -> Seq<char> {
    match c {
        Some(
            Category::File,
        ) => "Usually file reads, writes, metadata checks, or directory scanning."@,
        Some(
            Category::Network,
        ) => "Usually connecting, sending, receiving, or socket-heavy work."@,
        Some(Category::Process) => "Usually spawning child processes or waiting for them."@,
        Some(Category::Wait) => "Usually sleep, blocking I/O, socket wait, or lock wait."@,
        None => "Try a command with more visible activity."@,
    }
}

fn diagnosis_of(c: Option<Category>) -> (r: &'static str)
    ensures
        r@ == diagnosis_text(c),
{
    match c {
        Some(Category::File) => "This command mostly spent its traced time touching files.",
        Some(Category::Network) => "This command mostly spent its traced time doing network work.",
        Some(
            Category::Process,
        ) => "This command mostly spent its traced time creating or waiting on processes.",
        Some(Category::Wait) => "This command mostly spent its traced time waiting or sleeping.",
        None => "This command does not have enough classified data yet.",
    }
}

/// What the command mostly spent its traced time on, for a category name.
pub fn diagnosis_for(category: &str) -> (r: &'static str)
    ensures
        r@ == diagnosis_text(category_named(category@)),
{
    diagnosis_of(parse_category(category))
}

/// What the dominant activity often means, for a category name.
pub fn hint_for(category: &str) -> (r: &'static str)
    ensures
        r@ == hint_text(category_named(category@)),
{
    match parse_category(category) {
        Some(
            Category::File,
        ) => "This often means lots of file reads, writes, metadata checks, or directory scanning.",
        Some(
            Category::Network,
        ) => "This often means connecting, sending, receiving, or other socket-heavy work.",
        Some(
            Category::Process,
        ) => "This often means spawning child processes or waiting for them to finish.",
        Some(
            Category::Wait,
        ) => "This often means sleep, blocking I/O, waiting on sockets, or waiting on locks/events.",
        None => "Try another command with more visible activity.",
    }
}

/// The short diagnosis of the terminal views, for a category name.
pub fn short_diagnosis(category: &str) -> (r: &'static str)
    ensures
        r@ == short_diagnosis_text(category_named(category@)),
{
    match parse_category(category) {
        Some(Category::File) => "Mostly file work",
        Some(Category::Network) => "Mostly network work",
        Some(Category::Process) => "Mostly process work",
        Some(Category::Wait) => "Mostly waiting / sleeping",
        None => diagnosis_of(None),
    }
}

/// The short hint of the terminal views, for a category name.
pub fn short_hint(category: &str) -> (r: &'static str)
    ensures
        r@ == short_hint_text(category_named(category@)),
{
    match parse_category(category) {
        Some(Category::File) => "Usually file reads, writes, metadata checks, or directory scanning.",
        Some(Category::Network) => "Usually connecting, sending, receiving, or socket-heavy work.",
        Some(Category::Process) => "Usually spawning child processes or waiting for them.",
        Some(Category::Wait) => "Usually sleep, blocking I/O, socket wait, or lock wait.",
        None => "Try a command with more visible activity.",
    }
}

// ---------------------------------------------------------------------------
// The classification table
// ---------------------------------------------------------------------------

/// A line naming any of open, openat, read, write, close, stat, lstat,
/// newfstatat or access (each followed by `(`) is file work.
pub proof fn lemma_file_calls_are_file_work(line: Seq<char>)
    ensures
        contains_seq(line, "open("@) ==> classify(line) == Some(Category::File),
        contains_seq(line, "openat("@) ==> classify(line) == Some(Category::File),
        contains_seq(line, "read("@) ==> classify(line) == Some(Category::File),
        contains_seq(line, "write("@) ==> classify(line) == Some(Category::File),
        contains_seq(line, "close("@) ==> classify(line) == Some(Category::File),
        contains_seq(line, "stat("@) ==> classify(line) == Some(Category::File),
        contains_seq(line, "lstat("@) ==> classify(line) == Some(Category::File),
        contains_seq(line, "newfstatat("@) ==> classify(line) == Some(Category::File),
        contains_seq(line, "access("@) ==> classify(line) == Some(Category::File),
{
}

/// A line naming socket, connect, accept, sendto, recvfrom, sendmsg or
/// recvmsg, and none of the file calls, is network work.
pub proof fn lemma_network_calls_are_network_work(line: Seq<char>)
    requires
        !contains_seq(line, "open("@),
        !contains_seq(line, "openat("@),
        !contains_seq(line, "read("@),
        !contains_seq(line, "write("@),
        !contains_seq(line, "close("@),
        !contains_seq(line, "stat("@),
        !contains_seq(line, "lstat("@),
        !contains_seq(line, "newfstatat("@),
        !contains_seq(line, "access("@),
    ensures
        contains_seq(line, "socket("@) ==> classify(line) == Some(Category::Network),
        contains_seq(line, "connect("@) ==> classify(line) == Some(Category::Network),
        contains_seq(line, "accept("@) ==> classify(line) == Some(Category::Network),
        contains_seq(line, "sendto("@) ==> classify(line) == Some(Category::Network),
        contains_seq(line, "recvfrom("@) ==> classify(line) == Some(Category::Network),
        contains_seq(line, "sendmsg("@) ==> classify(line) == Some(Category::Network),
        contains_seq(line, "recvmsg("@) ==> classify(line) == Some(Category::Network),
{
}

/// A line naming execve, clone, fork, vfork or wait4, and none of the file
/// or network calls, is process work.
pub proof fn lemma_process_calls_are_process_work(line: Seq<char>)
    requires
        !contains_seq(line, "open("@),
        !contains_seq(line, "openat("@),
        !contains_seq(line, "read("@),
        !contains_seq(line, "write("@),
        !contains_seq(line, "close("@),
        !contains_seq(line, "stat("@),
        !contains_seq(line, "lstat("@),
        !contains_seq(line, "newfstatat("@),
        !contains_seq(line, "access("@),
        !contains_seq(line, "socket("@),
        !contains_seq(line, "connect("@),
        !contains_seq(line, "accept("@),
        !contains_seq(line, "sendto("@),
        !contains_seq(line, "recvfrom("@),
        !contains_seq(line, "sendmsg("@),
        !contains_seq(line, "recvmsg("@),
    ensures
        contains_seq(line, "execve("@) ==> classify(line) == Some(Category::Process),
        contains_seq(line, "clone("@) ==> classify(line) == Some(Category::Process),
        contains_seq(line, "fork("@) ==> classify(line) == Some(Category::Process),
        contains_seq(line, "vfork("@) ==> classify(line) == Some(Category::Process),
        contains_seq(line, "wait4("@) ==> classify(line) == Some(Category::Process),
{
}

/// A line naming poll, ppoll, select, pselect6, epoll_wait, nanosleep,
/// clock_nanosleep or futex, and none of the file, network or process
/// calls, is waiting.
pub proof fn lemma_wait_calls_are_waiting(line: Seq<char>)
    requires
        !contains_seq(line, "open("@),
        !contains_seq(line, "openat("@),
        !contains_seq(line, "read("@),
        !contains_seq(line, "write("@),
        !contains_seq(line, "close("@),
        !contains_seq(line, "stat("@),
        !contains_seq(line, "lstat("@),
        !contains_seq(line, "newfstatat("@),
        !contains_seq(line, "access("@),
        !contains_seq(line, "socket("@),
        !contains_seq(line, "connect("@),
        !contains_seq(line, "accept("@),
        !contains_seq(line, "sendto("@),
        !contains_seq(line, "recvfrom("@),
        !contains_seq(line, "sendmsg("@),
        !contains_seq(line, "recvmsg("@),
        !contains_seq(line, "execve("@),
        !contains_seq(line, "clone("@),
        !contains_seq(line, "fork("@),
        !contains_seq(line, "vfork("@),
        !contains_seq(line, "wait4("@),
    ensures
        contains_seq(line, "poll("@) ==> classify(line) == Some(Category::Wait),
        contains_seq(line, "ppoll("@) ==> classify(line) == Some(Category::Wait),
        contains_seq(line, "select("@) ==> classify(line) == Some(Category::Wait),
        contains_seq(line, "pselect6("@) ==> classify(line) == Some(Category::Wait),
        contains_seq(line, "epoll_wait("@) ==> classify(line) == Some(Category::Wait),
        contains_seq(line, "nanosleep("@) ==> classify(line) == Some(Category::Wait),
        contains_seq(line, "clock_nanosleep("@) ==> classify(line) == Some(Category::Wait),
        contains_seq(line, "futex("@) ==> classify(line) == Some(Category::Wait),
{
}

/// A line is classified only on account of a listed call it names: file
/// work names a file call, network work a network call and none of the
/// file calls, and so on; a line naming none of them is not classified.
pub proof fn lemma_classified_only_by_listed_calls(line: Seq<char>)
    ensures
        classify(line) == Some(Category::File) ==> {
            ||| contains_seq(line, "open("@)
            ||| contains_seq(line, "openat("@)
            ||| contains_seq(line, "read("@)
            ||| contains_seq(line, "write("@)
            ||| contains_seq(line, "close("@)
            ||| contains_seq(line, "stat("@)
            ||| contains_seq(line, "lstat("@)
            ||| contains_seq(line, "newfstatat("@)
            ||| contains_seq(line, "access("@)
        },
        classify(line) == Some(Category::Network) ==> {
            ||| contains_seq(line, "socket("@)
            ||| contains_seq(line, "connect("@)
            ||| contains_seq(line, "accept("@)
            ||| contains_seq(line, "sendto("@)
            ||| contains_seq(line, "recvfrom("@)
            ||| contains_seq(line, "sendmsg("@)
            ||| contains_seq(line, "recvmsg("@)
        },
        classify(line) == Some(Category::Process) ==> {
            ||| contains_seq(line, "execve("@)
            ||| contains_seq(line, "clone("@)
            ||| contains_seq(line, "fork("@)
            ||| contains_seq(line, "vfork("@)
            ||| contains_seq(line, "wait4("@)
        },
        classify(line) == Some(Category::Wait) ==> {
            ||| contains_seq(line, "poll("@)
            ||| contains_seq(line, "ppoll("@)
            ||| contains_seq(line, "select("@)
            ||| contains_seq(line, "pselect6("@)
            ||| contains_seq(line, "epoll_wait("@)
            ||| contains_seq(line, "nanosleep("@)
            ||| contains_seq(line, "clock_nanosleep("@)
            ||| contains_seq(line, "futex("@)
        },
        classify(line) is None ==> !{
            ||| contains_seq(line, "open("@)
            ||| contains_seq(line, "openat("@)
            ||| contains_seq(line, "read("@)
            ||| contains_seq(line, "write("@)
            ||| contains_seq(line, "close("@)
            ||| contains_seq(line, "stat("@)
            ||| contains_seq(line, "lstat("@)
            ||| contains_seq(line, "newfstatat("@)
            ||| contains_seq(line, "access("@)
            ||| contains_seq(line, "socket("@)
            ||| contains_seq(line, "connect("@)
            ||| contains_seq(line, "accept("@)
            ||| contains_seq(line, "sendto("@)
            ||| contains_seq(line, "recvfrom("@)
            ||| contains_seq(line, "sendmsg("@)
            ||| contains_seq(line, "recvmsg("@)
            ||| contains_seq(line, "execve("@)
            ||| contains_seq(line, "clone("@)
            ||| contains_seq(line, "fork("@)
            ||| contains_seq(line, "vfork("@)
            ||| contains_seq(line, "wait4("@)
            ||| contains_seq(line, "poll("@)
            ||| contains_seq(line, "ppoll("@)
            ||| contains_seq(line, "select("@)
            ||| contains_seq(line, "pselect6("@)
            ||| contains_seq(line, "epoll_wait("@)
            ||| contains_seq(line, "nanosleep("@)
            ||| contains_seq(line, "clock_nanosleep("@)
            ||| contains_seq(line, "futex("@)
        },
{
}

// ---------------------------------------------------------------------------
// Laws
// ---------------------------------------------------------------------------

/// Every category is found again by its name: the names that
/// `classify_line` hands out are the ones the explanations recognise.
pub proof fn lemma_category_named_label(c: Category)
    ensures
        category_named(c.label()) == Some(c),
{
    reveal_strlit("file");
    reveal_strlit("network");
    reveal_strlit("process");
    reveal_strlit("wait");
    assert("file"@.len() == 4 && "file"@[0] == 'f');
    assert("network"@.len() == 7 && "network"@[0] == 'n');
    assert("process"@.len() == 7 && "process"@[0] == 'p');
    assert("wait"@.len() == 4 && "wait"@[0] == 'w');
}

/// The explanation given for each category name, and for any other name.
pub proof fn lemma_explanations_by_name(name: Seq<char>)
    ensures
        name == "file"@ ==> diagnosis_text(category_named(name)) == "This command mostly spent its traced time touching files."@,
        name == "network"@ ==> diagnosis_text(category_named(name)) == "This command mostly spent its traced time doing network work."@,
        name == "process"@ ==> diagnosis_text(category_named(name)) == "This command mostly spent its traced time creating or waiting on processes."@,
        name == "wait"@ ==> diagnosis_text(category_named(name)) == "This command mostly spent its traced time waiting or sleeping."@,
        name == "file"@ ==> hint_text(category_named(name)) == "This often means lots of file reads, writes, metadata checks, or directory scanning."@,
        name == "network"@ ==> hint_text(category_named(name)) == "This often means connecting, sending, receiving, or other socket-heavy work."@,
        name == "process"@ ==> hint_text(category_named(name)) == "This often means spawning child processes or waiting for them to finish."@,
        name == "wait"@ ==> hint_text(category_named(name)) == "This often means sleep, blocking I/O, waiting on sockets, or waiting on locks/events."@,
        name == "file"@ ==> short_diagnosis_text(category_named(name)) == "Mostly file work"@,
        name == "network"@ ==> short_diagnosis_text(category_named(name)) == "Mostly network work"@,
        name == "process"@ ==> short_diagnosis_text(category_named(name)) == "Mostly process work"@,
        name == "wait"@ ==> short_diagnosis_text(category_named(name)) == "Mostly waiting / sleeping"@,
        name == "file"@ ==> short_hint_text(category_named(name)) == "Usually file reads, writes, metadata checks, or directory scanning."@,
        name == "network"@ ==> short_hint_text(category_named(name)) == "Usually connecting, sending, receiving, or socket-heavy work."@,
        name == "process"@ ==> short_hint_text(category_named(name)) == "Usually spawning child processes or waiting for them."@,
        name == "wait"@ ==> short_hint_text(category_named(name)) == "Usually sleep, blocking I/O, socket wait, or lock wait."@,
        name != "file"@ && name != "network"@ && name != "process"@ && name != "wait"@ ==> diagnosis_text(category_named(name)) == "This command does not have enough classified data yet."@,
        name != "file"@ && name != "network"@ && name != "process"@ && name != "wait"@ ==> hint_text(category_named(name)) == "Try another command with more visible activity."@,
        name != "file"@ && name != "network"@ && name != "process"@ && name != "wait"@ ==> short_diagnosis_text(category_named(name)) == "This command does not have enough classified data yet."@,
        name != "file"@ && name != "network"@ && name != "process"@ && name != "wait"@ ==> short_hint_text(category_named(name)) == "Try a command with more visible activity."@,
{
    lemma_category_named_label(Category::File);
    lemma_category_named_label(Category::Network);
    lemma_category_named_label(Category::Process);
    lemma_category_named_label(Category::Wait);
}

/// A classified line gets the diagnosis and hint of its own category.
pub proof fn lemma_classified_line_explained(line: Seq<char>)
    requires
        classify(line) is Some,
    ensures
        category_named(classify(line).unwrap().label()) == classify(line),
        diagnosis_text(category_named(classify(line).unwrap().label())) == diagnosis_text(
            classify(line),
        ),
        hint_text(category_named(classify(line).unwrap().label())) == hint_text(classify(line)),
{
    lemma_category_named_label(classify(line).unwrap());
}

} // verus!
