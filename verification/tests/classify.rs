use why::{
    classify_line, diagnosis_for, duration_text, extract_syscall_name, hint_for, line_count,
    parse_category, short_diagnosis, short_hint, Category,
};

#[test]
fn classifies_file_calls() {
    assert_eq!(
        classify_line("12:00:00.000001 openat(AT_FDCWD, \"/etc/ld.so.cache\", O_RDONLY) = 3 <0.000010>"),
        Some("file")
    );
    assert_eq!(classify_line("newfstatat(3, \"\", {st_mode=S_IFREG}) = 0"), Some("file"));
    assert_eq!(classify_line("fstat(3, {st_mode=S_IFREG}) = 0"), Some("file"));
}

#[test]
fn classifies_network_calls() {
    assert_eq!(classify_line("socket(AF_INET, SOCK_STREAM, IPPROTO_TCP) = 3"), Some("network"));
    assert_eq!(classify_line("recvmsg(4, {msg_name=NULL}, 0) = 52"), Some("network"));
}

#[test]
fn classifies_process_calls() {
    assert_eq!(classify_line("execve(\"/bin/sleep\", [\"sleep\", \"1\"], 0x7ffd) = 0"), Some("process"));
    assert_eq!(classify_line("wait4(-1, [{WIFEXITED(s)}], 0, NULL) = 1234"), Some("process"));
}

#[test]
fn classifies_wait_calls() {
    assert_eq!(classify_line("clock_nanosleep(CLOCK_REALTIME, 0, {tv_sec=1}, 0x7ffd) = 0 <1.000102>"), Some("wait"));
    assert_eq!(classify_line("futex(0x7f, FUTEX_WAIT_PRIVATE, 2, NULL) = 0"), Some("wait"));
}

#[test]
fn unclassified_lines() {
    assert_eq!(classify_line("exit_group(0) = ?"), None);
    assert_eq!(classify_line("+++ exited with 0 +++"), None);
    assert_eq!(classify_line(""), None);
    assert_eq!(classify_line("open"), None);
    // Only the listed names followed by a parenthesis count.
    assert_eq!(classify_line("pread64(3, \"\", 784, 64) = 784"), None);
}

#[test]
fn file_calls_take_precedence() {
    // A wait call whose arguments mention a file call counts as file work.
    assert_eq!(classify_line("poll([{fd=3}], 1, -1) read(..."), Some("file"));
    assert_eq!(classify_line("connect(3, ...) then close(3)"), Some("file"));
}

#[test]
fn classified_names_are_known_categories() {
    for line in ["openat(", "socket(", "clone(", "poll("] {
        let name = classify_line(line).unwrap();
        assert!(parse_category(name).is_some());
        assert_ne!(diagnosis_for(name), diagnosis_for("none"));
    }
}

#[test]
fn extracts_syscall_names() {
    assert_eq!(
        extract_syscall_name("12:00:00.000001 openat(AT_FDCWD, \"x\", O_RDONLY) = 3 <0.000010>"),
        Some("openat".to_string())
    );
    assert_eq!(
        extract_syscall_name("4242  12:00:00.5 read(3, \"a(b\", 4) = 4"),
        Some("read".to_string())
    );
    assert_eq!(extract_syscall_name("brk(NULL)"), Some("brk".to_string()));
    assert_eq!(extract_syscall_name("a\tb  ("), Some("b".to_string()));
}

#[test]
fn lines_without_syscall_names() {
    assert_eq!(extract_syscall_name("+++ exited with 0 +++"), None);
    assert_eq!(extract_syscall_name("--- SIGCHLD {si_signo=SIGCHLD} ---"), None);
    assert_eq!(extract_syscall_name("no parenthesis here"), None);
    assert_eq!(extract_syscall_name("(starts with a parenthesis"), None);
    assert_eq!(extract_syscall_name("   \t (only spaces before"), None);
    assert_eq!(extract_syscall_name(""), None);
}

#[test]
fn exit_marker_needs_its_space() {
    assert_eq!(extract_syscall_name("+++x(1)"), Some("+++x".to_string()));
}

#[test]
fn extracts_duration_text() {
    assert_eq!(duration_text("read(3, \"\", 4) = 0 <0.000123>"), Some("0.000123".to_string()));
    assert_eq!(duration_text("a <1> b <2.5>"), Some("2.5".to_string()));
    assert_eq!(duration_text("<>"), Some(String::new()));
}

#[test]
fn lines_without_duration() {
    assert_eq!(duration_text("read(3) = 0"), None);
    assert_eq!(duration_text("only <open"), None);
    assert_eq!(duration_text("only close>"), None);
    assert_eq!(duration_text("x > y < z"), None);
}

#[test]
fn counts_lines_like_str_lines() {
    for text in ["", "a", "a\nb", "a\nb\n", "a\r\nb\r\n", "\n", "\n\n", "a\rb", "x\r"] {
        assert_eq!(line_count(text), text.lines().count(), "{:?}", text);
    }
}

#[test]
fn explanations_per_category() {
    assert_eq!(diagnosis_for("file"), "This command mostly spent its traced time touching files.");
    assert_eq!(diagnosis_for("wait"), "This command mostly spent its traced time waiting or sleeping.");
    assert_eq!(diagnosis_for("none"), "This command does not have enough classified data yet.");
    assert_eq!(hint_for("network"), "This often means connecting, sending, receiving, or other socket-heavy work.");
    assert_eq!(hint_for("process"), "This often means spawning child processes or waiting for them to finish.");
    assert_eq!(hint_for("File"), "Try another command with more visible activity.");
    assert_eq!(short_diagnosis("wait"), "Mostly waiting / sleeping");
    assert_eq!(short_diagnosis("none"), "This command does not have enough classified data yet.");
    assert_eq!(short_hint("file"), "Usually file reads, writes, metadata checks, or directory scanning.");
    assert_eq!(short_hint(""), "Try a command with more visible activity.");
}

#[test]
fn category_names_round_trip() {
    for c in [Category::File, Category::Network, Category::Process, Category::Wait] {
        assert_eq!(parse_category(c.name()), Some(c));
    }
    assert_eq!(parse_category("none"), None);
}
