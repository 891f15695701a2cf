use why::{command_text, exit_code_from, kept_trace_file_name, watch_step, ChildPoll, Cli, WatchAction, POLL_INTERVAL_MS};

fn cli(words: &[&str]) -> Cli {
    Cli {
        timeout: 15,
        tui: false,
        keep_trace: false,
        no_color: false,
        command: words.iter().map(|w| w.to_string()).collect(),
    }
}

#[test]
fn program_and_arguments() {
    let c = cli(&["ls", "-la", "/tmp"]);
    assert_eq!(c.program(), "ls");
    assert_eq!(c.program_args(), &["-la".to_string(), "/tmp".to_string()][..]);
    let c = cli(&["true"]);
    assert_eq!(c.program(), "true");
    assert!(c.program_args().is_empty());
}

#[test]
fn command_as_shown() {
    let c = cli(&["sleep", "1"]);
    assert_eq!(command_text(c.program(), c.program_args()), "sleep 1");
    let c = cli(&["ls", "-l", "a b"]);
    assert_eq!(command_text(c.program(), c.program_args()), "ls -l a b");
    assert_eq!(command_text("true", &[]), "true");
}

#[test]
fn exit_codes() {
    assert_eq!(exit_code_from(Some(0)), 0);
    assert_eq!(exit_code_from(Some(3)), 3);
    assert_eq!(exit_code_from(None), -1);
}

#[test]
fn watching_the_command() {
    assert_eq!(watch_step(ChildPoll::Exited(Some(2)), 99_000_000_000, 15), WatchAction::Finish(2));
    assert_eq!(watch_step(ChildPoll::Exited(None), 0, 15), WatchAction::Finish(-1));
    assert_eq!(watch_step(ChildPoll::Running, 14_999_999_999, 15), WatchAction::Wait);
    assert_eq!(watch_step(ChildPoll::Running, 15_000_000_000, 15), WatchAction::StopForTimeout);
    assert_eq!(watch_step(ChildPoll::Running, 0, 0), WatchAction::StopForTimeout);
    assert_eq!(watch_step(ChildPoll::Failed, 0, 15), WatchAction::Fail);
    assert_eq!(POLL_INTERVAL_MS, 50);
}

#[test]
fn long_timeouts_do_not_overflow() {
    assert_eq!(watch_step(ChildPoll::Running, u128::MAX, u64::MAX), WatchAction::StopForTimeout);
    assert_eq!(watch_step(ChildPoll::Running, 1, u64::MAX), WatchAction::Wait);
}

#[test]
fn kept_trace_names() {
    assert_eq!(kept_trace_file_name(4242, 1700000000123), "why-4242-1700000000123.trace");
    assert_eq!(kept_trace_file_name(0, 0), "why-0-0.trace");
}
