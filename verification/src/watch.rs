//! Running the command under strace: when to stop waiting for it, what it
//! exited with, and where a kept trace goes.

use vstd::prelude::*;
use std::path::PathBuf;
use std::time::Duration;
use crate::text::{decimal, push_decimal, push_str, string_from_chars};

verus! {

/// A path, as std's `PathBuf` holds it; the library only carries it along.
#[verifier::external_type_specification]
#[verifier::external_body]
pub struct ExPathBuf(PathBuf);

/// What running a traced command gave.
#[derive(Debug)]
pub struct TraceResult {
    /// The exit code of the traced command, -1 when it had none.
    pub exit_code: i32,
    /// How long the run took.
    pub wall_time: Duration,
    /// The trace that strace wrote.
    pub trace_contents: String,
    /// The run was stopped because it took too long.
    pub timed_out: bool,
    /// Where the trace was kept, when it was kept.
    pub kept_trace_path: Option<PathBuf>,
}

/// How long to wait between two looks at the traced command, in milliseconds.
pub const POLL_INTERVAL_MS: u64 = 50;

/// What a look at the traced command found.
#[derive(Clone, Copy, Debug, PartialEq, Eq, Structural)]
pub enum ChildPoll {
    /// It has exited, with this exit code if it had one.
    Exited(Option<i32>),
    /// It is still running.
    Running,
    /// It could not be looked at.
    Failed,
}

/// What to do next with the traced command.
#[derive(Clone, Copy, Debug, PartialEq, Eq, Structural)]
pub enum WatchAction {
    /// It is done; this is its exit code.
    Finish(i32),
    /// It ran out of time: stop it, wait for it, and report a time-out.
    StopForTimeout,
    /// Sleep `POLL_INTERVAL_MS` and look again.
    Wait,
    /// Give up with an error.
    Fail,
}

/// The exit code reported for an exit status: its code, or -1 when it has
/// none (killed by a signal).
pub open spec fn exit_code_spec(code: Option<i32>) -> i32 {
    match code {
        Some(c) => c,
        None => -1i32,
    }
}

/// The exit code reported for an exit status (see `exit_code_spec`).
pub fn exit_code_from(code: Option<i32>) -> (r: i32)
    ensures
        r == exit_code_spec(code),
{
    match code {
        Some(c) => c,
        None => -1,
    }
}

/// The command has had its time: `elapsed_nanos` has reached `timeout_secs`.
pub open spec fn timed_out_at(elapsed_nanos: u128, timeout_secs: u64) -> bool {
    elapsed_nanos >= timeout_secs * 1_000_000_000
}

/// What to do after a look at the traced command: finish when it exited,
/// stop it once the time is up, otherwise wait; fail when it could not be
/// looked at.
pub open spec fn watch_spec(poll: ChildPoll, elapsed_nanos: u128, timeout_secs: u64) -> WatchAction {
    match poll {
        ChildPoll::Exited(code) => WatchAction::Finish(exit_code_spec(code)),
        ChildPoll::Running => if timed_out_at(elapsed_nanos, timeout_secs) {
            WatchAction::StopForTimeout
        } else {
            WatchAction::Wait
        },
        ChildPoll::Failed => WatchAction::Fail,
    }
}

/// Decides what to do after a look at the traced command (see `watch_spec`).
pub fn watch_step(poll: ChildPoll, elapsed_nanos: u128, timeout_secs: u64) -> (r: WatchAction)
    ensures
        r == watch_spec(poll, elapsed_nanos, timeout_secs),
{
    match poll {
        ChildPoll::Exited(code) => WatchAction::Finish(exit_code_from(code)),
        ChildPoll::Running => {
            let limit: u128 = (timeout_secs as u128) * 1_000_000_000;
            if elapsed_nanos >= limit {
                WatchAction::StopForTimeout
            } else {
                WatchAction::Wait
            }
        },
        ChildPoll::Failed => WatchAction::Fail,
    }
}

/// The name of a kept trace file: `why-<process id>-<milliseconds>.trace`.
pub open spec fn kept_trace_name(pid: u32, timestamp_ms: u128) -> Seq<char> {
    "why-"@ + decimal(pid as nat) + seq!['-'] + decimal(timestamp_ms as nat) + ".trace"@
}

/// The file name under which a trace is kept (see `kept_trace_name`).
pub fn kept_trace_file_name(pid: u32, timestamp_ms: u128) -> (r: String)
    ensures
        r@ == kept_trace_name(pid, timestamp_ms),
{
    let mut out: Vec<char> = Vec::new();
    push_str(&mut out, "why-");
    push_decimal(&mut out, pid as u128);
    out.push('-');
    push_decimal(&mut out, timestamp_ms);
    push_str(&mut out, ".trace");
    assert(out@ =~= kept_trace_name(pid, timestamp_ms));
    string_from_chars(out.as_slice())
}

// ---------------------------------------------------------------------------
// Laws
// ---------------------------------------------------------------------------

/// A command that has exited is never stopped, however long it took.
pub proof fn lemma_exited_is_finished(code: Option<i32>, elapsed_nanos: u128, timeout_secs: u64)
    ensures
        watch_spec(ChildPoll::Exited(code), elapsed_nanos, timeout_secs) == WatchAction::Finish(
            exit_code_spec(code),
        ),
{
}

/// Once the time is up it stays up: a running command that was due to be
/// stopped is still due later.
pub proof fn lemma_timeout_monotone(earlier: u128, later: u128, timeout_secs: u64)
    requires
        earlier <= later,
        watch_spec(ChildPoll::Running, earlier, timeout_secs) == WatchAction::StopForTimeout,
    ensures
        watch_spec(ChildPoll::Running, later, timeout_secs) == WatchAction::StopForTimeout,
{
}

/// A running command is waited for until exactly its own timeout has
/// passed, and stopped from then on; a command that exited finishes with
/// its exit code, or -1 when it has none; a failed look fails.
pub proof fn lemma_watch_decisions(elapsed_nanos: u128, timeout_secs: u64, code: i32)
    ensures
        elapsed_nanos < timeout_secs * 1_000_000_000 ==> watch_spec(
            ChildPoll::Running,
            elapsed_nanos,
            timeout_secs,
        ) == WatchAction::Wait,
        elapsed_nanos >= timeout_secs * 1_000_000_000 ==> watch_spec(
            ChildPoll::Running,
            elapsed_nanos,
            timeout_secs,
        ) == WatchAction::StopForTimeout,
        watch_spec(ChildPoll::Exited(Some(code)), elapsed_nanos, timeout_secs) == WatchAction::Finish(
            code,
        ),
        watch_spec(ChildPoll::Exited(None), elapsed_nanos, timeout_secs) == WatchAction::Finish(-1i32),
        watch_spec(ChildPoll::Failed, elapsed_nanos, timeout_secs) == WatchAction::Fail,
{
}

} // verus!
