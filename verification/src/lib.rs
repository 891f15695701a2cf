//! Verified core of `why`, which runs a Linux command under strace and
//! explains where its time went: classifying trace lines, tallying a
//! trace, ranking system calls, drawing conclusions, and deciding what the
//! report and the dashboard show.

pub mod category;
pub mod cli;
pub mod insights;
pub mod ranking;
pub mod report;
pub mod style;
pub mod text;
pub mod trace;
pub mod tui;
pub mod views;
pub mod watch;

pub use category::{
    classify_line, diagnosis_for, hint_for, parse_category, report_categories, short_diagnosis,
    short_hint, Category,
};
pub use cli::{command_text, Cli};
pub use insights::{build_insights, TimeShares};
pub use ranking::{top_syscalls, TOP_SYSCALLS};
pub use report::{format_exit_code, highlight_top_category, report_lines};
pub use style::{capitalize, category_color, Color, StyledLine, StyledSpan, TextStyle};
pub use trace::{
    duration_text, extract_syscall_name, line_count, tally_trace, CategoryCounts, TraceTally,
};
pub use tui::{KeyCode, KeyEvent, KeyKind, TuiState, TAB_COUNT};
pub use views::{
    dominant_span, footer_text, header_text, insights_text, panel_title, raw_trace_title,
    rows_in_report_order, status_span, summary_text, syscalls_side_text, takeaway_text,
    top_syscalls_text, CategoryRow,
};
pub use watch::{
    exit_code_from, kept_trace_file_name, watch_step, ChildPoll, TraceResult, WatchAction,
    POLL_INTERVAL_MS,
};
