//! The plain-text report printed after a run: command and status, a
//! summary per category, diagnosis, hint, insights and top system calls.
//!
//! Times are handed in already written out, as in the dashboard's panels.

use vstd::prelude::*;
use crate::category::{
    Category, category_named, diagnosis_for, diagnosis_text, hint_for, hint_text,
    lemma_category_named_label, opt_str_view, parse_category,
};
use crate::style::{
    SpanView, StyledLine, StyledSpan, TextStyle, add_span, add_str, blank_line, capitalize_chars,
    capitalized, category_tint, dim, dim_style, fg, fg_bold, fg_bold_style, fg_style, line_of,
    line_of_str, lines_view, new_line, plain, plain_style, push_line, spans_view, Color,
};
use crate::text::{
    chars_of, decimal, push_chars, push_decimal, push_signed_decimal, push_str, signed_decimal,
    str_is, string_from_chars,
};
use crate::views::{CategoryRow, in_report_order, trace_location};

verus! {

/// The exit code, plain when it is 0 and red and bold otherwise.
pub open spec fn exit_code_view(exit_code: i32) -> SpanView {
    (
        signed_decimal(exit_code as int),
        if exit_code == 0 {
            plain_style()
        } else {
            fg_bold_style(Color::Red)
        },
    )
}

/// The exit code as the report shows it (see `exit_code_view`).
pub fn format_exit_code(exit_code: i32) -> (r: StyledSpan)
    ensures
        (r.text@, r.style) == exit_code_view(exit_code),
{
    let mut t: Vec<char> = Vec::new();
    push_signed_decimal(&mut t, exit_code as i64);
    let style = if exit_code == 0 {
        plain()
    } else {
        fg_bold(Color::Red)
    };
    StyledSpan { text: string_from_chars(t.as_slice()), style }
}

/// How the dominant category's summary line is set off: in the category's
/// colour and bold; a name that is no category is left plain.
pub open spec fn highlight_style(c: Option<Category>) -> TextStyle {
    match c {
        Some(c) => fg_bold_style(category_tint(Some(c))),
        None => plain_style(),
    }
}

/// The dominant category's summary line, set off (see `highlight_style`).
pub fn highlight_top_category(category: &str, line: &str) -> (r: StyledSpan)
    ensures
        (r.text@, r.style) == (line@, highlight_style(category_named(category@))),
{
    let style = match parse_category(category) {
        Some(Category::Wait) => fg_bold(Color::Red),
        Some(Category::Network) => fg_bold(Color::Magenta),
        Some(Category::File) => fg_bold(Color::Blue),
        Some(Category::Process) => fg_bold(Color::Yellow),
        None => plain(),
    };
    StyledSpan { text: line.to_owned(), style }
}

/// `n` dashes.
pub open spec fn dashes(n: nat) -> Seq<char> {
    Seq::new(n, |i: int| '-')
}

/// A section heading: the title, then a rule of one dash per character of
/// it (the section titles are ASCII, where characters and bytes agree).
pub open spec fn section_view(title: &str) -> Seq<Seq<SpanView>> {
    seq![
        seq![(title@, fg_bold_style(Color::BrightCyan))],
        seq![(dashes(title@.len()), fg_style(Color::BrightCyan))],
    ]
}

fn push_section(lines: &mut Vec<StyledLine>, title: &str)
    ensures
        lines_view(final(lines)@) == lines_view(old(lines)@) + section_view(title),
{
    push_line(lines, line_of_str(title, fg_bold(Color::BrightCyan)));
    let n = chars_of(title).len();
    let mut rule: Vec<char> = Vec::new();
    let mut i: usize = 0;
    while i < n
        invariant
            i <= n,
            rule@ == dashes(i as nat),
        decreases n - i,
    {
        rule.push('-');
        i = i + 1;
        assert(rule@ =~= dashes(i as nat));
    }
    push_line(lines, line_of(string_from_chars(rule.as_slice()), fg(Color::BrightCyan)));
    assert(lines_view(lines@) =~= lines_view(old(lines)@) + section_view(title));
}

fn push_blank(lines: &mut Vec<StyledLine>)
    ensures
        lines_view(final(lines)@) == lines_view(old(lines)@) + seq![Seq::<SpanView>::empty()],
{
    push_line(lines, blank_line());
    assert(lines_view(lines@) =~= lines_view(old(lines)@) + seq![Seq::<SpanView>::empty()]);
}

/// A category's summary line: name, calls, seconds and share.
pub open spec fn report_row_text(row: &CategoryRow) -> Seq<char> {
    capitalized(row.category.label()) + ": "@ + decimal(row.count as nat) + " calls, "@ + row.seconds@
        + "s, "@ + row.percent@ + "%"@
}

/// The summary lines, the dominant category's set off.
pub open spec fn report_rows_view(rows: Seq<CategoryRow>, top_category: Seq<char>) -> Seq<
    Seq<SpanView>,
> {
    Seq::new(
        rows.len(),
        |i: int|
            seq![
                (
                    report_row_text(&rows[i]),
                    if rows[i].category.label() == top_category {
                        highlight_style(Some(rows[i].category))
                    } else {
                        plain_style()
                    },
                ),
            ],
    )
}

fn push_report_rows(lines: &mut Vec<StyledLine>, rows: &[CategoryRow], top_category: &str)
    ensures
        lines_view(final(lines)@) == lines_view(old(lines)@) + report_rows_view(
            rows@,
            top_category@,
        ),
{
    let ghost start = lines_view(lines@);
    let mut i: usize = 0;
    while i < rows.len()
        invariant
            i <= rows@.len(),
            lines_view(lines@) =~= start + report_rows_view(rows@, top_category@).take(i as int),
        decreases rows.len() - i,
    {
        let row = &rows[i];
        let name = chars_of(row.category.name());
        let mut t = capitalize_chars(name.as_slice());
        push_str(&mut t, ": ");
        push_decimal(&mut t, row.count as u128);
        push_str(&mut t, " calls, ");
        let secs = chars_of(row.seconds.as_str());
        push_chars(&mut t, secs.as_slice());
        push_str(&mut t, "s, ");
        let pct = chars_of(row.percent.as_str());
        push_chars(&mut t, pct.as_slice());
        push_str(&mut t, "%");
        assert(t@ =~= report_row_text(row));
        let text = string_from_chars(t.as_slice());
        let line = if str_is(row.category.name(), top_category) {
            proof {
                lemma_category_named_label(row.category);
            }
            let span = highlight_top_category(row.category.name(), text.as_str());
            line_of(span.text, span.style)
        } else {
            line_of(text, plain())
        };
        push_line(lines, line);
        assert(lines_view(lines@) =~= start + report_rows_view(rows@, top_category@).take(i + 1));
        i = i + 1;
    }
    assert(report_rows_view(rows@, top_category@).take(rows@.len() as int) =~= report_rows_view(
        rows@,
        top_category@,
    ));
}

/// The insight lines, each after a dash.
pub open spec fn report_insights_view(insights: Seq<String>) -> Seq<Seq<SpanView>> {
    Seq::new(insights.len(), |i: int| seq![("- "@ + insights[i]@, plain_style())])
}

fn push_report_insights(lines: &mut Vec<StyledLine>, insights: &[String])
    ensures
        lines_view(final(lines)@) == lines_view(old(lines)@) + report_insights_view(insights@),
{
    let ghost start = lines_view(lines@);
    let mut i: usize = 0;
    while i < insights.len()
        invariant
            i <= insights@.len(),
            lines_view(lines@) =~= start + report_insights_view(insights@).take(i as int),
        decreases insights.len() - i,
    {
        let mut t = chars_of("- ");
        let item = chars_of(insights[i].as_str());
        push_chars(&mut t, item.as_slice());
        push_line(lines, line_of(string_from_chars(t.as_slice()), plain()));
        assert(lines_view(lines@) =~= start + report_insights_view(insights@).take(i + 1));
        i = i + 1;
    }
    assert(report_insights_view(insights@).take(insights@.len() as int) =~= report_insights_view(
        insights@,
    ));
}

/// The top system call lines: each name, then its count dimmed in brackets.
pub open spec fn report_top_view(top: Seq<(String, usize)>) -> Seq<Seq<SpanView>> {
    Seq::new(
        top.len(),
        |i: int|
            seq![
                (top[i].0@ + " "@, plain_style()),
                ("("@ + decimal(top[i].1 as nat) + ")"@, dim_style()),
            ],
    )
}

fn push_report_top(lines: &mut Vec<StyledLine>, top: &[(String, usize)])
    ensures
        lines_view(final(lines)@) == lines_view(old(lines)@) + report_top_view(top@),
{
    let ghost start = lines_view(lines@);
    let mut i: usize = 0;
    while i < top.len()
        invariant
            i <= top@.len(),
            lines_view(lines@) =~= start + report_top_view(top@).take(i as int),
        decreases top.len() - i,
    {
        let mut line = new_line();
        let mut name = chars_of(top[i].0.as_str());
        push_str(&mut name, " ");
        add_span(&mut line, string_from_chars(name.as_slice()), plain());
        let mut count = chars_of("(");
        push_decimal(&mut count, top[i].1 as u128);
        push_str(&mut count, ")");
        add_span(&mut line, string_from_chars(count.as_slice()), dim());
        let ghost v = spans_view(line.spans@);
        push_line(lines, line);
        assert(v =~= report_top_view(top@)[i as int]);
        assert(lines_view(lines@) =~= start + report_top_view(top@).take(i + 1));
        i = i + 1;
    }
    assert(report_top_view(top@).take(top@.len() as int) =~= report_top_view(top@));
}

/// The status line: a time-out in red and bold, or the exit code.
pub open spec fn report_status_view(exit_code: i32, timed_out: bool, timeout_secs: u64) -> Seq<
    SpanView,
> {
    if timed_out {
        seq![
            ("Status: "@, plain_style()),
            ("timed out after "@ + decimal(timeout_secs as nat) + "s"@, fg_bold_style(Color::Red)),
        ]
    } else {
        seq![("Exit code: "@, plain_style()), exit_code_view(exit_code)]
    }
}

/// The head of the report: title, command, status, wall time and where
/// the trace is.
pub open spec fn report_head_view(
    command_text: Seq<char>,
    exit_code: i32,
    wall_time_text: Seq<char>,
    kept_trace_path: Option<Seq<char>>,
    timed_out: bool,
    timeout_secs: u64,
) -> Seq<Seq<SpanView>> {
    seq![
        seq![("=== why report ==="@, fg_bold_style(Color::BrightCyan))],
        Seq::<SpanView>::empty(),
        seq![("Command: "@ + command_text, plain_style())],
        report_status_view(exit_code, timed_out, timeout_secs),
        seq![("Wall time: "@ + wall_time_text, plain_style())],
        seq![
            ("Trace file: "@, plain_style()),
            (trace_location(kept_trace_path), dim_style()),
        ],
    ]
}

fn push_report_head(
    lines: &mut Vec<StyledLine>,
    command_text: &str,
    exit_code: i32,
    wall_time_text: &str,
    kept_trace_path: Option<&str>,
    timed_out: bool,
    timeout_secs: u64,
)
    ensures
        lines_view(final(lines)@) == lines_view(old(lines)@) + report_head_view(
            command_text@,
            exit_code,
            wall_time_text@,
            opt_str_view(kept_trace_path),
            timed_out,
            timeout_secs,
        ),
{
    let ghost expected = report_head_view(
        command_text@,
        exit_code,
        wall_time_text@,
        opt_str_view(kept_trace_path),
        timed_out,
        timeout_secs,
    );
    push_line(lines, line_of_str("=== why report ===", fg_bold(Color::BrightCyan)));
    push_line(lines, blank_line());
    let mut command = chars_of("Command: ");
    push_str(&mut command, command_text);
    push_line(lines, line_of(string_from_chars(command.as_slice()), plain()));
    let mut status = new_line();
    if timed_out {
        add_str(&mut status, "Status: ", plain());
        let mut t: Vec<char> = Vec::new();
        push_str(&mut t, "timed out after ");
        push_decimal(&mut t, timeout_secs as u128);
        push_str(&mut t, "s");
        add_span(&mut status, string_from_chars(t.as_slice()), fg_bold(Color::Red));
    } else {
        add_str(&mut status, "Exit code: ", plain());
        let code = format_exit_code(exit_code);
        add_span(&mut status, code.text, code.style);
    }
    let ghost v4 = spans_view(status.spans@);
    push_line(lines, status);
    let mut wall = chars_of("Wall time: ");
    push_str(&mut wall, wall_time_text);
    push_line(lines, line_of(string_from_chars(wall.as_slice()), plain()));
    let mut trace = new_line();
    add_str(&mut trace, "Trace file: ", plain());
    let location = match kept_trace_path {
        Some(p) => p,
        None => "temporary (auto-deleted)",
    };
    add_str(&mut trace, location, dim());
    let ghost v6 = spans_view(trace.spans@);
    push_line(lines, trace);
    assert(v4 =~= expected[3]);
    assert(v6 =~= expected[5]);
    assert(lines_view(lines@) =~= lines_view(old(lines)@) + expected);
}

/// The whole report, line by line.
pub open spec fn report_view(
    command_text: Seq<char>,
    exit_code: i32,
    wall_time_text: Seq<char>,
    kept_trace_path: Option<Seq<char>>,
    timed_out: bool,
    timeout_secs: u64,
    rows: Seq<CategoryRow>,
    top_category: Seq<char>,
    insights: Seq<String>,
    top_syscalls: Seq<(String, usize)>,
) -> Seq<Seq<SpanView>> {
    let blank = seq![Seq::<SpanView>::empty()];
    let c = category_named(top_category);
    let body = report_head_view(
        command_text,
        exit_code,
        wall_time_text,
        kept_trace_path,
        timed_out,
        timeout_secs,
    ) + blank + section_view("Summary") + report_rows_view(rows, top_category) + blank
        + section_view("Diagnosis") + seq![seq![(diagnosis_text(c), fg_style(Color::Green))]]
        + blank + section_view("Hint") + seq![seq![(hint_text(c), fg_style(Color::Yellow))]]
        + blank + section_view("Insights") + report_insights_view(insights);
    if top_syscalls.len() == 0 {
        body
    } else {
        body + blank + section_view("Top syscalls") + report_top_view(top_syscalls)
    }
}

/// The report printed after a run (see `report_view`).
pub fn report_lines(
    command_text: &str,
    exit_code: i32,
    wall_time_text: &str,
    kept_trace_path: Option<&str>,
    timed_out: bool,
    timeout_secs: u64,
    rows: &[CategoryRow],
    top_category: &str,
    insights: &[String],
    top_syscalls: &[(String, usize)],
) -> (r: Vec<StyledLine>)
    requires
        in_report_order(rows@),
    ensures
        lines_view(r@) == report_view(
            command_text@,
            exit_code,
            wall_time_text@,
            opt_str_view(kept_trace_path),
            timed_out,
            timeout_secs,
            rows@,
            top_category@,
            insights@,
            top_syscalls@,
        ),
{
    let mut lines: Vec<StyledLine> = Vec::new();
    assert(lines_view(lines@) =~= Seq::<Seq<SpanView>>::empty());
    push_report_head(
        &mut lines,
        command_text,
        exit_code,
        wall_time_text,
        kept_trace_path,
        timed_out,
        timeout_secs,
    );
    assert(Seq::<Seq<SpanView>>::empty() + report_head_view(
        command_text@,
        exit_code,
        wall_time_text@,
        opt_str_view(kept_trace_path),
        timed_out,
        timeout_secs,
    ) =~= report_head_view(
        command_text@,
        exit_code,
        wall_time_text@,
        opt_str_view(kept_trace_path),
        timed_out,
        timeout_secs,
    ));
    push_blank(&mut lines);
    push_section(&mut lines, "Summary");
    push_report_rows(&mut lines, rows, top_category);
    push_blank(&mut lines);
    push_section(&mut lines, "Diagnosis");
    push_line(&mut lines, line_of_str(diagnosis_for(top_category), fg(Color::Green)));
    push_blank(&mut lines);
    push_section(&mut lines, "Hint");
    push_line(&mut lines, line_of_str(hint_for(top_category), fg(Color::Yellow)));
    push_blank(&mut lines);
    push_section(&mut lines, "Insights");
    push_report_insights(&mut lines, insights);
    if top_syscalls.len() > 0 {
        push_blank(&mut lines);
        push_section(&mut lines, "Top syscalls");
        push_report_top(&mut lines, top_syscalls);
    }
    lines
}

} // verus!
