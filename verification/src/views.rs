//! The text of the dashboard's panels: header, takeaway, summary,
//! insights, top system calls, quick stats and controls.
//!
//! Times are handed in already written out (seconds with six decimals,
//! percentages with one, the wall time as the run measured it).

use vstd::prelude::*;
use crate::category::{
    Category, category_named, category_order, lemma_category_named_label, opt_str_view, short_diagnosis,
    short_diagnosis_text, short_hint, short_hint_text,
};
use crate::style::{
    SpanView, StyledLine, StyledSpan, TextStyle, accent, add_span, add_str, capitalize, capitalized,
    capitalize_chars, category_color, category_tint, danger, dim, dim_style, fg, fg_bold,
    fg_bold_style, fg_style, info, line_of, line_of_str, lines_view, muted, new_line, plain,
    plain_style, push_line, spans_view, success, tone, warning, Color,
};
use crate::text::{
    chars_of, decimal, pad_end, pad_start, push_chars, push_decimal, push_padded_end,
    push_padded_start, push_signed_decimal, push_str, signed_decimal, str_is, string_from_chars,
};
use crate::tui::RAW_TRACE_TAB;

verus! {

/// One category's line of figures: its calls, and its traced time already
/// written out.
#[derive(Debug)]
pub struct CategoryRow {
    pub category: Category,
    pub count: usize,
    /// The seconds spent, with six decimals.
    pub seconds: String,
    /// The share of the traced time, in percent with one decimal.
    pub percent: String,
}

/// One row per category, in the order in which reports list them.
pub open spec fn in_report_order(rows: Seq<CategoryRow>) -> bool {
    &&& rows.len() == 4
    &&& forall|i: int| 0 <= i < 4 ==> #[trigger] rows[i].category == category_order()[i]
}

/// Whether `rows` has one row per category, in report order.
pub fn rows_in_report_order(rows: &[CategoryRow]) -> (r: bool)
    ensures
        r == in_report_order(rows@),
{
    rows.len() == 4 && rows[0].category == Category::File && rows[1].category == Category::Network
        && rows[2].category == Category::Process && rows[3].category == Category::Wait
}

/// Headings: the accent colour in bold.
pub open spec fn heading_style(no_color: bool) -> TextStyle {
    fg_bold_style(tone(Color::Cyan, no_color))
}

fn heading(no_color: bool) -> (r: TextStyle)
    ensures
        r == heading_style(no_color),
{
    fg_bold(accent(no_color))
}

/// The run's status: a time-out, `ok`, or the exit code.
pub open spec fn status_view(
    exit_code: i32,
    timed_out: bool,
    timeout_secs: u64,
    no_color: bool,
) -> SpanView {
    if timed_out {
        (
            "timed out after "@ + decimal(timeout_secs as nat) + "s"@,
            fg_bold_style(tone(Color::Red, no_color)),
        )
    } else if exit_code == 0 {
        ("ok"@, fg_style(tone(Color::Green, no_color)))
    } else {
        ("exit code "@ + signed_decimal(exit_code as int), fg_bold_style(tone(Color::Red, no_color)))
    }
}

/// The run's status (see `status_view`).
pub fn status_span(exit_code: i32, timed_out: bool, timeout_secs: u64, no_color: bool) -> (r:
    StyledSpan)
    ensures
        (r.text@, r.style) == status_view(exit_code, timed_out, timeout_secs, no_color),
{
    if timed_out {
        let mut t: Vec<char> = Vec::new();
        push_str(&mut t, "timed out after ");
        push_decimal(&mut t, timeout_secs as u128);
        push_str(&mut t, "s");
        StyledSpan { text: string_from_chars(t.as_slice()), style: fg_bold(danger(no_color)) }
    } else if exit_code == 0 {
        StyledSpan { text: "ok".to_owned(), style: fg(success(no_color)) }
    } else {
        let mut t: Vec<char> = Vec::new();
        push_str(&mut t, "exit code ");
        push_signed_decimal(&mut t, exit_code as i64);
        StyledSpan { text: string_from_chars(t.as_slice()), style: fg_bold(danger(no_color)) }
    }
}

/// The dominant category, capitalised, in its colour and bold.
pub open spec fn dominant_view(category: Seq<char>, no_color: bool) -> SpanView {
    (
        capitalized(category),
        fg_bold_style(tone(category_tint(category_named(category)), no_color)),
    )
}

/// The dominant category (see `dominant_view`).
pub fn dominant_span(category: &str, no_color: bool) -> (r: StyledSpan)
    ensures
        (r.text@, r.style) == dominant_view(category@, no_color),
{
    StyledSpan { text: capitalize(category), style: fg_bold(category_color(category, no_color)) }
}

/// The header: the command, then its status, dominant category and wall time.
pub open spec fn header_view(
    command_text: Seq<char>,
    exit_code: i32,
    wall_time_text: Seq<char>,
    timed_out: bool,
    timeout_secs: u64,
    top_category: Seq<char>,
    no_color: bool,
) -> Seq<Seq<SpanView>> {
    seq![
        seq![("Command: "@, heading_style(no_color)), (command_text, plain_style())],
        seq![
            ("Status: "@, heading_style(no_color)),
            status_view(exit_code, timed_out, timeout_secs, no_color),
            ("   "@, plain_style()),
            ("Dominant: "@, heading_style(no_color)),
            dominant_view(top_category, no_color),
            ("   "@, plain_style()),
            ("Wall time: "@, heading_style(no_color)),
            (wall_time_text, plain_style()),
        ],
    ]
}

/// The header panel (see `header_view`).
pub fn header_text(
    command_text: &str,
    exit_code: i32,
    wall_time_text: &str,
    timed_out: bool,
    timeout_secs: u64,
    top_category: &str,
    no_color: bool,
) -> (r: Vec<StyledLine>)
    ensures
        lines_view(r@) == header_view(
            command_text@,
            exit_code,
            wall_time_text@,
            timed_out,
            timeout_secs,
            top_category@,
            no_color,
        ),
{
    let mut lines: Vec<StyledLine> = Vec::new();
    let mut first = new_line();
    add_str(&mut first, "Command: ", heading(no_color));
    add_str(&mut first, command_text, plain());
    let ghost v1 = spans_view(first.spans@);
    push_line(&mut lines, first);
    let mut second = new_line();
    add_str(&mut second, "Status: ", heading(no_color));
    let status = status_span(exit_code, timed_out, timeout_secs, no_color);
    add_span(&mut second, status.text, status.style);
    add_str(&mut second, "   ", plain());
    add_str(&mut second, "Dominant: ", heading(no_color));
    let dominant = dominant_span(top_category, no_color);
    add_span(&mut second, dominant.text, dominant.style);
    add_str(&mut second, "   ", plain());
    add_str(&mut second, "Wall time: ", heading(no_color));
    add_str(&mut second, wall_time_text, plain());
    let ghost v2 = spans_view(second.spans@);
    push_line(&mut lines, second);
    let ghost expected = header_view(
        command_text@,
        exit_code,
        wall_time_text@,
        timed_out,
        timeout_secs,
        top_category@,
        no_color,
    );
    assert(v1 =~= expected[0]);
    assert(v2 =~= expected[1]);
    assert(lines_view(lines@) =~= expected);
    lines
}

/// Where the trace is: its path, or a note that it was deleted.
pub open spec fn trace_location(kept_trace_path: Option<Seq<char>>) -> Seq<char> {
    match kept_trace_path {
        Some(p) => p,
        None => "temporary (auto-deleted)"@,
    }
}

/// The takeaway: short diagnosis and hint, then status, wall time and
/// where the trace is.
pub open spec fn takeaway_view(
    exit_code: i32,
    wall_time_text: Seq<char>,
    kept_trace_path: Option<Seq<char>>,
    timed_out: bool,
    timeout_secs: u64,
    top_category: Seq<char>,
    no_color: bool,
) -> Seq<Seq<SpanView>> {
    let c = category_named(top_category);
    seq![
        seq![(short_diagnosis_text(c), fg_bold_style(tone(Color::Green, no_color)))],
        seq![(""@, plain_style())],
        seq![(short_hint_text(c), fg_style(tone(Color::Yellow, no_color)))],
        seq![(""@, plain_style())],
        seq![
            ("Status: "@, heading_style(no_color)),
            status_view(exit_code, timed_out, timeout_secs, no_color),
        ],
        seq![("Wall time: "@, heading_style(no_color)), (wall_time_text, plain_style())],
        seq![
            ("Trace: "@, heading_style(no_color)),
            (trace_location(kept_trace_path), fg_style(tone(Color::DarkGray, no_color))),
        ],
    ]
}

/// The takeaway panel (see `takeaway_view`).
pub fn takeaway_text(
    exit_code: i32,
    wall_time_text: &str,
    kept_trace_path: Option<&str>,
    timed_out: bool,
    timeout_secs: u64,
    top_category: &str,
    no_color: bool,
) -> (r: Vec<StyledLine>)
    ensures
        lines_view(r@) == takeaway_view(
            exit_code,
            wall_time_text@,
            opt_str_view(kept_trace_path),
            timed_out,
            timeout_secs,
            top_category@,
            no_color,
        ),
{
    let ghost expected = takeaway_view(
        exit_code,
        wall_time_text@,
        opt_str_view(kept_trace_path),
        timed_out,
        timeout_secs,
        top_category@,
        no_color,
    );
    let mut lines: Vec<StyledLine> = Vec::new();
    push_line(&mut lines, line_of_str(short_diagnosis(top_category), fg_bold(success(no_color))));
    push_line(&mut lines, line_of_str("", plain()));
    push_line(&mut lines, line_of_str(short_hint(top_category), fg(warning(no_color))));
    push_line(&mut lines, line_of_str("", plain()));
    let mut status_line = new_line();
    add_str(&mut status_line, "Status: ", heading(no_color));
    let status = status_span(exit_code, timed_out, timeout_secs, no_color);
    add_span(&mut status_line, status.text, status.style);
    let ghost v5 = spans_view(status_line.spans@);
    push_line(&mut lines, status_line);
    let mut wall = new_line();
    add_str(&mut wall, "Wall time: ", heading(no_color));
    add_str(&mut wall, wall_time_text, plain());
    let ghost v6 = spans_view(wall.spans@);
    push_line(&mut lines, wall);
    let mut trace = new_line();
    add_str(&mut trace, "Trace: ", heading(no_color));
    let location = match kept_trace_path {
        Some(p) => p,
        None => "temporary (auto-deleted)",
    };
    add_str(&mut trace, location, fg(muted(no_color)));
    let ghost v7 = spans_view(trace.spans@);
    push_line(&mut lines, trace);
    assert(v5 =~= expected[4]);
    assert(v6 =~= expected[5]);
    assert(v7 =~= expected[6]);
    assert(lines_view(lines@) =~= expected);
    lines
}

/// The style of a summary line: the dominant category in its colour and
/// bold, the others dimmed (plain when colours are off).
pub open spec fn summary_style(c: Category, top_category: Seq<char>, no_color: bool) -> TextStyle {
    if c.label() == top_category {
        fg_bold_style(tone(category_tint(Some(c)), no_color))
    } else if no_color {
        plain_style()
    } else {
        dim_style()
    }
}

/// The summary line of one category: name, calls, seconds and share, in
/// columns.
pub open spec fn summary_line_text(row: &CategoryRow) -> Seq<char> {
    pad_end(capitalized(row.category.label()), 8) + seq![' '] + pad_start(
        decimal(row.count as nat),
        4,
    ) + " calls   "@ + pad_start(row.seconds@, 9) + "s   "@ + pad_start(
        row.percent@,
        5,
    ) + "%"@
}

/// The summary panel: one line per row.
pub open spec fn summary_view(rows: Seq<CategoryRow>, top_category: Seq<char>, no_color: bool) -> Seq<
    Seq<SpanView>,
> {
    Seq::new(
        rows.len(),
        |i: int|
            seq![
                (
                    summary_line_text(&rows[i]),
                    summary_style(rows[i].category, top_category, no_color),
                ),
            ],
    )
}

fn summary_line(row: &CategoryRow, top_category: &str, no_color: bool) -> (r: StyledLine)
    ensures
        spans_view(r.spans@) == seq![
            (summary_line_text(row), summary_style(row.category, top_category@, no_color)),
        ],
{
    let name = chars_of(row.category.name());
    let cap = capitalize_chars(name.as_slice());
    let mut t: Vec<char> = Vec::new();
    push_padded_end(&mut t, cap.as_slice(), 8);
    t.push(' ');
    let count = crate::text::decimal_chars(row.count as u128);
    push_padded_start(&mut t, count.as_slice(), 4);
    push_str(&mut t, " calls   ");
    let secs = chars_of(row.seconds.as_str());
    push_padded_start(&mut t, secs.as_slice(), 9);
    push_str(&mut t, "s   ");
    let pct = chars_of(row.percent.as_str());
    push_padded_start(&mut t, pct.as_slice(), 5);
    push_str(&mut t, "%");
    assert(t@ =~= summary_line_text(row));
    let style = if str_is(row.category.name(), top_category) {
        proof {
            lemma_category_named_label(row.category);
        }
        fg_bold(category_color(row.category.name(), no_color))
    } else if no_color {
        plain()
    } else {
        dim()
    };
    line_of(string_from_chars(t.as_slice()), style)
}

/// The summary panel (see `summary_view`).
pub fn summary_text(rows: &[CategoryRow], top_category: &str, no_color: bool) -> (r: Vec<
    StyledLine,
>)
    requires
        in_report_order(rows@),
    ensures
        lines_view(r@) == summary_view(rows@, top_category@, no_color),
{
    let mut lines: Vec<StyledLine> = Vec::new();
    let mut i: usize = 0;
    while i < rows.len()
        invariant
            i <= rows@.len(),
            lines_view(lines@) =~= summary_view(rows@.take(i as int), top_category@, no_color),
        decreases rows.len() - i,
    {
        let line = summary_line(&rows[i], top_category, no_color);
        push_line(&mut lines, line);
        assert(lines_view(lines@) =~= summary_view(rows@.take(i + 1), top_category@, no_color));
        i = i + 1;
    }
    assert(rows@.take(rows@.len() as int) =~= rows@);
    lines
}

/// The insights panel: a note when there are none, else one bulleted line
/// per insight.
pub open spec fn insights_view(insights: Seq<String>, no_color: bool) -> Seq<Seq<SpanView>> {
    if insights.len() == 0 {
        seq![seq![("No extra insights yet."@, plain_style())]]
    } else {
        Seq::new(
            insights.len(),
            |i: int|
                seq![
                    ("\u{2022} "@, fg_style(tone(Color::Yellow, no_color))),
                    (insights[i]@, plain_style()),
                ],
        )
    }
}

/// The insights panel (see `insights_view`).
pub fn insights_text(insights: &[String], no_color: bool) -> (r: Vec<StyledLine>)
    ensures
        lines_view(r@) == insights_view(insights@, no_color),
{
    let mut lines: Vec<StyledLine> = Vec::new();
    if insights.len() == 0 {
        push_line(&mut lines, line_of_str("No extra insights yet.", plain()));
        assert(lines_view(lines@) =~= insights_view(insights@, no_color));
        return lines;
    }
    let mut i: usize = 0;
    while i < insights.len()
        invariant
            i <= insights@.len(),
            insights@.len() > 0,
            lines_view(lines@) =~= insights_view(insights@, no_color).take(i as int),
        decreases insights.len() - i,
    {
        let mut line = new_line();
        add_str(&mut line, "\u{2022} ", fg(warning(no_color)));
        add_str(&mut line, insights[i].as_str(), plain());
        let ghost v = spans_view(line.spans@);
        push_line(&mut lines, line);
        assert(v =~= insights_view(insights@, no_color)[i as int]);
        assert(lines_view(lines@) =~= insights_view(insights@, no_color).take(i + 1));
        i = i + 1;
    }
    lines
}

/// The line of the `i`-th most frequent system call: its rank, its name in
/// a column of fourteen, and its count in a column of four.
pub open spec fn top_syscall_line(i: int, entry: (Seq<char>, usize), no_color: bool) -> Seq<
    SpanView,
> {
    seq![
        (decimal((i + 1) as nat) + ". "@, fg_style(tone(Color::DarkGray, no_color))),
        (pad_end(entry.0, 14), fg_style(tone(Color::Magenta, no_color))),
        (pad_start(decimal(entry.1 as nat), 4), fg_style(tone(Color::DarkGray, no_color))),
    ]
}

/// The top system calls panel: a note when there are none, else one line
/// per call.
pub open spec fn top_syscalls_view(top: Seq<(String, usize)>, no_color: bool) -> Seq<
    Seq<SpanView>,
> {
    if top.len() == 0 {
        seq![seq![("No syscall data yet."@, plain_style())]]
    } else {
        Seq::new(top.len(), |i: int| top_syscall_line(i, (top[i].0@, top[i].1), no_color))
    }
}

/// The top system calls panel (see `top_syscalls_view`).
pub fn top_syscalls_text(top: &[(String, usize)], no_color: bool) -> (r: Vec<StyledLine>)
    ensures
        lines_view(r@) == top_syscalls_view(top@, no_color),
{
    let mut lines: Vec<StyledLine> = Vec::new();
    if top.len() == 0 {
        push_line(&mut lines, line_of_str("No syscall data yet.", plain()));
        assert(lines_view(lines@) =~= top_syscalls_view(top@, no_color));
        return lines;
    }
    let mut i: usize = 0;
    while i < top.len()
        invariant
            i <= top@.len(),
            top@.len() > 0,
            lines_view(lines@) =~= top_syscalls_view(top@, no_color).take(i as int),
        decreases top.len() - i,
    {
        let mut line = new_line();
        let mut rank: Vec<char> = Vec::new();
        push_decimal(&mut rank, i as u128 + 1);
        push_str(&mut rank, ". ");
        add_span(&mut line, string_from_chars(rank.as_slice()), fg(muted(no_color)));
        let name = chars_of(top[i].0.as_str());
        let mut col: Vec<char> = Vec::new();
        push_padded_end(&mut col, name.as_slice(), 14);
        add_span(&mut line, string_from_chars(col.as_slice()), fg(info(no_color)));
        let count = crate::text::decimal_chars(top[i].1 as u128);
        let mut num: Vec<char> = Vec::new();
        push_padded_start(&mut num, count.as_slice(), 4);
        add_span(&mut line, string_from_chars(num.as_slice()), fg(muted(no_color)));
        let ghost v = spans_view(line.spans@);
        push_line(&mut lines, line);
        assert(v =~= top_syscalls_view(top@, no_color)[i as int]);
        assert(lines_view(lines@) =~= top_syscalls_view(top@, no_color).take(i + 1));
        i = i + 1;
    }
    lines
}

/// A category's line among the quick stats: name, calls and seconds.
pub open spec fn category_total_text(row: &CategoryRow) -> Seq<char> {
    capitalized(row.category.label()) + ": "@ + decimal(row.count as nat) + " calls, "@ + row.seconds@
        + "s"@
}

/// The quick stats panel: the dominant category and its short diagnosis,
/// the total traced time, then each category's calls and seconds.
pub open spec fn side_view(
    top_category: Seq<char>,
    total_seconds: Seq<char>,
    rows: Seq<CategoryRow>,
    no_color: bool,
) -> Seq<Seq<SpanView>> {
    seq![
        seq![("Dominant: "@, heading_style(no_color)), dominant_view(top_category, no_color)],
        seq![(""@, plain_style())],
        seq![
            (
                short_diagnosis_text(category_named(top_category)),
                fg_style(tone(Color::Green, no_color)),
            ),
        ],
        seq![(""@, plain_style())],
        seq![("Total traced: "@, heading_style(no_color)), (total_seconds + "s"@, plain_style())],
        seq![(""@, plain_style())],
        seq![("Category totals"@, heading_style(no_color))],
    ] + Seq::new(rows.len(), |i: int| seq![(category_total_text(&rows[i]), plain_style())])
}

/// The quick stats panel (see `side_view`); `total_seconds` is the total
/// traced time with six decimals.
pub fn syscalls_side_text(
    top_category: &str,
    total_seconds: &str,
    rows: &[CategoryRow],
    no_color: bool,
) -> (r: Vec<StyledLine>)
    requires
        in_report_order(rows@),
    ensures
        lines_view(r@) == side_view(top_category@, total_seconds@, rows@, no_color),
{
    let ghost expected = side_view(top_category@, total_seconds@, rows@, no_color);
    let mut lines: Vec<StyledLine> = Vec::new();
    let mut first = new_line();
    add_str(&mut first, "Dominant: ", heading(no_color));
    let dominant = dominant_span(top_category, no_color);
    add_span(&mut first, dominant.text, dominant.style);
    let ghost v1 = spans_view(first.spans@);
    push_line(&mut lines, first);
    push_line(&mut lines, line_of_str("", plain()));
    push_line(&mut lines, line_of_str(short_diagnosis(top_category), fg(success(no_color))));
    push_line(&mut lines, line_of_str("", plain()));
    let mut total = new_line();
    add_str(&mut total, "Total traced: ", heading(no_color));
    let mut t = chars_of(total_seconds);
    t.push('s');
    proof {
        reveal_strlit("s");
        assert(t@ =~= total_seconds@ + "s"@);
    }
    add_span(&mut total, string_from_chars(t.as_slice()), plain());
    let ghost v5 = spans_view(total.spans@);
    push_line(&mut lines, total);
    push_line(&mut lines, line_of_str("", plain()));
    push_line(&mut lines, line_of_str("Category totals", heading(no_color)));
    assert(v1 =~= expected[0]);
    assert(v5 =~= expected[4]);
    assert(lines_view(lines@) =~= expected.take(7));
    let mut i: usize = 0;
    while i < rows.len()
        invariant
            i <= rows@.len(),
            expected == side_view(top_category@, total_seconds@, rows@, no_color),
            expected.len() == 7 + rows@.len(),
            lines_view(lines@) =~= expected.take(7 + i),
        decreases rows.len() - i,
    {
        let row = &rows[i];
        let name = chars_of(row.category.name());
        let mut s = capitalize_chars(name.as_slice());
        push_str(&mut s, ": ");
        push_decimal(&mut s, row.count as u128);
        push_str(&mut s, " calls, ");
        let secs = chars_of(row.seconds.as_str());
        push_chars(&mut s, secs.as_slice());
        push_str(&mut s, "s");
        assert(s@ =~= category_total_text(row));
        push_line(&mut lines, line_of(string_from_chars(s.as_slice()), plain()));
        assert(expected[7 + i] == seq![(category_total_text(&rows@[i as int]), plain_style())]);
        assert(lines_view(lines@) =~= expected.take(7 + i + 1));
        i = i + 1;
    }
    assert(expected.take(7 + rows@.len() as int) =~= expected);
    lines
}

/// The extra controls shown while the raw trace is up.
pub open spec fn raw_trace_controls(active_tab: usize) -> Seq<char> {
    if active_tab == RAW_TRACE_TAB {
        "   j/k or \u{2191}/\u{2193} scroll   ctrl+d / ctrl+u jump"@
    } else {
        ""@
    }
}

/// The controls panel: the keys and what they do.
pub open spec fn footer_view(active_tab: usize, no_color: bool) -> Seq<Seq<SpanView>> {
    seq![
        seq![
            ("tab"@, heading_style(no_color)),
            (" next   "@, plain_style()),
            ("shift+tab"@, heading_style(no_color)),
            (" prev   "@, plain_style()),
            ("\u{2190}/\u{2192}"@, heading_style(no_color)),
            (" switch   "@, plain_style()),
            ("q"@, heading_style(no_color)),
            (" quit"@ + raw_trace_controls(active_tab), plain_style()),
        ],
    ]
}

/// The controls panel (see `footer_view`).
pub fn footer_text(active_tab: usize, no_color: bool) -> (r: Vec<StyledLine>)
    ensures
        lines_view(r@) == footer_view(active_tab, no_color),
{
    let raw_extra = if active_tab == RAW_TRACE_TAB {
        "   j/k or \u{2191}/\u{2193} scroll   ctrl+d / ctrl+u jump"
    } else {
        ""
    };
    let mut line = new_line();
    add_str(&mut line, "tab", heading(no_color));
    add_str(&mut line, " next   ", plain());
    add_str(&mut line, "shift+tab", heading(no_color));
    add_str(&mut line, " prev   ", plain());
    add_str(&mut line, "\u{2190}/\u{2192}", heading(no_color));
    add_str(&mut line, " switch   ", plain());
    add_str(&mut line, "q", heading(no_color));
    let mut last = chars_of(" quit");
    crate::text::push_str(&mut last, raw_extra);
    add_span(&mut line, string_from_chars(last.as_slice()), plain());
    let ghost v = spans_view(line.spans@);
    let mut lines: Vec<StyledLine> = Vec::new();
    push_line(&mut lines, line);
    assert(v =~= footer_view(active_tab, no_color)[0]);
    assert(lines_view(lines@) =~= footer_view(active_tab, no_color));
    lines
}

/// A panel's title: the name with a space on each side.
pub fn panel_title(title: &str) -> (r: String)
    ensures
        r@ == seq![' '] + title@ + seq![' '],
{
    let mut t: Vec<char> = Vec::new();
    t.push(' ');
    push_str(&mut t, title);
    t.push(' ');
    assert(t@ =~= seq![' '] + title@ + seq![' ']);
    string_from_chars(t.as_slice())
}

/// The raw trace panel's title: how far it is scrolled and how many lines
/// it has.
pub open spec fn raw_trace_title_text(scroll: u16, lines: usize) -> Seq<char> {
    " Raw trace  scroll:"@ + decimal(scroll as nat) + "  lines:"@ + decimal(lines as nat) + " "@
}

/// The raw trace panel's title (see `raw_trace_title_text`).
pub fn raw_trace_title(scroll: u16, lines: usize) -> (r: String)
    ensures
        r@ == raw_trace_title_text(scroll, lines),
{
    let mut t: Vec<char> = Vec::new();
    push_str(&mut t, " Raw trace  scroll:");
    push_decimal(&mut t, scroll as u128);
    push_str(&mut t, "  lines:");
    push_decimal(&mut t, lines as u128);
    push_str(&mut t, " ");
    assert(t@ =~= raw_trace_title_text(scroll, lines));
    string_from_chars(t.as_slice())
}

} // verus!
