use why::{
    capitalize, category_color, dominant_span, footer_text, format_exit_code, header_text,
    highlight_top_category, insights_text, panel_title, raw_trace_title, report_lines,
    status_span, summary_text, syscalls_side_text, takeaway_text, top_syscalls_text, Category,
    CategoryRow, Color, StyledLine, TextStyle,
};

fn flat(lines: &[StyledLine]) -> Vec<Vec<(String, TextStyle)>> {
    lines
        .iter()
        .map(|l| l.spans.iter().map(|s| (s.text.clone(), s.style)).collect())
        .collect()
}

fn plain() -> TextStyle {
    TextStyle { fg: None, bold: false, dim: false }
}

fn fg(c: Color) -> TextStyle {
    TextStyle { fg: Some(c), bold: false, dim: false }
}

fn bold(c: Color) -> TextStyle {
    TextStyle { fg: Some(c), bold: true, dim: false }
}

fn s(t: &str, st: TextStyle) -> (String, TextStyle) {
    (t.to_string(), st)
}

fn rows() -> Vec<CategoryRow> {
    vec![
        CategoryRow { category: Category::File, count: 12, seconds: "0.000123".into(), percent: "0.0".into() },
        CategoryRow { category: Category::Network, count: 0, seconds: "0.000000".into(), percent: "0.0".into() },
        CategoryRow { category: Category::Process, count: 1, seconds: "0.000200".into(), percent: "0.0".into() },
        CategoryRow { category: Category::Wait, count: 1, seconds: "1.000100".into(), percent: "100.0".into() },
    ]
}

#[test]
fn capitalizes_first_character() {
    assert_eq!(capitalize("file"), "File");
    assert_eq!(capitalize("network"), "Network");
    assert_eq!(capitalize(""), "");
    assert_eq!(capitalize("ßx"), "SSx");
    assert_eq!(capitalize("Wait"), "Wait");
}

#[test]
fn colours() {
    assert_eq!(category_color("wait", false), Color::Red);
    assert_eq!(category_color("network", false), Color::Magenta);
    assert_eq!(category_color("file", false), Color::Blue);
    assert_eq!(category_color("process", false), Color::Yellow);
    assert_eq!(category_color("none", false), Color::White);
    assert_eq!(category_color("wait", true), Color::Reset);
}

#[test]
fn status_spans() {
    let t = status_span(0, true, 15, false);
    assert_eq!((t.text.as_str(), t.style), ("timed out after 15s", bold(Color::Red)));
    let t = status_span(0, false, 15, false);
    assert_eq!((t.text.as_str(), t.style), ("ok", fg(Color::Green)));
    let t = status_span(-1, false, 15, true);
    assert_eq!((t.text.as_str(), t.style), ("exit code -1", bold(Color::Reset)));
    let t = status_span(127, false, 15, false);
    assert_eq!(t.text, "exit code 127");
    let d = dominant_span("wait", false);
    assert_eq!((d.text.as_str(), d.style), ("Wait", bold(Color::Red)));
    let d = dominant_span("none", false);
    assert_eq!((d.text.as_str(), d.style), ("None", bold(Color::White)));
}

#[test]
fn header_panel() {
    let lines = header_text("sleep 1", 0, "1.00s", false, 15, "wait", false);
    assert_eq!(
        flat(&lines),
        vec![
            vec![s("Command: ", bold(Color::Cyan)), s("sleep 1", plain())],
            vec![
                s("Status: ", bold(Color::Cyan)),
                s("ok", fg(Color::Green)),
                s("   ", plain()),
                s("Dominant: ", bold(Color::Cyan)),
                s("Wait", bold(Color::Red)),
                s("   ", plain()),
                s("Wall time: ", bold(Color::Cyan)),
                s("1.00s", plain()),
            ],
        ]
    );
}

#[test]
fn takeaway_panel() {
    let lines = takeaway_text(0, "1.00s", None, false, 15, "wait", true);
    let f = flat(&lines);
    assert_eq!(f.len(), 7);
    assert_eq!(f[0], vec![s("Mostly waiting / sleeping", bold(Color::Reset))]);
    assert_eq!(f[1], vec![s("", plain())]);
    assert_eq!(f[2], vec![s("Usually sleep, blocking I/O, socket wait, or lock wait.", fg(Color::Reset))]);
    assert_eq!(f[6], vec![s("Trace: ", bold(Color::Reset)), s("temporary (auto-deleted)", fg(Color::Reset))]);
    let lines = takeaway_text(1, "2ms", Some("/tmp/why.trace"), false, 15, "none", false);
    let f = flat(&lines);
    assert_eq!(f[4], vec![s("Status: ", bold(Color::Cyan)), s("exit code 1", bold(Color::Red))]);
    assert_eq!(f[6][1], s("/tmp/why.trace", fg(Color::DarkGray)));
}

#[test]
fn summary_panel() {
    let lines = summary_text(&rows(), "wait", false);
    let f = flat(&lines);
    assert_eq!(f[0], vec![s("File       12 calls    0.000123s     0.0%", TextStyle { fg: None, bold: false, dim: true })]);
    assert_eq!(f[3], vec![s("Wait        1 calls    1.000100s   100.0%", bold(Color::Red))]);
    let lines = summary_text(&rows(), "wait", true);
    assert_eq!(flat(&lines)[0][0].1, plain());
    assert_eq!(
        flat(&lines)[0][0].0,
        format!("{:<8} {:>4} calls   {:>9.6}s   {:>5.1}%", "File", 12, 0.000123f64, 0.0f64)
    );
}

#[test]
fn insights_panel() {
    assert_eq!(flat(&insights_text(&[], false)), vec![vec![s("No extra insights yet.", plain())]]);
    let lines = insights_text(&["A".to_string(), "B".to_string()], false);
    assert_eq!(
        flat(&lines),
        vec![
            vec![s("\u{2022} ", fg(Color::Yellow)), s("A", plain())],
            vec![s("\u{2022} ", fg(Color::Yellow)), s("B", plain())],
        ]
    );
}

#[test]
fn top_syscalls_panel() {
    assert_eq!(flat(&top_syscalls_text(&[], false)), vec![vec![s("No syscall data yet.", plain())]]);
    let lines = top_syscalls_text(&[("read".to_string(), 12), ("openat".to_string(), 3)], false);
    assert_eq!(
        flat(&lines),
        vec![
            vec![s("1. ", fg(Color::DarkGray)), s("read          ", fg(Color::Magenta)), s("  12", fg(Color::DarkGray))],
            vec![s("2. ", fg(Color::DarkGray)), s("openat        ", fg(Color::Magenta)), s("   3", fg(Color::DarkGray))],
        ]
    );
}

#[test]
fn quick_stats_panel() {
    let lines = syscalls_side_text("file", "1.000433", &rows(), false);
    let f = flat(&lines);
    assert_eq!(f.len(), 11);
    assert_eq!(f[0], vec![s("Dominant: ", bold(Color::Cyan)), s("File", bold(Color::Blue))]);
    assert_eq!(f[2], vec![s("Mostly file work", fg(Color::Green))]);
    assert_eq!(f[4], vec![s("Total traced: ", bold(Color::Cyan)), s("1.000433s", plain())]);
    assert_eq!(f[6], vec![s("Category totals", bold(Color::Cyan))]);
    assert_eq!(f[7], vec![s("File: 12 calls, 0.000123s", plain())]);
    assert_eq!(f[10], vec![s("Wait: 1 calls, 1.000100s", plain())]);
}

#[test]
fn controls_panel() {
    let f = flat(&footer_text(0, false));
    assert_eq!(f.len(), 1);
    assert_eq!(f[0][0], s("tab", bold(Color::Cyan)));
    assert_eq!(f[0][4], s("\u{2190}/\u{2192}", bold(Color::Cyan)));
    assert_eq!(f[0][7], s(" quit", plain()));
    let f = flat(&footer_text(2, true));
    assert_eq!(f[0][7], s(" quit   j/k or \u{2191}/\u{2193} scroll   ctrl+d / ctrl+u jump", plain()));
}

#[test]
fn titles() {
    assert_eq!(panel_title("Summary"), " Summary ");
    assert_eq!(raw_trace_title(3, 120), " Raw trace  scroll:3  lines:120 ");
}

#[test]
fn report_pieces() {
    let e = format_exit_code(0);
    assert_eq!((e.text.as_str(), e.style), ("0", plain()));
    let e = format_exit_code(-9);
    assert_eq!((e.text.as_str(), e.style), ("-9", bold(Color::Red)));
    let h = highlight_top_category("network", "Network: 1 calls");
    assert_eq!((h.text.as_str(), h.style), ("Network: 1 calls", bold(Color::Magenta)));
    let h = highlight_top_category("none", "x");
    assert_eq!(h.style, plain());
}

#[test]
fn whole_report() {
    let top = vec![("read".to_string(), 2), ("close".to_string(), 1)];
    let insights = vec!["This command spent most of its traced time waiting.".to_string()];
    let lines = report_lines("sleep 1", 0, "1.00s", None, false, 15, &rows(), "wait", &insights, &top);
    let f = flat(&lines);
    let dim = TextStyle { fg: None, bold: false, dim: true };
    let cyan = fg(Color::BrightCyan);
    let title = bold(Color::BrightCyan);
    assert_eq!(
        f,
        vec![
            vec![s("=== why report ===", title)],
            vec![],
            vec![s("Command: sleep 1", plain())],
            vec![s("Exit code: ", plain()), s("0", plain())],
            vec![s("Wall time: 1.00s", plain())],
            vec![s("Trace file: ", plain()), s("temporary (auto-deleted)", dim)],
            vec![],
            vec![s("Summary", title)],
            vec![s("-------", cyan)],
            vec![s("File: 12 calls, 0.000123s, 0.0%", plain())],
            vec![s("Network: 0 calls, 0.000000s, 0.0%", plain())],
            vec![s("Process: 1 calls, 0.000200s, 0.0%", plain())],
            vec![s("Wait: 1 calls, 1.000100s, 100.0%", bold(Color::Red))],
            vec![],
            vec![s("Diagnosis", title)],
            vec![s("---------", cyan)],
            vec![s("This command mostly spent its traced time waiting or sleeping.", fg(Color::Green))],
            vec![],
            vec![s("Hint", title)],
            vec![s("----", cyan)],
            vec![s("This often means sleep, blocking I/O, waiting on sockets, or waiting on locks/events.", fg(Color::Yellow))],
            vec![],
            vec![s("Insights", title)],
            vec![s("--------", cyan)],
            vec![s("- This command spent most of its traced time waiting.", plain())],
            vec![],
            vec![s("Top syscalls", title)],
            vec![s("------------", cyan)],
            vec![s("read ", plain()), s("(2)", dim)],
            vec![s("close ", plain()), s("(1)", dim)],
        ]
    );
}

#[test]
fn report_without_syscalls_and_timed_out() {
    let lines = report_lines("x", 0, "15.00s", Some("/tmp/t"), true, 15, &rows(), "none", &[], &[]);
    let f = flat(&lines);
    assert_eq!(f[3], vec![s("Status: ", plain()), s("timed out after 15s", bold(Color::Red))]);
    assert_eq!(f[5][1].0, "/tmp/t");
    assert_eq!(f.len(), 24);
    assert_eq!(f[23], vec![s("--------", fg(Color::BrightCyan))]);
}

#[test]
fn rows_must_follow_report_order() {
    assert!(why::rows_in_report_order(&rows()));
    let mut r = rows();
    r.swap(0, 1);
    assert!(!why::rows_in_report_order(&r));
    let mut r = rows();
    r.pop();
    assert!(!why::rows_in_report_order(&r));
}
