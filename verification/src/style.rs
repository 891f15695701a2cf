//! Styled text: the colours and emphasis of the reports and dashboard, and
//! the capitalised category names they show.

use vstd::prelude::*;
use vstd::slice::slice_subrange;
use crate::category::{Category, category_named, parse_category};
use crate::text::{chars_of, push_chars, string_from_chars};

verus! {

/// A foreground colour; `Reset` is the terminal's own.
#[derive(Clone, Copy, Debug, PartialEq, Eq, Structural)]
pub enum Color {
    Reset,
    Cyan,
    Green,
    Yellow,
    Red,
    Magenta,
    DarkGray,
    Blue,
    White,
    BrightCyan,
}

/// How a piece of text is drawn.
#[derive(Clone, Copy, Debug, PartialEq, Eq, Structural)]
pub struct TextStyle {
    /// Foreground colour; `None` leaves it as it is.
    pub fg: Option<Color>,
    pub bold: bool,
    pub dim: bool,
}

/// A piece of text with its style.
#[derive(Debug)]
pub struct StyledSpan {
    pub text: String,
    pub style: TextStyle,
}

/// One line of styled text.
#[derive(Debug)]
pub struct StyledLine {
    pub spans: Vec<StyledSpan>,
}

/// The view of a styled piece of text.
pub type SpanView = (Seq<char>, TextStyle);

/// The view of the pieces of a line.
pub open spec fn spans_view(v: Seq<StyledSpan>) -> Seq<SpanView> {
    Seq::new(v.len(), |i: int| (v[i].text@, v[i].style))
}

/// The view of some lines.
pub open spec fn lines_view(v: Seq<StyledLine>) -> Seq<Seq<SpanView>> {
    Seq::new(v.len(), |i: int| spans_view(v[i].spans@))
}

/// No colour and no emphasis.
pub open spec fn plain_style() -> TextStyle {
    TextStyle { fg: None, bold: false, dim: false }
}

/// Coloured text.
pub open spec fn fg_style(c: Color) -> TextStyle {
    TextStyle { fg: Some(c), bold: false, dim: false }
}

/// Coloured bold text.
pub open spec fn fg_bold_style(c: Color) -> TextStyle {
    TextStyle { fg: Some(c), bold: true, dim: false }
}

/// Dimmed text.
pub open spec fn dim_style() -> TextStyle {
    TextStyle { fg: None, bold: false, dim: true }
}

/// No colour and no emphasis.
pub fn plain() -> (r: TextStyle)
    ensures
        r == plain_style(),
{
    TextStyle { fg: None, bold: false, dim: false }
}

/// Coloured text.
pub fn fg(c: Color) -> (r: TextStyle)
    ensures
        r == fg_style(c),
{
    TextStyle { fg: Some(c), bold: false, dim: false }
}

/// Coloured bold text.
pub fn fg_bold(c: Color) -> (r: TextStyle)
    ensures
        r == fg_bold_style(c),
{
    TextStyle { fg: Some(c), bold: true, dim: false }
}

/// Dimmed text.
pub fn dim() -> (r: TextStyle)
    ensures
        r == dim_style(),
{
    TextStyle { fg: None, bold: false, dim: true }
}

// ---------------------------------------------------------------------------
// The palette
// ---------------------------------------------------------------------------

/// `c`, or the terminal's own colour when colours are off.
pub open spec fn tone(c: Color, no_color: bool) -> Color {
    if no_color {
        Color::Reset
    } else {
        c
    }
}

/// Colour of headings and keys.
pub fn accent(no_color: bool) -> (r: Color)
    ensures
        r == tone(Color::Cyan, no_color),
{
    if no_color {
        Color::Reset
    } else {
        Color::Cyan
    }
}

/// Colour of good news.
pub fn success(no_color: bool) -> (r: Color)
    ensures
        r == tone(Color::Green, no_color),
{
    if no_color {
        Color::Reset
    } else {
        Color::Green
    }
}

/// Colour of hints and bullets.
pub fn warning(no_color: bool) -> (r: Color)
    ensures
        r == tone(Color::Yellow, no_color),
{
    if no_color {
        Color::Reset
    } else {
        Color::Yellow
    }
}

/// Colour of failures.
pub fn danger(no_color: bool) -> (r: Color)
    ensures
        r == tone(Color::Red, no_color),
{
    if no_color {
        Color::Reset
    } else {
        Color::Red
    }
}

/// Colour of system call names.
pub fn info(no_color: bool) -> (r: Color)
    ensures
        r == tone(Color::Magenta, no_color),
{
    if no_color {
        Color::Reset
    } else {
        Color::Magenta
    }
}

/// Colour of secondary text.
pub fn muted(no_color: bool) -> (r: Color)
    ensures
        r == tone(Color::DarkGray, no_color),
{
    if no_color {
        Color::Reset
    } else {
        Color::DarkGray
    }
}

/// The colour of a category: wait red, network magenta, file blue,
/// process yellow, anything else white.
pub open spec fn category_tint(c: Option<Category>) -> Color {
    match c {
        Some(Category::Wait) => Color::Red,
        Some(Category::Network) => Color::Magenta,
        Some(Category::File) => Color::Blue,
        Some(Category::Process) => Color::Yellow,
        None => Color::White,
    }
}

/// The colour in which a category name is shown.
pub fn category_color(category: &str, no_color: bool) -> (r: Color)
    ensures
        r == tone(category_tint(category_named(category@)), no_color),
{
    if no_color {
        Color::Reset
    } else {
        match parse_category(category) {
            Some(Category::Wait) => Color::Red,
            Some(Category::Network) => Color::Magenta,
            Some(Category::File) => Color::Blue,
            Some(Category::Process) => Color::Yellow,
            None => Color::White,
        }
    }
}

// ---------------------------------------------------------------------------
// Capitalising
// ---------------------------------------------------------------------------

/// The upper-case form of a character, as Unicode defines it (one or more
/// characters).
pub uninterp spec fn uppercase_of(c: char) -> Seq<char>;

/// Trusted: calls std's `char::to_uppercase` and collects the characters
/// it yields; the contract only names the result, the Unicode upper-case
/// mapping of `c`, which takes tables to state.
#[verifier::external_body]
fn char_uppercase(c: char) -> (r: String)
    ensures
        r@ == uppercase_of(c),
{
    c.to_uppercase().collect()
}

/// `s` with its first character in upper case.
pub open spec fn capitalized(s: Seq<char>) -> Seq<char> {
    if s.len() == 0 {
        seq![]
    } else {
        uppercase_of(s[0]) + s.drop_first()
    }
}

/// `s` with its first character in upper case (see `capitalized`).
pub fn capitalize_chars(s: &[char]) -> (r: Vec<char>)
    ensures
        r@ == capitalized(s@),
{
    if s.len() == 0 {
        return Vec::new();
    }
    let up = char_uppercase(s[0]);
    let mut out = chars_of(up.as_str());
    push_chars(&mut out, slice_subrange(s, 1, s.len()));
    assert(out@ =~= capitalized(s@));
    out
}

/// `s` with its first character in upper case (see `capitalized`).
pub fn capitalize(s: &str) -> (r: String)
    ensures
        r@ == capitalized(s@),
{
    let cs = chars_of(s);
    let out = capitalize_chars(cs.as_slice());
    string_from_chars(out.as_slice())
}

// ---------------------------------------------------------------------------
// Building styled lines
// ---------------------------------------------------------------------------

/// An empty line.
pub fn new_line() -> (r: StyledLine)
    ensures
        spans_view(r.spans@) == Seq::<SpanView>::empty(),
{
    let r = StyledLine { spans: Vec::new() };
    assert(spans_view(r.spans@) =~= Seq::<SpanView>::empty());
    r
}

/// Appends a piece of text.
pub fn add_span(line: &mut StyledLine, text: String, style: TextStyle)
    ensures
        spans_view(final(line).spans@) == spans_view(old(line).spans@).push((text@, style)),
{
    let ghost t = text@;
    line.spans.push(StyledSpan { text, style });
    assert(spans_view(line.spans@) =~= spans_view(old(line).spans@).push((t, style)));
}

/// Appends a piece of fixed text.
pub fn add_str(line: &mut StyledLine, text: &str, style: TextStyle)
    ensures
        spans_view(final(line).spans@) == spans_view(old(line).spans@).push((text@, style)),
{
    add_span(line, text.to_owned(), style);
}

/// A line of one piece of text.
pub fn line_of(text: String, style: TextStyle) -> (r: StyledLine)
    ensures
        spans_view(r.spans@) == seq![(text@, style)],
{
    let mut l = new_line();
    add_span(&mut l, text, style);
    assert(spans_view(l.spans@) =~= seq![(text@, style)]);
    l
}

/// A line of one piece of fixed text.
pub fn line_of_str(text: &str, style: TextStyle) -> (r: StyledLine)
    ensures
        spans_view(r.spans@) == seq![(text@, style)],
{
    line_of(text.to_owned(), style)
}

/// A line with nothing on it.
pub fn blank_line() -> (r: StyledLine)
    ensures
        spans_view(r.spans@) == Seq::<SpanView>::empty(),
{
    new_line()
}

/// Appends a line.
pub fn push_line(lines: &mut Vec<StyledLine>, line: StyledLine)
    ensures
        lines_view(final(lines)@) == lines_view(old(lines)@).push(spans_view(line.spans@)),
{
    let ghost v = spans_view(line.spans@);
    lines.push(line);
    assert(lines_view(lines@) =~= lines_view(old(lines)@).push(v));
}

} // verus!
