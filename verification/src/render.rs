//! Shared presentation helpers: the render style, the plain-text labels both
//! renderers use, the risk colour palette and middle truncation.
//!
//! The renderers are pure functions that take a [`RenderStyle`] and return a
//! `String`; whether colour is wanted is decided once by the front end and
//! passed in.

use vstd::prelude::*;

use crate::process::{ProcessCategory, RiskLevel};
use crate::text::{chars_of, push_range};

verus! {

/// How output should be styled, decided once by the front end.
#[derive(Debug, Clone, Copy)]
pub struct RenderStyle {
    /// Emit ANSI colour and box-drawn borders when true; plain ASCII when
    /// false.
    pub color: bool,
    /// The terminal width to fit into, or `None` when output is not a
    /// terminal. Only the rich table uses it, to truncate the PATH column.
    pub max_width: Option<usize>,
}

impl RenderStyle {
    /// The style for standard output, from what the front end found out
    /// about it: colour only on a terminal, and only when neither the
    /// `--no-color` flag nor a `NO_COLOR` variable asks otherwise
    /// (<https://no-color.org>); the terminal's width only on a terminal.
    /// Piping or redirecting therefore degrades to plain ASCII.
    pub fn for_output(
        is_terminal: bool,
        no_color_flag: bool,
        no_color_variable_set: bool,
        terminal_width: Option<u16>,
    ) -> (style: Self)
        ensures
            style.color == (is_terminal && !no_color_flag && !no_color_variable_set),
            style.max_width == (if is_terminal {
                match terminal_width {
                    Some(width) => Some(width as usize),
                    None => None,
                }
            } else {
                None
            }),
    {
        let color = is_terminal && !no_color_flag && !no_color_variable_set;
        let max_width = if is_terminal {
            match terminal_width {
                Some(width) => Some(width as usize),
                None => None,
            }
        } else {
            None
        };
        RenderStyle { color, max_width }
    }

    /// Plain, unlimited-width style.
    pub fn plain() -> (style: Self)
        ensures
            !style.color,
            style.max_width is None,
    {
        RenderStyle { color: false, max_width: None }
    }
}

/// The plain-text label for a risk level.
pub open spec fn risk_label_text(risk: RiskLevel) -> Seq<char> {
    match risk {
        RiskLevel::Trusted => "trusted"@,
        RiskLevel::Review => "review"@,
        RiskLevel::Suspicious => "suspicious"@,
    }
}

/// The plain-text label for a risk level, shown in both the table and
/// `explain`.
pub fn risk_label(risk: RiskLevel) -> (label: &'static str)
    ensures
        label@ == risk_label_text(risk),
{
    match risk {
        RiskLevel::Trusted => "trusted",
        RiskLevel::Review => "review",
        RiskLevel::Suspicious => "suspicious",
    }
}

/// The plain-text label for a process category.
pub open spec fn category_label_text(category: ProcessCategory) -> Seq<char> {
    match category {
        ProcessCategory::CoreWindows => "core-windows"@,
        ProcessCategory::Driver => "driver"@,
        ProcessCategory::ThirdPartyKnown => "third-party-known"@,
        ProcessCategory::Unknown => "unknown"@,
    }
}

/// The plain-text label for a process category.
pub fn category_label(category: ProcessCategory) -> (label: &'static str)
    ensures
        label@ == category_label_text(category),
{
    match category {
        ProcessCategory::CoreWindows => "core-windows",
        ProcessCategory::Driver => "driver",
        ProcessCategory::ThirdPartyKnown => "third-party-known",
        ProcessCategory::Unknown => "unknown",
    }
}

/// The styles of the risk palette: green (trusted), yellow (review) and
/// bold red (suspicious). The terminal escapes are drawn by `anstyle`.
#[derive(Debug, Clone, Copy, PartialEq, Eq)]
pub enum RiskPaint {
    Green,
    Yellow,
    BoldRed,
}

/// The palette style for a risk level.
pub open spec fn risk_paint(risk: RiskLevel) -> RiskPaint {
    match risk {
        RiskLevel::Trusted => RiskPaint::Green,
        RiskLevel::Review => RiskPaint::Yellow,
        RiskLevel::Suspicious => RiskPaint::BoldRed,
    }
}

/// The colour for a risk level: green (trusted), yellow (review), bold red
/// (suspicious).
pub fn risk_style(risk: RiskLevel) -> (style: RiskPaint)
    ensures
        style == risk_paint(risk),
{
    match risk {
        RiskLevel::Trusted => RiskPaint::Green,
        RiskLevel::Review => RiskPaint::Yellow,
        RiskLevel::Suspicious => RiskPaint::BoldRed,
    }
}

/// The escape sequence that switches a palette style on: the bold effect
/// first when there is one, then the foreground colour.
pub open spec fn opening_escape(style: RiskPaint) -> Seq<char> {
    match style {
        RiskPaint::Green => "\x1b[32m"@,
        RiskPaint::Yellow => "\x1b[33m"@,
        RiskPaint::BoldRed => "\x1b[1m\x1b[31m"@,
    }
}

/// The escape sequence that switches every style off.
pub open spec fn reset_escape() -> Seq<char> {
    "\x1b[0m"@
}

/// Calls `anstyle::Style::render` on the `anstyle` style for a palette
/// entry (`Style::new()` with the ANSI foreground colour, plus
/// `Effects::BOLD` for bold red). As anstyle's source writes it, the result
/// is the effect escapes (`ESC[1m` for bold) followed by the foreground
/// escape (`ESC[3Nm`, with N = 1 red, 2 green, 3 yellow).
#[verifier::external_body]
fn style_start(style: RiskPaint) -> (start: String)
    ensures
        start@ == opening_escape(style),
{
    let ansi = match style {
        RiskPaint::Green => anstyle::Style::new().fg_color(Some(anstyle::AnsiColor::Green.into())),
        RiskPaint::Yellow => anstyle::Style::new().fg_color(Some(anstyle::AnsiColor::Yellow.into())),
        RiskPaint::BoldRed => anstyle::Style::new()
            .fg_color(Some(anstyle::AnsiColor::Red.into()))
            .effects(anstyle::Effects::BOLD),
    };
    format!("{}", ansi.render())
}

/// Calls `anstyle::Style::render_reset` on the `anstyle` style for a
/// palette entry. None of the palette styles is the empty style, so, as
/// anstyle's source writes it, the result is the reset escape `ESC[0m`.
#[verifier::external_body]
fn style_end(style: RiskPaint) -> (end: String)
    ensures
        end@ == reset_escape(),
{
    let ansi = match style {
        RiskPaint::Green => anstyle::Style::new().fg_color(Some(anstyle::AnsiColor::Green.into())),
        RiskPaint::Yellow => anstyle::Style::new().fg_color(Some(anstyle::AnsiColor::Yellow.into())),
        RiskPaint::BoldRed => anstyle::Style::new()
            .fg_color(Some(anstyle::AnsiColor::Red.into()))
            .effects(anstyle::Effects::BOLD),
    };
    format!("{}", ansi.render_reset())
}

/// `text` as painted in `style`: between the style's escapes when colour is
/// enabled, unchanged otherwise.
pub open spec fn painted(text: Seq<char>, style: RiskPaint, enabled: bool) -> Seq<char> {
    if enabled {
        opening_escape(style) + text + reset_escape()
    } else {
        text
    }
}

/// Wraps `text` in `style` when `enabled`, otherwise returns it unchanged, so
/// a non-terminal never gets escape sequences.
pub fn paint(text: &str, style: RiskPaint, enabled: bool) -> (out: String)
    ensures
        out@ == painted(text@, style, enabled),
{
    if enabled {
        let mut out = style_start(style);
        out.append(text);
        let end = style_end(style);
        out.append(end.as_str());
        out
    } else {
        text.to_owned()
    }
}

/// The ellipsis that marks where text was cut.
pub open spec fn ellipsis() -> Seq<char> {
    seq!['\u{2026}']
}

/// `text` cut to at most `max` characters, keeping its start and its end
/// with an ellipsis between them -- so a truncated path keeps both its drive
/// and its file name. Of the `max - 1` characters kept, the start gets the
/// larger half. No room at all leaves nothing; room for one character
/// leaves just the ellipsis.
pub open spec fn truncated(text: Seq<char>, max: nat) -> Seq<char> {
    if text.len() <= max {
        text
    } else if max == 0 {
        Seq::empty()
    } else if max == 1 {
        ellipsis()
    } else {
        let keep = (max - 1) as nat;
        let head = (keep + 1) / 2;
        let tail = keep - head;
        text.take(head as int) + ellipsis() + text.skip(text.len() - tail)
    }
}

/// A truncated text fits: it is the text itself when that fits, and
/// otherwise exactly `max` characters long.
pub proof fn lemma_truncated_fits(text: Seq<char>, max: nat)
    ensures
        text.len() <= max ==> truncated(text, max) == text,
        text.len() > max ==> truncated(text, max).len() == max,
        truncated(text, max).len() <= max || truncated(text, max) == text,
{
}

/// Truncates `text` to at most `max` characters, keeping the start and the
/// end with an ellipsis between them. Counts characters, not display width.
pub fn truncate_middle(text: &str, max: usize) -> (result: String)
    ensures
        result@ == truncated(text@, max as nat),
{
    let chars = chars_of(text);
    let length = chars.len();
    if length <= max {
        return text.to_owned();
    }
    if max == 0 {
        return String::new();
    }
    if max == 1 {
        let mut mark = String::new();
        mark.push('\u{2026}');
        assert(mark@ == ellipsis());
        return mark;
    }
    let keep = max - 1;
    let head = (keep + 1) / 2;
    let tail = keep - head;
    let mut result = String::new();
    push_range(&mut result, chars.as_slice(), 0, head);
    result.push('\u{2026}');
    push_range(&mut result, chars.as_slice(), length - tail, length);
    assert(chars@.subrange(0, head as int) == chars@.take(head as int));
    assert(chars@.subrange((length - tail) as int, length as int) == chars@.skip(
        (length - tail) as int,
    ));
    assert(result@ == chars@.take(head as int) + ellipsis() + chars@.skip((length - tail) as int));
    result
}

} // verus!
