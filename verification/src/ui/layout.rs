//! Terminal layout: the width of the box and the padding of its lines.
use crate::strs::{cat, repeat_text, repeated};
use unicode_width::UnicodeWidthStr;
use vstd::prelude::*;

verus! {

/// The width of the box drawn around a translation.
pub struct TerminalLayout {
    pub width: usize,
}

/// The box width for a terminal `cols` columns wide (80 when the width is
/// unknown): four columns less, kept between 48 and 100.
pub open spec fn box_width(cols: Option<u16>) -> int {
    let w: int = match cols {
        Some(c) => c as int,
        None => 80,
    };
    let inner: int = if w >= 4 { w - 4 } else { 0 };
    if inner < 48 {
        48
    } else if inner > 100 {
        100
    } else {
        inner
    }
}

/// The columns of the terminal, from `crossterm::terminal::size`, or `None`
/// where it cannot be read. Nothing is claimed of the value: it is the
/// terminal's.
#[verifier::external_body]
fn terminal_columns() -> (r: Option<u16>) {
    crossterm::terminal::size().ok().map(|size| size.0)
}

/// The number of columns a text takes on a terminal, as `unicode-width`
/// counts them.
pub uninterp spec fn display_width(s: Seq<char>) -> usize;

/// `UnicodeWidthStr::width` of `unicode-width`. Claimed: the count depends on
/// the text alone (`display_width`); the Unicode width tables are left
/// unstated.
#[verifier::external_body]
fn text_width(s: &str) -> (r: usize)
    ensures
        r == display_width(s@),
{
    UnicodeWidthStr::width(s)
}

/// `s` followed by as many spaces as it takes to fill `target` columns, for
/// a text that takes `visual` columns.
pub open spec fn padded(s: Seq<char>, visual: int, target: int) -> Seq<char> {
    s + repeated(" "@, if target > visual { (target - visual) as nat } else { 0 })
}

impl TerminalLayout {
    /// The layout for the current terminal.
    pub fn compute() -> (r: TerminalLayout)
        ensures
            48 <= r.width <= 100,
    {
        let cols = terminal_columns();
        TerminalLayout::for_columns(cols)
    }

    /// The layout for a terminal `cols` columns wide (`None`: unknown).
    pub fn for_columns(cols: Option<u16>) -> (r: TerminalLayout)
        ensures
            r.width == box_width(cols),
    {
        let w: usize = match cols {
            Some(c) => c as usize,
            None => 80,
        };
        let inner = w.saturating_sub(4);
        let width = if inner < 48 {
            48
        } else if inner > 100 {
            100
        } else {
            inner
        };
        TerminalLayout { width }
    }

    /// `s` between the Unicode right-to-left isolate marks, so that a
    /// right-to-left text keeps its order among left-to-right ones.
    pub fn bidi_isolate(s: &str) -> (r: String)
        ensures
            r@ == "\u{2067}"@ + s@ + "\u{2069}"@,
    {
        let mut r = cat("\u{2067}", s);
        r.append("\u{2069}");
        r
    }

    /// `s` padded with spaces to `target_width` terminal columns.
    pub fn _pad_line(s: &str, target_width: usize) -> (r: String)
        ensures
            r@ == padded(s@, display_width(s@) as int, target_width as int),
    {
        let visual_w = text_width(s);
        TerminalLayout::pad_to(s, visual_w, target_width)
    }

    /// `s`, which takes `visual_w` columns, padded with spaces to
    /// `target_width` columns.
    pub fn pad_to(s: &str, visual_w: usize, target_width: usize) -> (r: String)
        ensures
            r@ == padded(s@, visual_w as int, target_width as int),
    {
        let pad = target_width.saturating_sub(visual_w);
        let spaces = repeat_text(" ", pad);
        cat(s, spaces.as_str())
    }
}

} // verus!
