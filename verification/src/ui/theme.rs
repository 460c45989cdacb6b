//! Color themes: which terminal colors each part of the box is drawn in.
use crate::strs::{ascii_lowered, is_ascii_text, lowercase, str_eq, text, to_lower};
use colored::Colorize;
use vstd::prelude::*;

verus! {

/// A named color theme.
#[derive(Debug, Clone, Copy, PartialEq, Eq, Structural)]
pub enum ThemeStyle {
    Neon,
    ParchDark,
    Minimal,
    Monokai,
    Plain,
}

/// The theme that a lowercase theme name selects; unknown names select `Neon`.
pub open spec fn style_named(name: Seq<char>) -> ThemeStyle {
    if name == "neon"@ || name == "cyberpunk"@ {
        ThemeStyle::Neon
    } else if name == "dark"@ || name == "parch"@ || name == "parch-dark"@ {
        ThemeStyle::ParchDark
    } else if name == "minimal"@ || name == "clean"@ {
        ThemeStyle::Minimal
    } else if name == "monokai"@ {
        ThemeStyle::Monokai
    } else if name == "plain"@ || name == "none"@ || name == "no-color"@ {
        ThemeStyle::Plain
    } else {
        ThemeStyle::Neon
    }
}

impl ThemeStyle {
    /// The theme named by `s`, compared without regard to case.
    pub fn from_str(s: &str) -> (r: ThemeStyle)
        ensures
            r == style_named(lowercase(s@)),
            is_ascii_text(s@) ==> r == style_named(ascii_lowered(s@)),
    {
        let lower = to_lower(s);
        ThemeStyle::from_name(lower.as_str())
    }

    /// The theme named by the lowercase name `name`.
    pub fn from_name(name: &str) -> (r: ThemeStyle)
        ensures
            r == style_named(name@),
    {
        if str_eq(name, "neon") || str_eq(name, "cyberpunk") {
            ThemeStyle::Neon
        } else if str_eq(name, "dark") || str_eq(name, "parch") || str_eq(name, "parch-dark") {
            ThemeStyle::ParchDark
        } else if str_eq(name, "minimal") || str_eq(name, "clean") {
            ThemeStyle::Minimal
        } else if str_eq(name, "monokai") {
            ThemeStyle::Monokai
        } else if str_eq(name, "plain") || str_eq(name, "none") || str_eq(name, "no-color") {
            ThemeStyle::Plain
        } else {
            ThemeStyle::Neon
        }
    }
}

/// The select-graphic-rendition number of a foreground color, by the name
/// that `colored` parses.
pub open spec fn fg_code(name: Seq<char>) -> Option<Seq<char>> {
    if name == "black"@ {
        Some("30"@)
    } else if name == "red"@ {
        Some("31"@)
    } else if name == "green"@ {
        Some("32"@)
    } else if name == "yellow"@ {
        Some("33"@)
    } else if name == "blue"@ {
        Some("34"@)
    } else if name == "magenta"@ || name == "purple"@ {
        Some("35"@)
    } else if name == "cyan"@ {
        Some("36"@)
    } else if name == "white"@ {
        Some("37"@)
    } else if name == "bright black"@ {
        Some("90"@)
    } else if name == "bright red"@ {
        Some("91"@)
    } else if name == "bright green"@ {
        Some("92"@)
    } else if name == "bright yellow"@ {
        Some("93"@)
    } else if name == "bright blue"@ {
        Some("94"@)
    } else if name == "bright magenta"@ {
        Some("95"@)
    } else if name == "bright cyan"@ {
        Some("96"@)
    } else if name == "bright white"@ {
        Some("97"@)
    } else {
        None
    }
}

/// The select-graphic-rendition number of a background color, by name.
pub open spec fn bg_code(name: Seq<char>) -> Option<Seq<char>> {
    if name == "black"@ {
        Some("40"@)
    } else if name == "red"@ {
        Some("41"@)
    } else if name == "green"@ {
        Some("42"@)
    } else if name == "yellow"@ {
        Some("43"@)
    } else if name == "blue"@ {
        Some("44"@)
    } else if name == "magenta"@ || name == "purple"@ {
        Some("45"@)
    } else if name == "cyan"@ {
        Some("46"@)
    } else if name == "white"@ {
        Some("47"@)
    } else if name == "bright black"@ {
        Some("100"@)
    } else if name == "bright red"@ {
        Some("101"@)
    } else if name == "bright green"@ {
        Some("102"@)
    } else if name == "bright yellow"@ {
        Some("103"@)
    } else if name == "bright blue"@ {
        Some("104"@)
    } else if name == "bright magenta"@ {
        Some("105"@)
    } else if name == "bright cyan"@ {
        Some("106"@)
    } else if name == "bright white"@ {
        Some("107"@)
    } else {
        None
    }
}

/// The parameters of the escape sequence that starts a styled text: the
/// styles (bold, then underline), the background, then the foreground,
/// separated by `;`.
pub open spec fn sgr_params(bold: bool, underline: bool, bg: Option<Seq<char>>, fg: Seq<char>) -> Seq<char> {
    (if bold { "1;"@ } else { Seq::empty() }) + (if underline { "4;"@ } else { Seq::empty() }) + (match bg {
        Some(b) => b + ";"@,
        None => Seq::empty(),
    }) + fg
}

/// The escape sequence that ends a styled text.
pub open spec fn sgr_reset() -> Seq<char> {
    "\x1b[0m"@
}

/// `s` with `open` written after every reset sequence inside it, so that a
/// styled text nested in another one does not end the outer style.
pub open spec fn restyled(s: Seq<char>, open: Seq<char>) -> Seq<char>
    decreases s.len(),
{
    if s.len() == 0 {
        s
    } else if s.len() >= 4 && s.take(4) == sgr_reset() {
        sgr_reset() + open + restyled(s.skip(4), open)
    } else {
        seq![s[0]] + restyled(s.skip(1), open)
    }
}

/// A text drawn with the escape parameters `params`.
pub open spec fn colored_form(s: Seq<char>, params: Seq<char>) -> Seq<char> {
    let open = "\x1b["@ + params + "m"@;
    open + restyled(s, open) + sgr_reset()
}

/// How a piece of text is drawn.
pub enum Look {
    /// As it is.
    Bare,
    /// With terminal colors, by color name.
    Ansi { bold: bool, underline: bool, fg: Seq<char>, bg: Option<Seq<char>> },
}

/// A foreground color, possibly bold.
pub open spec fn ink(bold: bool, fg: Seq<char>) -> Look {
    Look::Ansi { bold, underline: false, fg, bg: None }
}

/// A bold, underlined foreground color.
pub open spec fn ink_underlined(fg: Seq<char>) -> Look {
    Look::Ansi { bold: true, underline: true, fg, bg: None }
}

/// A bold foreground color on a background color.
pub open spec fn ink_on(fg: Seq<char>, bg: Seq<char>) -> Look {
    Look::Ansi { bold: true, underline: false, fg, bg: Some(bg) }
}

/// The code of an optional background color name.
pub open spec fn bg_param(bg: Option<Seq<char>>) -> Option<Seq<char>> {
    match bg {
        Some(b) => bg_code(b),
        None => None,
    }
}

/// `r` is `s` drawn in `look`. Whether the terminal colors are written at all
/// is decided by the environment (`NO_COLOR`, `CLICOLOR`, ...), so a colored
/// look allows the text as it is too.
pub open spec fn shown_as(r: Seq<char>, s: Seq<char>, look: Look) -> bool {
    match look {
        Look::Bare => r == s,
        Look::Ansi { bold, underline, fg, bg } => r == s || r == colored_form(
            s,
            sgr_params(bold, underline, bg_param(bg), fg_code(fg).unwrap()),
        ),
    }
}

/// `text.color(fg).to_string()` with the `colored` crate. Claimed: the text
/// as it is when `colored` writes no colors, else the text between the escape
/// sequence of the color and the reset sequence, with the color written again
/// after each reset inside it. Whether colors are written (environment,
/// override) is left unstated.
#[verifier::external_body]
fn paint(text: &str, fg: &str) -> (r: String)
    requires
        fg_code(fg@) is Some,
    ensures
        r@ == text@ || r@ == colored_form(text@, sgr_params(false, false, None, fg_code(fg@).unwrap())),
{
    text.color(fg).to_string()
}

/// `text.bold().color(fg).to_string()` with the `colored` crate; claimed as
/// for `paint`, with the bold style first.
#[verifier::external_body]
fn paint_bold(text: &str, fg: &str) -> (r: String)
    requires
        fg_code(fg@) is Some,
    ensures
        r@ == text@ || r@ == colored_form(text@, sgr_params(true, false, None, fg_code(fg@).unwrap())),
{
    text.bold().color(fg).to_string()
}

/// `text.bold().underline().color(fg).to_string()` with the `colored` crate;
/// claimed as for `paint`, with the bold and underline styles first.
#[verifier::external_body]
fn paint_bold_underlined(text: &str, fg: &str) -> (r: String)
    requires
        fg_code(fg@) is Some,
    ensures
        r@ == text@ || r@ == colored_form(text@, sgr_params(true, true, None, fg_code(fg@).unwrap())),
{
    text.bold().underline().color(fg).to_string()
}

/// `text.on_color(bg).bold().color(fg).to_string()` with the `colored` crate;
/// claimed as for `paint`, with the bold style and then the background first.
#[verifier::external_body]
fn paint_bold_on(text: &str, fg: &str, bg: &str) -> (r: String)
    requires
        fg_code(fg@) is Some,
        bg_code(bg@) is Some,
    ensures
        r@ == text@ || r@ == colored_form(text@, sgr_params(true, false, bg_code(bg@), fg_code(fg@).unwrap())),
{
    text.on_color(bg).bold().color(fg).to_string()
}

/// The look of the box title.
pub open spec fn title_look(style: ThemeStyle) -> Look {
    match style {
        ThemeStyle::Neon => ink(true, "bright cyan"@),
        ThemeStyle::ParchDark => ink(true, "bright magenta"@),
        ThemeStyle::Minimal => ink(true, "white"@),
        ThemeStyle::Monokai => ink(true, "bright yellow"@),
        ThemeStyle::Plain => Look::Bare,
    }
}

/// The look of the brackets around the title.
pub open spec fn logo_bracket_look(style: ThemeStyle) -> Look {
    match style {
        ThemeStyle::Neon => ink(true, "bright blue"@),
        ThemeStyle::ParchDark => ink(true, "bright magenta"@),
        ThemeStyle::Minimal => ink(false, "white"@),
        ThemeStyle::Monokai => ink(true, "bright red"@),
        ThemeStyle::Plain => Look::Bare,
    }
}

/// The look of the label of the foreign command.
pub open spec fn input_label_look(style: ThemeStyle) -> Look {
    match style {
        ThemeStyle::Neon => ink(true, "bright yellow"@),
        ThemeStyle::ParchDark => ink(true, "bright cyan"@),
        ThemeStyle::Minimal => ink(true, "white"@),
        ThemeStyle::Monokai => ink(true, "bright blue"@),
        ThemeStyle::Plain => Look::Bare,
    }
}

/// The look of the foreign command.
pub open spec fn input_val_look(style: ThemeStyle) -> Look {
    match style {
        ThemeStyle::Neon => ink(true, "bright white"@),
        ThemeStyle::ParchDark => ink(false, "bright white"@),
        ThemeStyle::Minimal => ink(false, "white"@),
        ThemeStyle::Monokai => ink(false, "bright green"@),
        ThemeStyle::Plain => Look::Bare,
    }
}

/// The look of the label of the translated command.
pub open spec fn target_label_look(style: ThemeStyle) -> Look {
    match style {
        ThemeStyle::Neon => ink(true, "bright green"@),
        ThemeStyle::ParchDark => ink(true, "bright green"@),
        ThemeStyle::Minimal => ink(true, "white"@),
        ThemeStyle::Monokai => ink(true, "bright magenta"@),
        ThemeStyle::Plain => Look::Bare,
    }
}

/// The look of the translated command.
pub open spec fn target_val_look(style: ThemeStyle) -> Look {
    match style {
        ThemeStyle::Neon => ink_underlined("bright green"@),
        ThemeStyle::ParchDark => ink(true, "bright cyan"@),
        ThemeStyle::Minimal => ink_underlined("white"@),
        ThemeStyle::Monokai => ink_underlined("bright yellow"@),
        ThemeStyle::Plain => Look::Bare,
    }
}

/// The text of the English badge.
pub open spec fn badge_en_text(style: ThemeStyle) -> Seq<char> {
    match style {
        ThemeStyle::Minimal | ThemeStyle::Plain => "[EN]"@,
        _ => " EN "@,
    }
}

/// The look of the English badge.
pub open spec fn badge_en_look(style: ThemeStyle) -> Look {
    match style {
        ThemeStyle::Neon => ink_on("black"@, "cyan"@),
        ThemeStyle::ParchDark => ink_on("white"@, "purple"@),
        ThemeStyle::Minimal => ink(true, "white"@),
        ThemeStyle::Monokai => ink_on("black"@, "blue"@),
        ThemeStyle::Plain => Look::Bare,
    }
}

/// The text of the Persian badge.
pub open spec fn badge_fa_text(style: ThemeStyle) -> Seq<char> {
    match style {
        ThemeStyle::Minimal | ThemeStyle::Plain => "[FA]"@,
        _ => " FA "@,
    }
}

/// The look of the Persian badge.
pub open spec fn badge_fa_look(style: ThemeStyle) -> Look {
    match style {
        ThemeStyle::Neon => ink_on("black"@, "green"@),
        ThemeStyle::ParchDark => ink_on("white"@, "blue"@),
        ThemeStyle::Minimal => ink(true, "white"@),
        ThemeStyle::Monokai => ink_on("black"@, "yellow"@),
        ThemeStyle::Plain => Look::Bare,
    }
}

/// The look of the English note.
pub open spec fn note_en_look(style: ThemeStyle) -> Look {
    match style {
        ThemeStyle::Minimal => ink(false, "white"@),
        ThemeStyle::Plain => Look::Bare,
        _ => ink(false, "bright white"@),
    }
}

/// The look of the Persian note.
pub open spec fn note_fa_look(style: ThemeStyle) -> Look {
    match style {
        ThemeStyle::Neon => ink(false, "bright cyan"@),
        ThemeStyle::ParchDark => ink(false, "bright yellow"@),
        ThemeStyle::Minimal => ink(false, "white"@),
        ThemeStyle::Monokai => ink(false, "bright cyan"@),
        ThemeStyle::Plain => Look::Bare,
    }
}

/// The look of the box frame.
pub open spec fn border_look(style: ThemeStyle) -> Look {
    match style {
        ThemeStyle::Neon => ink(false, "bright blue"@),
        ThemeStyle::ParchDark => ink(false, "bright magenta"@),
        ThemeStyle::Minimal => ink(false, "bright black"@),
        ThemeStyle::Monokai => ink(false, "bright yellow"@),
        ThemeStyle::Plain => Look::Bare,
    }
}

/// The look of warnings, the same in every theme.
pub open spec fn warning_look() -> Look {
    ink(true, "bright red"@)
}

/// The parts of the box, each drawn in the look its theme gives it.
pub struct Theme;

impl Theme {
    /// The box title.
    pub fn title(text: &str, style: ThemeStyle) -> (r: String)
        ensures
            shown_as(r@, text@, title_look(style)),
    {
        match style {
            ThemeStyle::Neon => paint_bold(text, "bright cyan"),
            ThemeStyle::ParchDark => paint_bold(text, "bright magenta"),
            ThemeStyle::Minimal => paint_bold(text, "white"),
            ThemeStyle::Monokai => paint_bold(text, "bright yellow"),
            ThemeStyle::Plain => text.to_owned(),
        }
    }

    /// The brackets around the title.
    pub fn logo_bracket(text: &str, style: ThemeStyle) -> (r: String)
        ensures
            shown_as(r@, text@, logo_bracket_look(style)),
    {
        match style {
            ThemeStyle::Neon => paint_bold(text, "bright blue"),
            ThemeStyle::ParchDark => paint_bold(text, "bright magenta"),
            ThemeStyle::Minimal => paint(text, "white"),
            ThemeStyle::Monokai => paint_bold(text, "bright red"),
            ThemeStyle::Plain => text.to_owned(),
        }
    }

    /// The label of the foreign command.
    pub fn input_label(text: &str, style: ThemeStyle) -> (r: String)
        ensures
            shown_as(r@, text@, input_label_look(style)),
    {
        match style {
            ThemeStyle::Neon => paint_bold(text, "bright yellow"),
            ThemeStyle::ParchDark => paint_bold(text, "bright cyan"),
            ThemeStyle::Minimal => paint_bold(text, "white"),
            ThemeStyle::Monokai => paint_bold(text, "bright blue"),
            ThemeStyle::Plain => text.to_owned(),
        }
    }

    /// The foreign command.
    pub fn input_val(text: &str, style: ThemeStyle) -> (r: String)
        ensures
            shown_as(r@, text@, input_val_look(style)),
    {
        match style {
            ThemeStyle::Neon => paint_bold(text, "bright white"),
            ThemeStyle::ParchDark => paint(text, "bright white"),
            ThemeStyle::Minimal => paint(text, "white"),
            ThemeStyle::Monokai => paint(text, "bright green"),
            ThemeStyle::Plain => text.to_owned(),
        }
    }

    /// The label of the translated command.
    pub fn target_label(text: &str, style: ThemeStyle) -> (r: String)
        ensures
            shown_as(r@, text@, target_label_look(style)),
    {
        match style {
            ThemeStyle::Neon => paint_bold(text, "bright green"),
            ThemeStyle::ParchDark => paint_bold(text, "bright green"),
            ThemeStyle::Minimal => paint_bold(text, "white"),
            ThemeStyle::Monokai => paint_bold(text, "bright magenta"),
            ThemeStyle::Plain => text.to_owned(),
        }
    }

    /// The translated command.
    pub fn target_val(text: &str, style: ThemeStyle) -> (r: String)
        ensures
            shown_as(r@, text@, target_val_look(style)),
    {
        match style {
            ThemeStyle::Neon => paint_bold_underlined(text, "bright green"),
            ThemeStyle::ParchDark => paint_bold(text, "bright cyan"),
            ThemeStyle::Minimal => paint_bold_underlined(text, "white"),
            ThemeStyle::Monokai => paint_bold_underlined(text, "bright yellow"),
            ThemeStyle::Plain => text.to_owned(),
        }
    }

    /// The badge before the English note.
    pub fn badge_en(style: ThemeStyle) -> (r: String)
        ensures
            shown_as(r@, badge_en_text(style), badge_en_look(style)),
    {
        match style {
            ThemeStyle::Neon => paint_bold_on(" EN ", "black", "cyan"),
            ThemeStyle::ParchDark => paint_bold_on(" EN ", "white", "purple"),
            ThemeStyle::Minimal => paint_bold("[EN]", "white"),
            ThemeStyle::Monokai => paint_bold_on(" EN ", "black", "blue"),
            ThemeStyle::Plain => text("[EN]"),
        }
    }

    /// The badge before the Persian note.
    pub fn badge_fa(style: ThemeStyle) -> (r: String)
        ensures
            shown_as(r@, badge_fa_text(style), badge_fa_look(style)),
    {
        match style {
            ThemeStyle::Neon => paint_bold_on(" FA ", "black", "green"),
            ThemeStyle::ParchDark => paint_bold_on(" FA ", "white", "blue"),
            ThemeStyle::Minimal => paint_bold("[FA]", "white"),
            ThemeStyle::Monokai => paint_bold_on(" FA ", "black", "yellow"),
            ThemeStyle::Plain => text("[FA]"),
        }
    }

    /// The English note.
    pub fn note_en(text: &str, style: ThemeStyle) -> (r: String)
        ensures
            shown_as(r@, text@, note_en_look(style)),
    {
        match style {
            ThemeStyle::Neon => paint(text, "bright white"),
            ThemeStyle::ParchDark => paint(text, "bright white"),
            ThemeStyle::Minimal => paint(text, "white"),
            ThemeStyle::Monokai => paint(text, "bright white"),
            ThemeStyle::Plain => text.to_owned(),
        }
    }

    /// The Persian note.
    pub fn note_fa(text: &str, style: ThemeStyle) -> (r: String)
        ensures
            shown_as(r@, text@, note_fa_look(style)),
    {
        match style {
            ThemeStyle::Neon => paint(text, "bright cyan"),
            ThemeStyle::ParchDark => paint(text, "bright yellow"),
            ThemeStyle::Minimal => paint(text, "white"),
            ThemeStyle::Monokai => paint(text, "bright cyan"),
            ThemeStyle::Plain => text.to_owned(),
        }
    }

    /// The box frame.
    pub fn border(text: &str, style: ThemeStyle) -> (r: String)
        ensures
            shown_as(r@, text@, border_look(style)),
    {
        match style {
            ThemeStyle::Neon => paint(text, "bright blue"),
            ThemeStyle::ParchDark => paint(text, "bright magenta"),
            ThemeStyle::Minimal => paint(text, "bright black"),
            ThemeStyle::Monokai => paint(text, "bright yellow"),
            ThemeStyle::Plain => text.to_owned(),
        }
    }

    /// A warning, in every theme.
    pub fn warning(text: &str) -> (r: String)
        ensures
            shown_as(r@, text@, warning_look()),
    {
        paint_bold(text, "bright red")
    }
}

} // verus!
