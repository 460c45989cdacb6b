//! The box drawn around a translation: the foreign command, the Arch
//! command, the notes and the warning, line by line.
use crate::config::Config;
use crate::context::{display_of, InvocationContext};
use crate::strs::{cat, join, join_texts, lowercase, repeat_text, repeated, str_eq, text};
use crate::translator::{TranslationResult, TranslationView};
use crate::ui::layout::{padded, TerminalLayout};
use crate::ui::theme::{
    badge_en_look, badge_en_text, badge_fa_look, badge_fa_text, border_look, input_label_look,
    input_val_look, logo_bracket_look, note_en_look, note_fa_look, shown_as, style_named,
    target_label_look, target_val_look, title_look, warning_look, Look, Theme, ThemeStyle,
};
use vstd::prelude::*;

verus! {

/// The title written in the top edge of the box.
pub open spec fn box_title() -> Seq<char> {
    "Parch Linux Command Helper"@
}

/// The foreign command as typed: the manager's label and its arguments.
pub open spec fn input_text(ctx: &InvocationContext) -> Seq<char> {
    display_of(ctx.source@) + " "@ + join(ctx.original_args.deep_view(), " "@)
}

/// The theme name in force: the one given on the command line, else the configured one.
pub open spec fn theme_name(ctx: &InvocationContext, config: &Config) -> Seq<char> {
    match ctx.cli_opts.theme {
        Some(t) => t@,
        None => config.general.theme@,
    }
}

/// The theme in force.
pub open spec fn theme_of(ctx: &InvocationContext, config: &Config) -> ThemeStyle {
    style_named(lowercase(theme_name(ctx, config)))
}

/// The box is drawn without colors.
pub open spec fn draws_plain(ctx: &InvocationContext, config: &Config) -> bool {
    !config.general.colored_ui || theme_of(ctx, config) == ThemeStyle::Plain
}

/// The English note is shown.
pub open spec fn shows_en(lang: Seq<char>) -> bool {
    lang == "both"@ || lang == "en"@
}

/// The Persian note is shown.
pub open spec fn shows_fa(lang: Seq<char>) -> bool {
    lang == "both"@ || lang == "fa"@
}

/// The Persian note as shown: between isolation marks when asked for.
pub open spec fn fa_note(notes_fa: Seq<char>, bidi: bool) -> Seq<char> {
    if bidi {
        "\u{2067}"@ + notes_fa + "\u{2069}"@
    } else {
        notes_fa
    }
}

/// A rule of 50 `=`.
pub open spec fn plain_rule() -> Seq<char> {
    repeated("="@, 50)
}

/// The lines printed when the box is drawn without colors.
pub open spec fn plain_lines(input: Seq<char>, r: TranslationView) -> Seq<Seq<char>> {
    let head = seq![
        Seq::empty(),
        plain_rule(),
        "Input:       "@ + input,
        "Arch/Parch:  "@ + r.command,
        "EN: "@ + r.notes_en,
        "FA: "@ + r.notes_fa,
    ];
    let warn = match r.warning {
        Some(w) => seq!["Warning: "@ + w],
        None => Seq::empty(),
    };
    head + warn + seq![plain_rule(), Seq::empty()]
}

/// A label padded to twelve characters, as `{:<12}` writes it.
pub open spec fn field(label: Seq<char>) -> Seq<char> {
    padded(label, label.len() as int, 12)
}

/// `b` is the frame bar `│` in the theme.
pub open spec fn bar(b: Seq<char>, style: ThemeStyle) -> bool {
    shown_as(b, "│"@, border_look(style))
}

/// `line` is a frame line `│   label : value`.
pub open spec fn field_line(
    line: Seq<char>,
    style: ThemeStyle,
    label: Seq<char>,
    label_look: Look,
    value: Seq<char>,
    value_look: Look,
) -> bool {
    exists|b: Seq<char>, l: Seq<char>, v: Seq<char>|
        #![trigger bar(b, style), shown_as(l, label, label_look), shown_as(v, value, value_look)]
        bar(b, style) && shown_as(l, label, label_look) && shown_as(v, value, value_look) && line == b
            + "   "@ + field(l) + " : "@ + v
}

/// `line` is a frame line `│   badge  note`.
pub open spec fn note_line(
    line: Seq<char>,
    style: ThemeStyle,
    badge: Seq<char>,
    badge_look: Look,
    note: Seq<char>,
    note_look: Look,
) -> bool {
    exists|b: Seq<char>, g: Seq<char>, n: Seq<char>|
        #![trigger bar(b, style), shown_as(g, badge, badge_look), shown_as(n, note, note_look)]
        bar(b, style) && shown_as(g, badge, badge_look) && shown_as(n, note, note_look) && line == b
            + "   "@ + g + "  "@ + n
}

/// The number of `─` after the title in the top edge.
pub open spec fn top_dashes(width: int) -> nat {
    if width > 38 {
        (width - 38) as nat
    } else {
        0
    }
}

/// `top` is the top edge before the frame color: `╭─── ❬ title ❭ ───…`.
pub open spec fn top_edge(top: Seq<char>, style: ThemeStyle, width: int) -> bool {
    exists|a: Seq<char>, t: Seq<char>, c: Seq<char>, d: Seq<char>|
        #![trigger shown_as(a, "❬"@, logo_bracket_look(style)), shown_as(t, box_title(), title_look(style)), shown_as(c, "❭"@, logo_bracket_look(style)), shown_as(d, repeated("─"@, top_dashes(width)), border_look(style))]
        shown_as(a, "❬"@, logo_bracket_look(style)) && shown_as(t, box_title(), title_look(style))
            && shown_as(c, "❭"@, logo_bracket_look(style)) && shown_as(
            d,
            repeated("─"@, top_dashes(width)),
            border_look(style),
        ) && top == "╭─── "@ + a + " "@ + t + " "@ + c + " "@ + d
}

/// `line` is the top edge of the box.
pub open spec fn top_line(line: Seq<char>, style: ThemeStyle, width: int) -> bool {
    exists|top: Seq<char>| #![trigger top_edge(top, style, width)]
        top_edge(top, style, width) && shown_as(line, top, border_look(style))
}

/// The bottom edge of the box, before the frame color.
pub open spec fn bottom_edge(width: int) -> Seq<char> {
    "╰"@ + repeated("─"@, width as nat) + "╯"@
}

/// The lines of the colored box, for a box `width` columns wide.
pub open spec fn colored_lines(
    ls: Seq<Seq<char>>,
    style: ThemeStyle,
    width: int,
    input: Seq<char>,
    r: TranslationView,
    lang: Seq<char>,
    bidi: bool,
) -> bool {
    let n_en: int = if shows_en(lang) { 1 } else { 0 };
    let n_fa: int = if shows_fa(lang) { 1 } else { 0 };
    let n_warn: int = if r.warning is Some { 2 } else { 0 };
    let tail: int = 6 + n_en + n_fa + n_warn;
    &&& ls.len() == tail + 3
    &&& ls[0] == Seq::<char>::empty()
    &&& top_line(ls[1], style, width)
    &&& bar(ls[2], style)
    &&& field_line(ls[3], style, "Input"@, input_label_look(style), input, input_val_look(style))
    &&& field_line(ls[4], style, "Arch/Parch"@, target_label_look(style), r.command, target_val_look(style))
    &&& bar(ls[5], style)
    &&& shows_en(lang) ==> note_line(
        ls[6],
        style,
        badge_en_text(style),
        badge_en_look(style),
        r.notes_en,
        note_en_look(style),
    )
    &&& shows_fa(lang) ==> note_line(
        ls[6 + n_en],
        style,
        badge_fa_text(style),
        badge_fa_look(style),
        fa_note(r.notes_fa, bidi),
        note_fa_look(style),
    )
    &&& r.warning matches Some(w) ==> bar(ls[6 + n_en + n_fa], style) && field_line(
        ls[7 + n_en + n_fa],
        style,
        "Warning"@,
        warning_look(),
        w,
        warning_look(),
    )
    &&& bar(ls[tail], style)
    &&& shown_as(ls[tail + 1], bottom_edge(width), border_look(style))
    &&& ls[tail + 2] == Seq::<char>::empty()
}

proof fn field_line_from(
    line: Seq<char>,
    style: ThemeStyle,
    label: Seq<char>,
    label_look: Look,
    value: Seq<char>,
    value_look: Look,
    b: Seq<char>,
    l: Seq<char>,
    v: Seq<char>,
)
    requires
        bar(b, style),
        shown_as(l, label, label_look),
        shown_as(v, value, value_look),
        line == b + "   "@ + field(l) + " : "@ + v,
    ensures
        field_line(line, style, label, label_look, value, value_look),
{
}

proof fn note_line_from(
    line: Seq<char>,
    style: ThemeStyle,
    badge: Seq<char>,
    badge_look: Look,
    note: Seq<char>,
    note_look: Look,
    b: Seq<char>,
    g: Seq<char>,
    n: Seq<char>,
)
    requires
        bar(b, style),
        shown_as(g, badge, badge_look),
        shown_as(n, note, note_look),
        line == b + "   "@ + g + "  "@ + n,
    ensures
        note_line(line, style, badge, badge_look, note, note_look),
{
}

proof fn top_line_from(
    line: Seq<char>,
    style: ThemeStyle,
    width: int,
    a: Seq<char>,
    t: Seq<char>,
    c: Seq<char>,
    d: Seq<char>,
    top: Seq<char>,
)
    requires
        shown_as(a, "❬"@, logo_bracket_look(style)),
        shown_as(t, box_title(), title_look(style)),
        shown_as(c, "❭"@, logo_bracket_look(style)),
        shown_as(d, repeated("─"@, top_dashes(width)), border_look(style)),
        top == "╭─── "@ + a + " "@ + t + " "@ + c + " "@ + d,
        shown_as(line, top, border_look(style)),
    ensures
        top_line(line, style, width),
{
    assert(top_edge(top, style, width));
}

/// Draws translations in a box.
pub struct BoxRenderer;

impl BoxRenderer {
    /// The lines that show `res` for the invocation `ctx`, in a box as wide
    /// as the terminal allows.
    pub fn render(ctx: &InvocationContext, res: &TranslationResult, config: &Config) -> (r: Vec<String>)
        ensures
            draws_plain(ctx, config) ==> r.deep_view() == plain_lines(input_text(ctx), res@),
            !draws_plain(ctx, config) ==> exists|w: int|
                48 <= w <= 100 && colored_lines(
                    r.deep_view(),
                    theme_of(ctx, config),
                    w,
                    input_text(ctx),
                    res@,
                    config.general.language@,
                    config.general.bidi_isolation,
                ),
    {
        let layout = TerminalLayout::compute();
        let r = BoxRenderer::render_in(ctx, res, config, layout.width);
        proof {
            let w = layout.width as int;
            if !draws_plain(ctx, config) {
                assert(colored_lines(
                    r.deep_view(),
                    theme_of(ctx, config),
                    w,
                    input_text(ctx),
                    res@,
                    config.general.language@,
                    config.general.bidi_isolation,
                ));
            }
        }
        r
    }

    /// The lines that show `res` for the invocation `ctx`, in a box `width`
    /// columns wide.
    pub fn render_in(ctx: &InvocationContext, res: &TranslationResult, config: &Config, width: usize) -> (r: Vec<
        String,
    >)
        ensures
            draws_plain(ctx, config) ==> r.deep_view() == plain_lines(input_text(ctx), res@),
            !draws_plain(ctx, config) ==> colored_lines(
                r.deep_view(),
                theme_of(ctx, config),
                width as int,
                input_text(ctx),
                res@,
                config.general.language@,
                config.general.bidi_isolation,
            ),
    {
        if !config.general.colored_ui {
            return BoxRenderer::render_plain(ctx, res);
        }
        let theme_str: &str = match &ctx.cli_opts.theme {
            Some(t) => t.as_str(),
            None => config.general.theme.as_str(),
        };
        let style = ThemeStyle::from_str(theme_str);
        if style == ThemeStyle::Plain {
            return BoxRenderer::render_plain(ctx, res);
        }
        BoxRenderer::render_colored(ctx, res, config, style, width)
    }

    /// The foreign command as typed.
    fn input_command(ctx: &InvocationContext) -> (r: String)
        ensures
            r@ == input_text(ctx),
    {
        let mut s = cat(ctx.source.display_name(), " ");
        let args = join_texts(ctx.original_args.as_slice(), " ");
        s.append(args.as_str());
        s
    }

    /// The lines of the box drawn without colors.
    pub fn render_plain(ctx: &InvocationContext, res: &TranslationResult) -> (r: Vec<String>)
        ensures
            r.deep_view() == plain_lines(input_text(ctx), res@),
    {
        let input_cmd = BoxRenderer::input_command(ctx);
        let rule = repeat_text("=", 50);
        let mut lines: Vec<String> = Vec::new();
        lines.push(String::new());
        lines.push(text(rule.as_str()));
        lines.push(cat("Input:       ", input_cmd.as_str()));
        lines.push(cat("Arch/Parch:  ", res.command.as_str()));
        lines.push(cat("EN: ", res.notes_en.as_str()));
        lines.push(cat("FA: ", res.notes_fa.as_str()));
        match &res.warning {
            Some(w) => {
                lines.push(cat("Warning: ", w.as_str()));
            },
            None => {},
        }
        lines.push(rule);
        lines.push(String::new());
        assert(lines.deep_view() =~= plain_lines(input_text(ctx), res@));
        lines
    }

    /// `│   label : value` in the theme.
    fn field_row(bar_text: &str, label: &str, value: &str) -> (r: String)
        ensures
            r@ == bar_text@ + "   "@ + field(label@) + " : "@ + value@,
    {
        let mut s = cat(bar_text, "   ");
        let padded_label = TerminalLayout::pad_to(label, label.unicode_len(), 12);
        s.append(padded_label.as_str());
        s.append(" : ");
        s.append(value);
        s
    }

    /// `│   badge  note` in the theme.
    fn note_row(bar_text: &str, badge: &str, note: &str) -> (r: String)
        ensures
            r@ == bar_text@ + "   "@ + badge@ + "  "@ + note@,
    {
        let mut s = cat(bar_text, "   ");
        s.append(badge);
        s.append("  ");
        s.append(note);
        s
    }

    /// The top edge of the box.
    fn top_row(style: ThemeStyle, width: usize) -> (r: String)
        requires
            style != ThemeStyle::Plain,
        ensures
            top_line(r@, style, width as int),
    {
        let a = Theme::logo_bracket("❬", style);
        let t = Theme::title("Parch Linux Command Helper", style);
        let c = Theme::logo_bracket("❭", style);
        let dashes = repeat_text("─", width.saturating_sub(38));
        let d = Theme::border(dashes.as_str(), style);
        let mut top = cat("╭─── ", a.as_str());
        top.append(" ");
        top.append(t.as_str());
        top.append(" ");
        top.append(c.as_str());
        top.append(" ");
        top.append(d.as_str());
        let line = Theme::border(top.as_str(), style);
        proof {
            top_line_from(line@, style, width as int, a@, t@, c@, d@, top@);
        }
        line
    }

    /// The lines of the colored box.
    #[verifier::rlimit(40)]
    fn render_colored(
        ctx: &InvocationContext,
        res: &TranslationResult,
        config: &Config,
        style: ThemeStyle,
        width: usize,
    ) -> (r: Vec<String>)
        requires
            style != ThemeStyle::Plain,
        ensures
            colored_lines(
                r.deep_view(),
                style,
                width as int,
                input_text(ctx),
                res@,
                config.general.language@,
                config.general.bidi_isolation,
            ),
    {
        let input_cmd = BoxRenderer::input_command(ctx);
        let mut lines: Vec<String> = Vec::new();
        lines.push(String::new());
        lines.push(BoxRenderer::top_row(style, width));
        lines.push(Theme::border("│", style));

        let b3 = Theme::border("│", style);
        let l3 = Theme::input_label("Input", style);
        let v3 = Theme::input_val(input_cmd.as_str(), style);
        let row3 = BoxRenderer::field_row(b3.as_str(), l3.as_str(), v3.as_str());
        proof {
            field_line_from(
                row3@,
                style,
                "Input"@,
                input_label_look(style),
                input_text(ctx),
                input_val_look(style),
                b3@,
                l3@,
                v3@,
            );
        }
        lines.push(row3);

        let b4 = Theme::border("│", style);
        let l4 = Theme::target_label("Arch/Parch", style);
        let v4 = Theme::target_val(res.command.as_str(), style);
        let row4 = BoxRenderer::field_row(b4.as_str(), l4.as_str(), v4.as_str());
        proof {
            field_line_from(
                row4@,
                style,
                "Arch/Parch"@,
                target_label_look(style),
                res.command@,
                target_val_look(style),
                b4@,
                l4@,
                v4@,
            );
        }
        lines.push(row4);
        lines.push(Theme::border("│", style));
        let ghost head = lines.deep_view();

        let lang = config.general.language.as_str();
        let show_en = str_eq(lang, "both") || str_eq(lang, "en");
        let show_fa = str_eq(lang, "both") || str_eq(lang, "fa");
        if show_en {
            let b = Theme::border("│", style);
            let g = Theme::badge_en(style);
            let n = Theme::note_en(res.notes_en.as_str(), style);
            let row = BoxRenderer::note_row(b.as_str(), g.as_str(), n.as_str());
            proof {
                note_line_from(
                    row@,
                    style,
                    badge_en_text(style),
                    badge_en_look(style),
                    res.notes_en@,
                    note_en_look(style),
                    b@,
                    g@,
                    n@,
                );
            }
            lines.push(row);
        }
        let ghost with_en = lines.deep_view();
        if show_fa {
            let note = if config.general.bidi_isolation {
                TerminalLayout::bidi_isolate(res.notes_fa.as_str())
            } else {
                text(res.notes_fa.as_str())
            };
            let b = Theme::border("│", style);
            let g = Theme::badge_fa(style);
            let n = Theme::note_fa(note.as_str(), style);
            let row = BoxRenderer::note_row(b.as_str(), g.as_str(), n.as_str());
            proof {
                note_line_from(
                    row@,
                    style,
                    badge_fa_text(style),
                    badge_fa_look(style),
                    fa_note(res.notes_fa@, config.general.bidi_isolation),
                    note_fa_look(style),
                    b@,
                    g@,
                    n@,
                );
            }
            lines.push(row);
        }
        let ghost with_fa = lines.deep_view();
        match &res.warning {
            Some(w) => {
                lines.push(Theme::border("│", style));
                let b = Theme::border("│", style);
                let l = Theme::warning("Warning");
                let v = Theme::warning(w.as_str());
                let row = BoxRenderer::field_row(b.as_str(), l.as_str(), v.as_str());
                proof {
                    field_line_from(row@, style, "Warning"@, warning_look(), w@, warning_look(), b@, l@, v@);
                }
                lines.push(row);
            },
            None => {},
        }
        let ghost with_warn = lines.deep_view();
        let ghost len_warn = lines@.len();
        assert(with_warn.len() == len_warn);
        lines.push(Theme::border("│", style));
        let bottom_dashes = repeat_text("─", width);
        let bottom = cat("╰", bottom_dashes.as_str());
        let mut bottom_text = bottom;
        bottom_text.append("╯");
        lines.push(Theme::border(bottom_text.as_str(), style));
        lines.push(String::new());
        proof {
            let ls = lines.deep_view();
            assert(ls.subrange(0, head.len() as int) =~= head);
            assert(ls.subrange(0, with_en.len() as int) =~= with_en);
            assert(ls.subrange(0, with_fa.len() as int) =~= with_fa);
            assert(ls.subrange(0, with_warn.len() as int) =~= with_warn);
            assert(ls[0] =~= Seq::<char>::empty());
            assert(ls[ls.len() - 1] =~= Seq::<char>::empty());
            let lang_v = config.general.language@;
            let n_en: int = if shows_en(lang_v) { 1 } else { 0 };
            let n_fa: int = if shows_fa(lang_v) { 1 } else { 0 };
            let n_warn: int = if res@.warning is Some { 2 } else { 0 };
            let tail: int = 6 + n_en + n_fa + n_warn;
            assert(head.len() == 6);
            assert(with_en.len() == 6 + n_en);
            assert(with_fa.len() == 6 + n_en + n_fa);
            assert(with_warn.len() == tail);
            assert(ls.len() == lines@.len());
            assert(lines@.len() == len_warn + 3);
            assert(ls.len() == tail + 3);
        }
        lines
    }
}

} // verus!
