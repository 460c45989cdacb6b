use parch_helper::config::Config;
use parch_helper::context::{CliOptions, InvocationContext, SourceManager};
use parch_helper::translator::translate;
use parch_helper::ui::box_draw::BoxRenderer;
use parch_helper::ui::layout::TerminalLayout;
use parch_helper::ui::prompt::{InteractivePrompt, KeyPress, PromptStep, UserAction};
use parch_helper::ui::theme::{Theme, ThemeStyle};

fn ctx_with(source: SourceManager, args: &[&str], theme: Option<&str>) -> InvocationContext {
    let mut opts = CliOptions::default();
    opts.theme = theme.map(|t| t.to_string());
    InvocationContext {
        source,
        original_args: args.iter().map(|s| s.to_string()).collect(),
        is_sudo: false,
        sudo_user: None,
        is_interactive: true,
        cli_opts: opts,
    }
}

#[test]
fn theme_names_ignore_case() {
    assert_eq!(ThemeStyle::from_str("PLAIN"), ThemeStyle::Plain);
    assert_eq!(ThemeStyle::from_str("Parch-Dark"), ThemeStyle::ParchDark);
    assert_eq!(ThemeStyle::from_str("MonoKai"), ThemeStyle::Monokai);
    assert_eq!(ThemeStyle::from_str("Clean"), ThemeStyle::Minimal);
}

#[test]
fn theme_names_and_aliases() {
    assert_eq!(ThemeStyle::from_name("neon"), ThemeStyle::Neon);
    assert_eq!(ThemeStyle::from_name("cyberpunk"), ThemeStyle::Neon);
    assert_eq!(ThemeStyle::from_name("dark"), ThemeStyle::ParchDark);
    assert_eq!(ThemeStyle::from_name("parch"), ThemeStyle::ParchDark);
    assert_eq!(ThemeStyle::from_name("parch-dark"), ThemeStyle::ParchDark);
    assert_eq!(ThemeStyle::from_name("minimal"), ThemeStyle::Minimal);
    assert_eq!(ThemeStyle::from_name("monokai"), ThemeStyle::Monokai);
    assert_eq!(ThemeStyle::from_name("none"), ThemeStyle::Plain);
    assert_eq!(ThemeStyle::from_name("no-color"), ThemeStyle::Plain);
    assert_eq!(ThemeStyle::from_name("solarized"), ThemeStyle::Neon);
    assert_eq!(ThemeStyle::from_name(""), ThemeStyle::Neon);
}

#[test]
fn plain_theme_draws_texts_as_they_are() {
    assert_eq!(Theme::title("Parch", ThemeStyle::Plain), "Parch");
    assert_eq!(Theme::logo_bracket("❬", ThemeStyle::Plain), "❬");
    assert_eq!(Theme::input_label("Input", ThemeStyle::Plain), "Input");
    assert_eq!(Theme::input_val("apt update", ThemeStyle::Plain), "apt update");
    assert_eq!(Theme::target_label("Arch", ThemeStyle::Plain), "Arch");
    assert_eq!(Theme::target_val("paru -Sy", ThemeStyle::Plain), "paru -Sy");
    assert_eq!(Theme::note_en("note", ThemeStyle::Plain), "note");
    assert_eq!(Theme::note_fa("یادداشت", ThemeStyle::Plain), "یادداشت");
    assert_eq!(Theme::border("│", ThemeStyle::Plain), "│");
    assert_eq!(Theme::badge_en(ThemeStyle::Plain), "[EN]");
    assert_eq!(Theme::badge_fa(ThemeStyle::Plain), "[FA]");
}

#[test]
fn colored_theme_escape_sequences() {
    colored::control::set_override(true);
    assert_eq!(Theme::title("X", ThemeStyle::Neon), "\x1b[1;96mX\x1b[0m");
    assert_eq!(Theme::title("X", ThemeStyle::ParchDark), "\x1b[1;95mX\x1b[0m");
    assert_eq!(Theme::logo_bracket("X", ThemeStyle::Minimal), "\x1b[37mX\x1b[0m");
    assert_eq!(Theme::target_val("X", ThemeStyle::Neon), "\x1b[1;4;92mX\x1b[0m");
    assert_eq!(Theme::target_val("X", ThemeStyle::ParchDark), "\x1b[1;96mX\x1b[0m");
    assert_eq!(Theme::input_val("X", ThemeStyle::Monokai), "\x1b[92mX\x1b[0m");
    assert_eq!(Theme::badge_en(ThemeStyle::Neon), "\x1b[1;46;30m EN \x1b[0m");
    assert_eq!(Theme::badge_en(ThemeStyle::ParchDark), "\x1b[1;45;37m EN \x1b[0m");
    assert_eq!(Theme::badge_fa(ThemeStyle::Monokai), "\x1b[1;43;30m FA \x1b[0m");
    assert_eq!(Theme::badge_fa(ThemeStyle::Minimal), "\x1b[1;37m[FA]\x1b[0m");
    assert_eq!(Theme::border("X", ThemeStyle::Minimal), "\x1b[90mX\x1b[0m");
    assert_eq!(Theme::warning("X"), "\x1b[1;91mX\x1b[0m");
}

#[test]
fn colored_theme_restyles_after_inner_reset() {
    colored::control::set_override(true);
    let inner = "a\x1b[0mb";
    assert_eq!(
        Theme::border(inner, ThemeStyle::Neon),
        "\x1b[94ma\x1b[0m\x1b[94mb\x1b[0m"
    );
}

#[test]
fn layout_width_is_clamped() {
    assert_eq!(TerminalLayout::for_columns(None).width, 76);
    assert_eq!(TerminalLayout::for_columns(Some(90)).width, 86);
    assert_eq!(TerminalLayout::for_columns(Some(20)).width, 48);
    assert_eq!(TerminalLayout::for_columns(Some(3)).width, 48);
    assert_eq!(TerminalLayout::for_columns(Some(52)).width, 48);
    assert_eq!(TerminalLayout::for_columns(Some(104)).width, 100);
    assert_eq!(TerminalLayout::for_columns(Some(300)).width, 100);
    let w = TerminalLayout::compute().width;
    assert!((48..=100).contains(&w));
}

#[test]
fn bidi_isolation_marks() {
    assert_eq!(TerminalLayout::bidi_isolate("سلام"), "\u{2067}سلام\u{2069}");
    assert_eq!(TerminalLayout::bidi_isolate(""), "\u{2067}\u{2069}");
}

#[test]
fn padding_counts_terminal_columns() {
    assert_eq!(TerminalLayout::_pad_line("ab", 5), "ab   ");
    assert_eq!(TerminalLayout::_pad_line("abcdef", 3), "abcdef");
    assert_eq!(TerminalLayout::_pad_line("日本", 6), "日本  ");
    assert_eq!(TerminalLayout::pad_to("x", 1, 3), "x  ");
    assert_eq!(TerminalLayout::pad_to("x", 9, 3), "x");
}

#[test]
fn prompt_keys() {
    assert_eq!(InteractivePrompt::key_step(KeyPress::Enter, false), PromptStep::Run);
    assert_eq!(InteractivePrompt::key_step(KeyPress::Char('y'), false), PromptStep::Run);
    assert_eq!(InteractivePrompt::key_step(KeyPress::Char('Y'), false), PromptStep::Run);
    assert_eq!(InteractivePrompt::key_step(KeyPress::Char('c'), false), PromptStep::Copy);
    assert_eq!(InteractivePrompt::key_step(KeyPress::Char('C'), false), PromptStep::Copy);
    assert_eq!(InteractivePrompt::key_step(KeyPress::Char('c'), true), PromptStep::Abort);
    assert_eq!(InteractivePrompt::key_step(KeyPress::Char('e'), false), PromptStep::Edit);
    assert_eq!(InteractivePrompt::key_step(KeyPress::Char('E'), false), PromptStep::Edit);
    assert_eq!(InteractivePrompt::key_step(KeyPress::Char('q'), false), PromptStep::Abort);
    assert_eq!(InteractivePrompt::key_step(KeyPress::Char('n'), false), PromptStep::Abort);
    assert_eq!(InteractivePrompt::key_step(KeyPress::Char('N'), false), PromptStep::Abort);
    assert_eq!(InteractivePrompt::key_step(KeyPress::Esc, false), PromptStep::Abort);
    assert_eq!(InteractivePrompt::key_step(KeyPress::Char('x'), false), PromptStep::Wait);
    assert_eq!(InteractivePrompt::key_step(KeyPress::Other, false), PromptStep::Wait);
}

#[test]
fn prompt_typed_answers() {
    assert_eq!(InteractivePrompt::answer_step(""), PromptStep::Run);
    assert_eq!(InteractivePrompt::answer_step("\n"), PromptStep::Run);
    assert_eq!(InteractivePrompt::answer_step("  YES \n"), PromptStep::Run);
    assert_eq!(InteractivePrompt::answer_step("y"), PromptStep::Run);
    assert_eq!(InteractivePrompt::answer_step("Copy\n"), PromptStep::CopyAndStop);
    assert_eq!(InteractivePrompt::answer_step("c"), PromptStep::CopyAndStop);
    assert_eq!(InteractivePrompt::answer_step("EDIT"), PromptStep::Edit);
    assert_eq!(InteractivePrompt::answer_step("e"), PromptStep::Edit);
    assert_eq!(InteractivePrompt::answer_step("no"), PromptStep::Abort);
    assert_eq!(InteractivePrompt::clean_answer_step("yes"), PromptStep::Run);
    assert_eq!(InteractivePrompt::clean_answer_step("YES"), PromptStep::Abort);
}

#[test]
fn prompt_edited_command() {
    assert_eq!(
        InteractivePrompt::edited_command(Some("  sudo pacman -Syu \n".to_string()), "paru -Syu"),
        "sudo pacman -Syu"
    );
    assert_eq!(InteractivePrompt::edited_command(Some("   \n".to_string()), "paru -Syu"), "paru -Syu");
    assert_eq!(InteractivePrompt::edited_command(None, "paru -Syu"), "paru -Syu");
}

#[test]
fn prompt_question_text() {
    assert_eq!(
        InteractivePrompt::question("paru -Syu"),
        "\x1b[1;36m╭─▶ \x1b[1;37mExecute \x1b[1;32m`paru -Syu`\x1b[1;37m ? \x1b[1;33m[Enter/y: Run | c: Copy | e: Edit | q: Abort]\x1b[1;36m ❯ \x1b[0m"
    );
}

#[test]
fn clipboard_osc52_sequence() {
    assert_eq!(InteractivePrompt::clipboard_sequence("hi"), "\x1b]52;c;aGk=\x07");
    assert_eq!(
        InteractivePrompt::clipboard_sequence("paru -Syu"),
        "\x1b]52;c;cGFydSAtU3l1\x07"
    );
    assert_eq!(InteractivePrompt::osc52_sequence("abc"), "\x1b]52;c;abc\x07");
    assert_eq!(InteractivePrompt::clipboard_sequence("ab"), "\x1b]52;c;YWI=\x07");
    assert_eq!(InteractivePrompt::clipboard_sequence("abc"), "\x1b]52;c;YWJj\x07");
    assert_eq!(InteractivePrompt::clipboard_sequence("é"), "\x1b]52;c;w6k=\x07");
    assert_eq!(InteractivePrompt::clipboard_sequence(""), "\x1b]52;c;\x07");
}

#[test]
fn user_action_values() {
    let a = UserAction::Execute("paru -Syu".to_string());
    assert_eq!(a, UserAction::Execute("paru -Syu".to_string()));
    assert_ne!(a, UserAction::Abort);
}

#[test]
fn plain_box_lines() {
    let ctx = ctx_with(SourceManager::Apt, &["update"], None);
    let mut cfg = Config::default();
    cfg.general.colored_ui = false;
    let res = translate(&ctx, &cfg);
    let lines = BoxRenderer::render_in(&ctx, &res, &cfg, 60);
    let rule = "=".repeat(50);
    let expected = vec![
        String::new(),
        rule.clone(),
        "Input:       apt (Debian/Ubuntu) update".to_string(),
        "Arch/Parch:  paru -Sy".to_string(),
        format!("EN: {}", res.notes_en),
        format!("FA: {}", res.notes_fa),
        format!("Warning: {}", res.warning.clone().unwrap()),
        rule,
        String::new(),
    ];
    assert_eq!(lines, expected);
    assert_eq!(BoxRenderer::render(&ctx, &res, &cfg), expected);
}

#[test]
fn plain_theme_box_without_warning() {
    let ctx = ctx_with(SourceManager::Apt, &["install", "htop"], Some("plain"));
    let cfg = Config::default();
    let res = translate(&ctx, &cfg);
    let lines = BoxRenderer::render_in(&ctx, &res, &cfg, 80);
    assert_eq!(lines.len(), 8);
    assert_eq!(lines[2], "Input:       apt (Debian/Ubuntu) install htop");
    assert_eq!(lines[3], "Arch/Parch:  paru -S htop");
}

#[test]
fn colored_box_lines() {
    colored::control::set_override(true);
    let ctx = ctx_with(SourceManager::Apt, &["update"], None);
    let cfg = Config::default();
    let res = translate(&ctx, &cfg);
    let lines = BoxRenderer::render_in(&ctx, &res, &cfg, 60);
    let bar = "\x1b[94m│\x1b[0m";
    assert_eq!(lines.len(), 13);
    assert_eq!(lines[0], "");
    assert_eq!(lines[2], bar);
    assert_eq!(
        lines[3],
        format!(
            "{}   \x1b[1;93mInput\x1b[0m : \x1b[1;97mapt (Debian/Ubuntu) update\x1b[0m",
            bar
        )
    );
    assert_eq!(
        lines[4],
        format!("{}   \x1b[1;92mArch/Parch\x1b[0m : \x1b[1;4;92mparu -Sy\x1b[0m", bar)
    );
    assert_eq!(
        lines[6],
        format!("{}   \x1b[1;46;30m EN \x1b[0m  \x1b[97m{}\x1b[0m", bar, res.notes_en)
    );
    assert_eq!(
        lines[7],
        format!(
            "{}   \x1b[1;42;30m FA \x1b[0m  \x1b[96m\u{2067}{}\u{2069}\x1b[0m",
            bar, res.notes_fa
        )
    );
    assert_eq!(lines[8], bar);
    assert_eq!(
        lines[9],
        format!(
            "{}   \x1b[1;91mWarning\x1b[0m : \x1b[1;91m{}\x1b[0m",
            bar,
            res.warning.clone().unwrap()
        )
    );
    assert_eq!(lines[10], bar);
    assert_eq!(lines[11], format!("\x1b[94m╰{}╯\x1b[0m", "─".repeat(60)));
    assert!(lines[1].starts_with("\x1b[94m╭─── \x1b[1;94m❬\x1b[0m\x1b[94m \x1b[1;96mParch Linux Command Helper\x1b[0m"));
    assert_eq!(lines[12], "");
}

#[test]
fn colored_box_language_choice() {
    colored::control::set_override(true);
    let ctx = ctx_with(SourceManager::Apt, &["install", "htop"], Some("minimal"));
    let mut cfg = Config::default();
    cfg.general.language = "en".to_string();
    let res = translate(&ctx, &cfg);
    let lines = BoxRenderer::render_in(&ctx, &res, &cfg, 48);
    assert_eq!(lines.len(), 10);
    assert!(lines[6].contains("[EN]"));
    cfg.general.language = "fa".to_string();
    cfg.general.bidi_isolation = false;
    let lines = BoxRenderer::render_in(&ctx, &res, &cfg, 48);
    assert_eq!(lines.len(), 10);
    assert!(lines[6].contains("[FA]"));
    assert!(!lines[6].contains('\u{2067}'));
}
