//! macOS Homebrew: `brew`.
use super::mapper::{brew_name, PkgMappings};
use super::{
    OpView, PacmanOp, TranslationResult, TranslationView, clean_result, clean_translation, helper_op,
    helper_op_result, info_result, info_translation, joined_install_result, joined_install_translation,
    operands, operands_of, other_result, other_translation, remove_result, remove_translation, search_result,
    search_translation,
};
use crate::config::Config;
use crate::strs::{cat, lookup, lookup_text, str_eq, text};
use vstd::prelude::*;

verus! {

/// The Arch name of a Homebrew formula: the user's override, else the tables.
pub open spec fn brew_pkg_name(
    ov: Seq<(Seq<char>, Seq<char>)>,
    maps: Seq<(Seq<char>, Seq<char>)>,
    name: Seq<char>,
) -> Seq<char> {
    match lookup(ov, name) {
        Some(c) => c,
        None => brew_name(maps, name),
    }
}

/// The translated names of the operands.
pub open spec fn brew_pkgs(
    rest: Seq<Seq<char>>,
    ov: Seq<(Seq<char>, Seq<char>)>,
    maps: Seq<(Seq<char>, Seq<char>)>,
) -> Seq<Seq<char>> {
    let ops = operands(rest);
    Seq::new(ops.len(), |i: int| brew_pkg_name(ov, maps, ops[i]))
}

/// `brew <sub> <rest>` for a subcommand `sub`.
pub open spec fn brew_sub_spec(
    sub: Seq<char>,
    rest: Seq<Seq<char>>,
    h: Seq<char>,
    ov: Seq<(Seq<char>, Seq<char>)>,
    maps: Seq<(Seq<char>, Seq<char>)>,
) -> TranslationView {
    if sub == "update"@ {
        helper_op(
            h,
            "-Sy"@,
            OpView::SyncRefresh { force: false },
            "Updates package database."@,
            "به‌روزرسانی لیست مخازن."@,
            Some("Warning: Running -Sy without upgrade can lead to broken packages."@),
        )
    } else if sub == "upgrade"@ {
        helper_op(
            h,
            "-Syu"@,
            OpView::SyncUpgrade { noconfirm: false, download_only: false },
            "Full package and system upgrade."@,
            "ارتقای تمام بسته‌های سیستم."@,
            None,
        )
    } else if sub == "install"@ {
        joined_install_result(
            h,
            brew_pkgs(rest, ov, maps),
            false,
            "Installs package(s) via Arch / AUR ("@ + h + ")."@,
            "نصب بسته(ها) با استفاده از "@ + h + "."@,
            None,
        )
    } else if sub == "uninstall"@ || sub == "remove"@ {
        remove_result(
            "-Rns"@,
            operands(rest),
            false,
            true,
            true,
            "Uninstalls package and unneeded dependencies."@,
            "حذف کامل پکیج و وابستگی‌ها."@,
        )
    } else if sub == "search"@ {
        search_result(h, rest, "Searches package database."@, "جستجوی بسته در مخازن."@)
    } else if sub == "info"@ {
        info_result(rest, "Shows package information."@, "مشاهده مشخصات پکیج."@)
    } else if sub == "cleanup"@ {
        clean_result("Cleans cached download files."@, "پاکسازی فایل‌های کش."@)
    } else {
        other_result(sub, "Attempting pacman operation for '"@)
    }
}

/// The translation of `brew <args>`; no arguments mean a full upgrade.
pub open spec fn brew_spec(
    args: Seq<Seq<char>>,
    h: Seq<char>,
    ov: Seq<(Seq<char>, Seq<char>)>,
    maps: Seq<(Seq<char>, Seq<char>)>,
) -> TranslationView {
    if args.len() == 0 {
        helper_op(
            h,
            "-Syu"@,
            OpView::SyncUpgrade { noconfirm: false, download_only: false },
            "Running system upgrade (Homebrew 'brew' -> Arch 'pacman')."@,
            "ارتقای سیستم (تبدیل دستور brew به پَک‌من)."@,
            None,
        )
    } else {
        brew_sub_spec(args[0], args.drop_first(), h, ov, maps)
    }
}

fn brew_install_pkgs(rest: &[String], config: &Config, maps: &PkgMappings) -> (r: Vec<String>)
    ensures
        r.deep_view() == brew_pkgs(rest.deep_view(), config.overrides(), maps.brew_table()),
{
    let ops = operands_of(rest);
    let ghost ov = config.overrides();
    let ghost mt = maps.brew_table();
    let n = ops.len();
    let mut pkgs: Vec<String> = Vec::new();
    let mut i: usize = 0;
    while i < n
        invariant
            n == ops@.len(),
            ov == config.overrides(),
            mt == maps.brew_table(),
            i <= n,
            pkgs@.len() == i,
            forall|j: int| 0 <= j < i ==> pkgs@[j]@ == brew_pkg_name(ov, mt, ops@[j]@),
        decreases n - i,
    {
        let name = ops[i].as_str();
        let mapped = match lookup_text(config.package_overrides.as_slice(), name) {
            Some(custom) => custom,
            None => maps.translate_brew_pkg(name),
        };
        pkgs.push(mapped);
        i += 1;
    }
    assert(pkgs.deep_view() =~= brew_pkgs(rest.deep_view(), ov, mt));
    pkgs
}

fn brew_sub(sub: &str, rest: &[String], config: &Config, maps: &PkgMappings) -> (r: TranslationResult)
    ensures
        r@ == brew_sub_spec(sub@, rest.deep_view(), config.general.helper@, config.overrides(), maps.brew_table()),
{
    let h = config.general.helper.as_str();
    if str_eq(sub, "update") {
        helper_op_result(
            h,
            "-Sy",
            PacmanOp::SyncRefresh { force: false },
            text("Updates package database."),
            text("به‌روزرسانی لیست مخازن."),
            Some(text("Warning: Running -Sy without upgrade can lead to broken packages.")),
        )
    } else if str_eq(sub, "upgrade") {
        helper_op_result(
            h,
            "-Syu",
            PacmanOp::SyncUpgrade { noconfirm: false, download_only: false },
            text("Full package and system upgrade."),
            text("ارتقای تمام بسته‌های سیستم."),
            None,
        )
    } else if str_eq(sub, "install") {
        let pkgs = brew_install_pkgs(rest, config, maps);
        let mut en = cat("Installs package(s) via Arch / AUR (", h);
        en.append(").");
        let mut fa = cat("نصب بسته(ها) با استفاده از ", h);
        fa.append(".");
        joined_install_translation(h, pkgs, false, en, fa, None)
    } else if str_eq(sub, "uninstall") || str_eq(sub, "remove") {
        remove_translation(
            "-Rns",
            operands_of(rest),
            false,
            true,
            true,
            text("Uninstalls package and unneeded dependencies."),
            text("حذف کامل پکیج و وابستگی‌ها."),
        )
    } else if str_eq(sub, "search") {
        search_translation(h, rest, text("Searches package database."), text("جستجوی بسته در مخازن."))
    } else if str_eq(sub, "info") {
        info_translation(rest, text("Shows package information."), text("مشاهده مشخصات پکیج."))
    } else if str_eq(sub, "cleanup") {
        clean_translation(text("Cleans cached download files."), text("پاکسازی فایل‌های کش."))
    } else {
        other_translation(sub, "Attempting pacman operation for '")
    }
}

/// Translates `brew` arguments.
pub fn translate_brew(args: &[String], config: &Config) -> (r: TranslationResult)
    ensures
        r@ == brew_spec(args.deep_view(), config.general.helper@, config.overrides(), super::mapper::builtin_brew()),
{
    let helper = config.general.helper.as_str();
    let mappings = PkgMappings::global();
    if args.len() == 0 {
        return helper_op_result(
            helper,
            "-Syu",
            PacmanOp::SyncUpgrade { noconfirm: false, download_only: false },
            text("Running system upgrade (Homebrew 'brew' -> Arch 'pacman')."),
            text("ارتقای سیستم (تبدیل دستور brew به پَک‌من)."),
            None,
        );
    }
    let rest = vstd::slice::slice_subrange(args, 1, args.len());
    assert(rest.deep_view() =~= args.deep_view().drop_first());
    brew_sub(args[0].as_str(), rest, config, &mappings)
}

} // verus!
