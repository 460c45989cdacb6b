//! Alpine Linux: `apk`.
use super::mapper::{alpine_name, PkgMappings};
use super::{
    OpView, PacmanOp, TranslationResult, TranslationView, helper_op, helper_op_result, info_result,
    info_translation, install_result, install_translation, operands, operands_of, other_result,
    other_translation, remove_result, remove_translation, search_result, search_translation,
};
use crate::config::Config;
use crate::strs::{cat, lookup, lookup_text, str_eq, text};
use vstd::prelude::*;

verus! {

/// The Arch name of an Alpine package: the user's override, else the tables.
pub open spec fn apk_pkg_name(
    ov: Seq<(Seq<char>, Seq<char>)>,
    maps: Seq<(Seq<char>, Seq<char>)>,
    name: Seq<char>,
) -> Seq<char> {
    match lookup(ov, name) {
        Some(c) => c,
        None => alpine_name(maps, name),
    }
}

/// The translated names of the operands.
pub open spec fn apk_pkgs(
    rest: Seq<Seq<char>>,
    ov: Seq<(Seq<char>, Seq<char>)>,
    maps: Seq<(Seq<char>, Seq<char>)>,
) -> Seq<Seq<char>> {
    let ops = operands(rest);
    Seq::new(ops.len(), |i: int| apk_pkg_name(ov, maps, ops[i]))
}

/// `apk <sub> <rest>` for a subcommand `sub`.
pub open spec fn apk_sub_spec(
    sub: Seq<char>,
    rest: Seq<Seq<char>>,
    h: Seq<char>,
    ov: Seq<(Seq<char>, Seq<char>)>,
    maps: Seq<(Seq<char>, Seq<char>)>,
) -> TranslationView {
    if sub == "update"@ {
        helper_op(
            h,
            "-Sy"@,
            OpView::SyncRefresh { force: false },
            "Updates the package index."@,
            "به‌روزرسانی فهرست بسته‌ها."@,
            Some("Warning: -Sy alone may cause partial upgrades on Arch."@),
        )
    } else if sub == "upgrade"@ {
        helper_op(
            h,
            "-Syu"@,
            OpView::SyncUpgrade { noconfirm: false, download_only: false },
            "Full system upgrade."@,
            "ارتقای کلی سیستم."@,
            None,
        )
    } else if sub == "add"@ {
        install_result(
            h,
            "-S"@,
            apk_pkgs(rest, ov, maps),
            false,
            false,
            "Installs package(s) via Arch / AUR ("@ + h + ")."@,
            "نصب بسته(ها) با استفاده از "@ + h + "."@,
        )
    } else if sub == "del"@ {
        remove_result(
            "-Rns"@,
            operands(rest),
            false,
            true,
            true,
            "Removes package and unneeded dependencies."@,
            "حذف پکیج و وابستگی‌ها."@,
        )
    } else if sub == "search"@ {
        search_result(h, rest, "Searches package database."@, "جستجوی بسته در مخازن."@)
    } else if sub == "info"@ {
        info_result(rest, "Displays package details."@, "نمایش اطلاعات پکیج."@)
    } else {
        other_result(sub, "Attempting pacman operation for '"@)
    }
}

/// The translation of `apk <args>`; no arguments mean a full upgrade.
pub open spec fn apk_spec(
    args: Seq<Seq<char>>,
    h: Seq<char>,
    ov: Seq<(Seq<char>, Seq<char>)>,
    maps: Seq<(Seq<char>, Seq<char>)>,
) -> TranslationView {
    if args.len() == 0 {
        helper_op(
            h,
            "-Syu"@,
            OpView::SyncUpgrade { noconfirm: false, download_only: false },
            "Running system upgrade (Alpine 'apk' -> Arch 'pacman')."@,
            "ارتقای سیستم (تبدیل دستور apk به پَک‌من)."@,
            None,
        )
    } else {
        apk_sub_spec(args[0], args.drop_first(), h, ov, maps)
    }
}

fn apk_add_pkgs(rest: &[String], config: &Config, maps: &PkgMappings) -> (r: Vec<String>)
    ensures
        r.deep_view() == apk_pkgs(rest.deep_view(), config.overrides(), maps.alpine_table()),
{
    let ops = operands_of(rest);
    let ghost ov = config.overrides();
    let ghost mt = maps.alpine_table();
    let n = ops.len();
    let mut pkgs: Vec<String> = Vec::new();
    let mut i: usize = 0;
    while i < n
        invariant
            n == ops@.len(),
            ov == config.overrides(),
            mt == maps.alpine_table(),
            i <= n,
            pkgs@.len() == i,
            forall|j: int| 0 <= j < i ==> pkgs@[j]@ == apk_pkg_name(ov, mt, ops@[j]@),
        decreases n - i,
    {
        let name = ops[i].as_str();
        let mapped = match lookup_text(config.package_overrides.as_slice(), name) {
            Some(custom) => custom,
            None => maps.translate_alpine_pkg(name),
        };
        pkgs.push(mapped);
        i += 1;
    }
    assert(pkgs.deep_view() =~= apk_pkgs(rest.deep_view(), ov, mt));
    pkgs
}

fn apk_sub(sub: &str, rest: &[String], config: &Config, maps: &PkgMappings) -> (r: TranslationResult)
    ensures
        r@ == apk_sub_spec(sub@, rest.deep_view(), config.general.helper@, config.overrides(), maps.alpine_table()),
{
    let h = config.general.helper.as_str();
    if str_eq(sub, "update") {
        helper_op_result(
            h,
            "-Sy",
            PacmanOp::SyncRefresh { force: false },
            text("Updates the package index."),
            text("به‌روزرسانی فهرست بسته‌ها."),
            Some(text("Warning: -Sy alone may cause partial upgrades on Arch.")),
        )
    } else if str_eq(sub, "upgrade") {
        helper_op_result(
            h,
            "-Syu",
            PacmanOp::SyncUpgrade { noconfirm: false, download_only: false },
            text("Full system upgrade."),
            text("ارتقای کلی سیستم."),
            None,
        )
    } else if str_eq(sub, "add") {
        let pkgs = apk_add_pkgs(rest, config, maps);
        let mut en = cat("Installs package(s) via Arch / AUR (", h);
        en.append(").");
        let mut fa = cat("نصب بسته(ها) با استفاده از ", h);
        fa.append(".");
        install_translation(h, "-S", pkgs, false, false, en, fa)
    } else if str_eq(sub, "del") {
        remove_translation(
            "-Rns",
            operands_of(rest),
            false,
            true,
            true,
            text("Removes package and unneeded dependencies."),
            text("حذف پکیج و وابستگی‌ها."),
        )
    } else if str_eq(sub, "search") {
        search_translation(h, rest, text("Searches package database."), text("جستجوی بسته در مخازن."))
    } else if str_eq(sub, "info") {
        info_translation(rest, text("Displays package details."), text("نمایش اطلاعات پکیج."))
    } else {
        other_translation(sub, "Attempting pacman operation for '")
    }
}

/// Translates `apk` arguments. The set of subcommands handled and their
/// texts are this library's own design for Alpine, on the scheme the other
/// managers use (`add` installs, `del` removes, `update` refreshes, …).
pub fn translate_apk(args: &[String], config: &Config) -> (r: TranslationResult)
    ensures
        r@ == apk_spec(args.deep_view(), config.general.helper@, config.overrides(), super::mapper::builtin_alpine()),
{
    let helper = config.general.helper.as_str();
    let mappings = PkgMappings::global();
    if args.len() == 0 {
        return helper_op_result(
            helper,
            "-Syu",
            PacmanOp::SyncUpgrade { noconfirm: false, download_only: false },
            text("Running system upgrade (Alpine 'apk' -> Arch 'pacman')."),
            text("ارتقای سیستم (تبدیل دستور apk به پَک‌من)."),
            None,
        );
    }
    let rest = vstd::slice::slice_subrange(args, 1, args.len());
    assert(rest.deep_view() =~= args.deep_view().drop_first());
    apk_sub(args[0].as_str(), rest, config, &mappings)
}

} // verus!
