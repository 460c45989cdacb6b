//! openSUSE: `zypper`.
use super::mapper::{zypper_name, PkgMappings};
use super::{
    OpView, PacmanOp, TranslationResult, TranslationView, helper_op, helper_op_result, info_result,
    info_translation, install_result, install_translation, operands, operands_of, other_result,
    other_translation, remove_result, remove_translation, search_result, search_translation, upgrade_result,
    upgrade_translation,
};
use crate::config::Config;
use crate::strs::{cat, contains_text, has_text, is_flag, is_flag_text, lookup, lookup_text, str_eq, text};
use vstd::prelude::*;

verus! {

/// The Arch name of an openSUSE package: the user's override, else the tables.
pub open spec fn zypper_pkg_name(
    ov: Seq<(Seq<char>, Seq<char>)>,
    maps: Seq<(Seq<char>, Seq<char>)>,
    name: Seq<char>,
) -> Seq<char> {
    match lookup(ov, name) {
        Some(c) => c,
        None => zypper_name(maps, name),
    }
}

/// The packages named by the arguments of `zypper install`, translated.
pub open spec fn zypper_pkgs(
    rest: Seq<Seq<char>>,
    ov: Seq<(Seq<char>, Seq<char>)>,
    maps: Seq<(Seq<char>, Seq<char>)>,
) -> Seq<Seq<char>>
    decreases rest.len(),
{
    if rest.len() == 0 {
        Seq::empty()
    } else {
        let p = zypper_pkgs(rest.drop_last(), ov, maps);
        let a = rest.last();
        if a == "-y"@ || a == "--non-interactive"@ || is_flag(a) {
            p
        } else {
            p.push(zypper_pkg_name(ov, maps, a))
        }
    }
}

/// `zypper <sub> <rest>` for a subcommand `sub`.
pub open spec fn zypper_sub_spec(
    sub: Seq<char>,
    rest: Seq<Seq<char>>,
    h: Seq<char>,
    ov: Seq<(Seq<char>, Seq<char>)>,
    maps: Seq<(Seq<char>, Seq<char>)>,
) -> TranslationView {
    let yes = has_text(rest, "-y"@) || has_text(rest, "--non-interactive"@);
    if sub == "ref"@ || sub == "refresh"@ {
        helper_op(
            h,
            "-Sy"@,
            OpView::SyncRefresh { force: false },
            "Refreshes repository metadata."@,
            "به‌روزرسانی کش و متادیتای مخازن."@,
            Some("Warning: -Sy alone may cause partial upgrades on Arch."@),
        )
    } else if sub == "dup"@ || sub == "dist-upgrade"@ || sub == "up"@ || sub == "update"@ {
        upgrade_result(h, "-Syu"@, yes, false, "Full distribution upgrade."@, "ارتقای کلی سیستم."@)
    } else if sub == "in"@ || sub == "install"@ {
        install_result(
            h,
            "-S"@,
            zypper_pkgs(rest, ov, maps),
            yes,
            false,
            "Installs package(s) via Arch / AUR ("@ + h + ")."@,
            "نصب بسته(ها) با استفاده از "@ + h + "."@,
        )
    } else if sub == "rm"@ || sub == "remove"@ {
        remove_result(
            "-Rns"@,
            operands(rest),
            false,
            true,
            true,
            "Removes package and unneeded dependencies."@,
            "حذف پکیج و وابستگی‌ها."@,
        )
    } else if sub == "se"@ || sub == "search"@ {
        search_result(h, rest, "Searches package database."@, "جستجوی بسته در مخازن."@)
    } else if sub == "info"@ {
        info_result(rest, "Displays package details."@, "نمایش اطلاعات پکیج."@)
    } else {
        other_result(sub, "Attempting pacman operation for '"@)
    }
}

/// The translation of `zypper <args>`; no arguments mean a full upgrade.
pub open spec fn zypper_spec(
    args: Seq<Seq<char>>,
    h: Seq<char>,
    ov: Seq<(Seq<char>, Seq<char>)>,
    maps: Seq<(Seq<char>, Seq<char>)>,
) -> TranslationView {
    if args.len() == 0 {
        helper_op(
            h,
            "-Syu"@,
            OpView::SyncUpgrade { noconfirm: false, download_only: false },
            "Running system upgrade (openSUSE 'zypper' -> Arch 'pacman')."@,
            "ارتقای سیستم (تبدیل دستور zypper به پَک‌من)."@,
            None,
        )
    } else {
        zypper_sub_spec(args[0], args.drop_first(), h, ov, maps)
    }
}

fn zypper_install_pkgs(rest: &[String], config: &Config, maps: &PkgMappings) -> (r: Vec<String>)
    ensures
        r.deep_view() == zypper_pkgs(rest.deep_view(), config.overrides(), maps.zypper_table()),
{
    let ghost rv = rest.deep_view();
    let ghost ov = config.overrides();
    let ghost mt = maps.zypper_table();
    let mut pkgs: Vec<String> = Vec::new();
    let n = rest.len();
    let mut i: usize = 0;
    while i < n
        invariant
            n == rest@.len(),
            rv == rest.deep_view(),
            ov == config.overrides(),
            mt == maps.zypper_table(),
            i <= n,
            pkgs@.len() == zypper_pkgs(rv.subrange(0, i as int), ov, mt).len(),
            forall|j: int|
                0 <= j < pkgs@.len() ==> pkgs@[j]@ == zypper_pkgs(rv.subrange(0, i as int), ov, mt)[j],
        decreases n - i,
    {
        assert(rv.subrange(0, i + 1).drop_last() =~= rv.subrange(0, i as int));
        assert(rv.subrange(0, i + 1).last() == rest@[i as int]@);
        let arg = rest[i].as_str();
        if !(str_eq(arg, "-y") || str_eq(arg, "--non-interactive")) && !is_flag_text(arg) {
            let mapped = match lookup_text(config.package_overrides.as_slice(), arg) {
                Some(custom) => custom,
                None => maps.translate_zypper_pkg(arg),
            };
            pkgs.push(mapped);
        }
        i += 1;
    }
    assert(rv.subrange(0, n as int) =~= rv);
    assert(pkgs.deep_view() =~= zypper_pkgs(rv, ov, mt));
    pkgs
}

fn zypper_sub(sub: &str, rest: &[String], config: &Config, maps: &PkgMappings) -> (r: TranslationResult)
    ensures
        r@ == zypper_sub_spec(sub@, rest.deep_view(), config.general.helper@, config.overrides(), maps.zypper_table()),
{
    let h = config.general.helper.as_str();
    let yes = contains_text(rest, "-y") || contains_text(rest, "--non-interactive");
    if str_eq(sub, "ref") || str_eq(sub, "refresh") {
        helper_op_result(
            h,
            "-Sy",
            PacmanOp::SyncRefresh { force: false },
            text("Refreshes repository metadata."),
            text("به‌روزرسانی کش و متادیتای مخازن."),
            Some(text("Warning: -Sy alone may cause partial upgrades on Arch.")),
        )
    } else if str_eq(sub, "dup") || str_eq(sub, "dist-upgrade") || str_eq(sub, "up") || str_eq(sub, "update") {
        upgrade_translation(h, "-Syu", yes, false, text("Full distribution upgrade."), text("ارتقای کلی سیستم."))
    } else if str_eq(sub, "in") || str_eq(sub, "install") {
        let pkgs = zypper_install_pkgs(rest, config, maps);
        let mut en = cat("Installs package(s) via Arch / AUR (", h);
        en.append(").");
        let mut fa = cat("نصب بسته(ها) با استفاده از ", h);
        fa.append(".");
        install_translation(h, "-S", pkgs, yes, false, en, fa)
    } else if str_eq(sub, "rm") || str_eq(sub, "remove") {
        remove_translation(
            "-Rns",
            operands_of(rest),
            false,
            true,
            true,
            text("Removes package and unneeded dependencies."),
            text("حذف پکیج و وابستگی‌ها."),
        )
    } else if str_eq(sub, "se") || str_eq(sub, "search") {
        search_translation(h, rest, text("Searches package database."), text("جستجوی بسته در مخازن."))
    } else if str_eq(sub, "info") {
        info_translation(rest, text("Displays package details."), text("نمایش اطلاعات پکیج."))
    } else {
        other_translation(sub, "Attempting pacman operation for '")
    }
}

/// Translates `zypper` arguments.
pub fn translate_zypper(args: &[String], config: &Config) -> (r: TranslationResult)
    ensures
        r@ == zypper_spec(
            args.deep_view(),
            config.general.helper@,
            config.overrides(),
            super::mapper::builtin_zypper(),
        ),
{
    let helper = config.general.helper.as_str();
    let mappings = PkgMappings::global();
    if args.len() == 0 {
        return helper_op_result(
            helper,
            "-Syu",
            PacmanOp::SyncUpgrade { noconfirm: false, download_only: false },
            text("Running system upgrade (openSUSE 'zypper' -> Arch 'pacman')."),
            text("ارتقای سیستم (تبدیل دستور zypper به پَک‌من)."),
            None,
        );
    }
    let rest = vstd::slice::slice_subrange(args, 1, args.len());
    assert(rest.deep_view() =~= args.deep_view().drop_first());
    zypper_sub(args[0].as_str(), rest, config, &mappings)
}

} // verus!
