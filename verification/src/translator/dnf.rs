//! Fedora / RHEL / CentOS: `dnf`, `yum`.
use super::mapper::{fedora_name, PkgMappings};
use super::{
    OpView, PacmanOp, TranslationResult, TranslationView, checkupdates_result, checkupdates_translation,
    clean_result, clean_translation, helper_op, helper_op_result, info_result, info_translation,
    install_result, install_translation, operands, operands_of, orphans_result, orphans_translation,
    other_result, other_translation, remove_result, remove_translation, search_result, search_translation,
    texts2, tv, upgrade_result, upgrade_translation, first_or_empty, first_or_empty_text,
};
use crate::config::Config;
use crate::strs::{
    cat, contains_char, contains_text, ends_with, has_char, has_suffix, has_text, is_flag, is_flag_text, join,
    join_texts, lookup, lookup_text, split_once, split_once_char, str_eq, text,
};
use vstd::prelude::*;

verus! {

/// What the arguments of `dnf install` ask for.
pub struct DnfScan {
    pub pkgs: Seq<Seq<char>>,
    pub has_rpm: bool,
    pub noconfirm: bool,
    pub download_only: bool,
}

/// The package name without an architecture suffix (`pkg.x86_64`): the part
/// before the first `.` when it holds a `-` or is longer than two bytes.
pub open spec fn without_arch(a: Seq<char>) -> Seq<char> {
    match split_once(a, '.') {
        Some((base, _)) => if has_char(base, '-') || (vstd::utf8::encode_utf8(base).len() as usize) > 2 {
            base
        } else {
            a
        },
        None => a,
    }
}

/// The Arch name of a Fedora package: the user's override, else the tables.
pub open spec fn dnf_pkg_name(
    ov: Seq<(Seq<char>, Seq<char>)>,
    maps: Seq<(Seq<char>, Seq<char>)>,
    name: Seq<char>,
) -> Seq<char> {
    match lookup(ov, name) {
        Some(c) => c,
        None => fedora_name(maps, name),
    }
}

/// Reads the arguments of `dnf install` from left to right.
pub open spec fn dnf_scan(
    rest: Seq<Seq<char>>,
    ov: Seq<(Seq<char>, Seq<char>)>,
    maps: Seq<(Seq<char>, Seq<char>)>,
) -> DnfScan
    decreases rest.len(),
{
    if rest.len() == 0 {
        DnfScan { pkgs: Seq::empty(), has_rpm: false, noconfirm: false, download_only: false }
    } else {
        let s = dnf_scan(rest.drop_last(), ov, maps);
        let a = rest.last();
        if a == "-y"@ || a == "--assumeyes"@ {
            DnfScan { pkgs: s.pkgs, has_rpm: s.has_rpm, noconfirm: true, download_only: s.download_only }
        } else if a == "--downloadonly"@ {
            DnfScan { pkgs: s.pkgs, has_rpm: s.has_rpm, noconfirm: s.noconfirm, download_only: true }
        } else if has_suffix(a, ".rpm"@) {
            DnfScan { pkgs: s.pkgs.push(a), has_rpm: true, noconfirm: s.noconfirm, download_only: s.download_only }
        } else if !is_flag(a) {
            DnfScan {
                pkgs: s.pkgs.push(dnf_pkg_name(ov, maps, without_arch(a))),
                has_rpm: s.has_rpm,
                noconfirm: s.noconfirm,
                download_only: s.download_only,
            }
        } else {
            s
        }
    }
}

/// `dnf install ...`.
pub open spec fn dnf_install_spec(
    rest: Seq<Seq<char>>,
    h: Seq<char>,
    ov: Seq<(Seq<char>, Seq<char>)>,
    maps: Seq<(Seq<char>, Seq<char>)>,
) -> TranslationView {
    let s = dnf_scan(rest, ov, maps);
    if s.has_rpm {
        tv(
            "rpmextract "@ + join(s.pkgs, " "@),
            "rpmextract"@,
            s.pkgs,
            OpView::RpmExtract { files: s.pkgs },
            false,
            true,
            ".rpm files require extraction or finding native AUR packages."@,
            "فایل‌های .rpm باید با rpmextract استخراج شوند یا از مخزن AUR نصب گردند."@,
            Some("Direct .rpm installation is not supported by pacman."@),
        )
    } else if s.pkgs.len() == 0 {
        helper_op(
            h,
            "-S"@,
            OpView::SyncInstall { pkgs: Seq::empty(), noconfirm: false, as_deps: false, download_only: false },
            "Pacman install command."@,
            "دستور نصب بسته با پَک‌من."@,
            None,
        )
    } else {
        install_result(
            h,
            if s.download_only { "-Sw"@ } else { "-S"@ },
            s.pkgs,
            s.noconfirm,
            s.download_only,
            "Installs package(s) via Arch repos / AUR ("@ + h + ")."@,
            "نصب بسته(ها) با استفاده از "@ + h + "."@,
        )
    }
}

/// `dnf <sub> <rest>` for a subcommand `sub`.
pub open spec fn dnf_sub_spec(
    sub: Seq<char>,
    rest: Seq<Seq<char>>,
    h: Seq<char>,
    ov: Seq<(Seq<char>, Seq<char>)>,
    maps: Seq<(Seq<char>, Seq<char>)>,
) -> TranslationView {
    let yes = has_text(rest, "-y"@) || has_text(rest, "--assumeyes"@);
    if sub == "check-update"@ {
        checkupdates_result("Safely checks for available repository updates."@, "بررسی امن به‌روزرسانی‌های موجود در مخازن."@)
    } else if sub == "upgrade"@ || sub == "update"@ {
        let d = has_text(rest, "--downloadonly"@);
        upgrade_result(
            h,
            if d { "-Syuw"@ } else { "-Syu"@ },
            yes,
            d,
            "Full system upgrade (repos + AUR)."@,
            "به‌روزرسانی کامل سیستم و تمام پکیج‌ها."@,
        )
    } else if sub == "install"@ || sub == "in"@ {
        dnf_install_spec(rest, h, ov, maps)
    } else if sub == "remove"@ || sub == "erase"@ {
        remove_result(
            "-Rns"@,
            operands(rest),
            yes,
            true,
            true,
            "Removes package and unneeded dependencies."@,
            "حذف بسته به همراه وابستگی‌های بدون مصرف."@,
        )
    } else if sub == "autoremove"@ {
        orphans_result(yes, "Removes orphaned packages."@, "حذف پکیج‌های بی‌استفاده و یتیم."@)
    } else if sub == "search"@ {
        search_result(h, rest, "Searches package database."@, "جستجوی بسته در مخازن."@)
    } else if sub == "info"@ {
        info_result(rest, "Displays package details."@, "مشاهده جزییات و مشخصات پکیج."@)
    } else if sub == "clean"@ {
        clean_result("Cleans cached package archives."@, "پاکسازی کش بسته‌ها."@)
    } else if sub == "provides"@ {
        let f = first_or_empty(rest);
        tv(
            "pacman -F "@ + f,
            "pacman"@,
            seq!["-F"@, f],
            OpView::FileSearch { query: f },
            false,
            false,
            "Finds which package provides a specific file (requires 'pacman -Fy')."@,
            "پیدا کردن بسته‌ای که فایل مورد نظر را ارائه می‌دهد."@,
            None,
        )
    } else {
        other_result(sub, "Attempting pacman operation for '"@)
    }
}

/// The translation of `dnf <args>` (and `yum <args>`); no arguments mean a full upgrade.
pub open spec fn dnf_spec(
    args: Seq<Seq<char>>,
    h: Seq<char>,
    ov: Seq<(Seq<char>, Seq<char>)>,
    maps: Seq<(Seq<char>, Seq<char>)>,
) -> TranslationView {
    if args.len() == 0 {
        helper_op(
            h,
            "-Syu"@,
            OpView::SyncUpgrade { noconfirm: false, download_only: false },
            "Running pacman system upgrade. In Parch, pacman/paru replaces DNF/YUM."@,
            "اجرای به‌روزرسانی سیستم. در پارچ از پَک‌من یا پارو به جای DNF استفاده می‌شود."@,
            None,
        )
    } else {
        dnf_sub_spec(args[0], args.drop_first(), h, ov, maps)
    }
}

fn dnf_install(rest: &[String], config: &Config, maps: &PkgMappings) -> (r: TranslationResult)
    ensures
        r@ == dnf_install_spec(rest.deep_view(), config.general.helper@, config.overrides(), maps.fedora_table()),
{
    let ghost rv = rest.deep_view();
    let ghost ov = config.overrides();
    let ghost mt = maps.fedora_table();
    let helper = config.general.helper.as_str();
    let mut pkgs: Vec<String> = Vec::new();
    let mut has_rpm = false;
    let mut noconfirm = false;
    let mut download_only = false;
    let n = rest.len();
    let mut i: usize = 0;
    while i < n
        invariant
            n == rest@.len(),
            rv == rest.deep_view(),
            ov == config.overrides(),
            mt == maps.fedora_table(),
            i <= n,
            ({
                let s = dnf_scan(rv.subrange(0, i as int), ov, mt);
                &&& s.has_rpm == has_rpm
                &&& s.noconfirm == noconfirm
                &&& s.download_only == download_only
                &&& pkgs@.len() == s.pkgs.len()
                &&& forall|j: int| 0 <= j < s.pkgs.len() ==> pkgs@[j]@ == s.pkgs[j]
            }),
        decreases n - i,
    {
        assert(rv.subrange(0, i + 1).drop_last() =~= rv.subrange(0, i as int));
        assert(rv.subrange(0, i + 1).last() == rest@[i as int]@);
        let arg = rest[i].as_str();
        if str_eq(arg, "-y") || str_eq(arg, "--assumeyes") {
            noconfirm = true;
        } else if str_eq(arg, "--downloadonly") {
            download_only = true;
        } else if ends_with(arg, ".rpm") {
            has_rpm = true;
            pkgs.push(text(arg));
        } else if !is_flag_text(arg) {
            let clean = match split_once_char(arg, '.') {
                Some((base, _)) => {
                    if contains_char(base.as_str(), '-') || base.as_str().len() > 2 {
                        base
                    } else {
                        text(arg)
                    }
                },
                None => text(arg),
            };
            let mapped = match lookup_text(config.package_overrides.as_slice(), clean.as_str()) {
                Some(custom) => custom,
                None => maps.translate_fedora_pkg(clean.as_str()),
            };
            pkgs.push(mapped);
        }
        i += 1;
    }
    assert(rv.subrange(0, n as int) =~= rv);
    let ghost s = dnf_scan(rv, ov, mt);
    assert(pkgs.deep_view() =~= s.pkgs);
    if has_rpm {
        return TranslationResult {
            command: cat("rpmextract ", join_texts(pkgs.as_slice(), " ").as_str()),
            exec_binary: text("rpmextract"),
            exec_args: crate::strs::copy_texts(pkgs.as_slice()),
            op: PacmanOp::RpmExtract { files: pkgs },
            needs_root: false,
            needs_aur: true,
            notes_en: text(".rpm files require extraction or finding native AUR packages."),
            notes_fa: text("فایل‌های .rpm باید با rpmextract استخراج شوند یا از مخزن AUR نصب گردند."),
            warning: Some(text("Direct .rpm installation is not supported by pacman.")),
        };
    }
    if pkgs.len() == 0 {
        return helper_op_result(
            helper,
            "-S",
            PacmanOp::SyncInstall { pkgs: super::no_texts(), noconfirm: false, as_deps: false, download_only: false },
            text("Pacman install command."),
            text("دستور نصب بسته با پَک‌من."),
            None,
        );
    }
    let flag = if download_only { "-Sw" } else { "-S" };
    let mut en = cat("Installs package(s) via Arch repos / AUR (", helper);
    en.append(").");
    let mut fa = cat("نصب بسته(ها) با استفاده از ", helper);
    fa.append(".");
    install_translation(helper, flag, pkgs, noconfirm, download_only, en, fa)
}

fn dnf_sub(sub: &str, rest: &[String], config: &Config, maps: &PkgMappings) -> (r: TranslationResult)
    ensures
        r@ == dnf_sub_spec(sub@, rest.deep_view(), config.general.helper@, config.overrides(), maps.fedora_table()),
{
    let h = config.general.helper.as_str();
    let yes = contains_text(rest, "-y") || contains_text(rest, "--assumeyes");
    if str_eq(sub, "check-update") {
        checkupdates_translation(
            text("Safely checks for available repository updates."),
            text("بررسی امن به‌روزرسانی‌های موجود در مخازن."),
        )
    } else if str_eq(sub, "upgrade") || str_eq(sub, "update") {
        let d = contains_text(rest, "--downloadonly");
        upgrade_translation(
            h,
            if d { "-Syuw" } else { "-Syu" },
            yes,
            d,
            text("Full system upgrade (repos + AUR)."),
            text("به‌روزرسانی کامل سیستم و تمام پکیج‌ها."),
        )
    } else if str_eq(sub, "install") || str_eq(sub, "in") {
        dnf_install(rest, config, maps)
    } else if str_eq(sub, "remove") || str_eq(sub, "erase") {
        remove_translation(
            "-Rns",
            operands_of(rest),
            yes,
            true,
            true,
            text("Removes package and unneeded dependencies."),
            text("حذف بسته به همراه وابستگی‌های بدون مصرف."),
        )
    } else if str_eq(sub, "autoremove") {
        orphans_translation(yes, text("Removes orphaned packages."), text("حذف پکیج‌های بی‌استفاده و یتیم."))
    } else if str_eq(sub, "search") {
        search_translation(h, rest, text("Searches package database."), text("جستجوی بسته در مخازن."))
    } else if str_eq(sub, "info") {
        info_translation(rest, text("Displays package details."), text("مشاهده جزییات و مشخصات پکیج."))
    } else if str_eq(sub, "clean") {
        clean_translation(text("Cleans cached package archives."), text("پاکسازی کش بسته‌ها."))
    } else if str_eq(sub, "provides") {
        let f = first_or_empty_text(rest);
        TranslationResult {
            command: cat("pacman -F ", f.as_str()),
            exec_binary: text("pacman"),
            exec_args: texts2("-F", f.as_str()),
            op: PacmanOp::FileSearch { query: f },
            needs_root: false,
            needs_aur: false,
            notes_en: text("Finds which package provides a specific file (requires 'pacman -Fy')."),
            notes_fa: text("پیدا کردن بسته‌ای که فایل مورد نظر را ارائه می‌دهد."),
            warning: None,
        }
    } else {
        other_translation(sub, "Attempting pacman operation for '")
    }
}

/// Translates `dnf` / `yum` arguments.
pub fn translate_dnf(args: &[String], config: &Config) -> (r: TranslationResult)
    ensures
        r@ == dnf_spec(
            args.deep_view(),
            config.general.helper@,
            config.overrides(),
            super::mapper::builtin_fedora(),
        ),
{
    let helper = config.general.helper.as_str();
    let mappings = PkgMappings::global();
    if args.len() == 0 {
        return helper_op_result(
            helper,
            "-Syu",
            PacmanOp::SyncUpgrade { noconfirm: false, download_only: false },
            text("Running pacman system upgrade. In Parch, pacman/paru replaces DNF/YUM."),
            text("اجرای به‌روزرسانی سیستم. در پارچ از پَک‌من یا پارو به جای DNF استفاده می‌شود."),
            None,
        );
    }
    let rest = vstd::slice::slice_subrange(args, 1, args.len());
    assert(rest.deep_view() =~= args.deep_view().drop_first());
    dnf_sub(args[0].as_str(), rest, config, &mappings)
}

} // verus!
