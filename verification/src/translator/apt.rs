//! Debian / Ubuntu: `apt`, `apt-get`, `apt-cache`, `aptitude`.
use super::mapper::{debian_name, PkgMappings};
use super::{
    OpView, PacmanOp, TranslationResult, TranslationView, clean_result, clean_translation, helper_op,
    helper_op_result, info_result, info_translation, install_result, install_translation, operands,
    operands_of, orphans_result, orphans_translation, other_result, other_translation, remove_result,
    remove_translation, search_result, search_translation, texts1, texts2, tv, upgrade_result,
    upgrade_translation,
};
use crate::config::Config;
use crate::strs::{
    cat, ends_with, has_suffix, has_text, is_flag, is_flag_text, join, join_texts, lookup, lookup_text,
    split_once, split_once_char, str_eq, text, contains_text,
};
use vstd::prelude::*;

verus! {

/// What the arguments of `apt install` ask for.
pub struct AptScan {
    pub pkgs: Seq<Seq<char>>,
    pub has_deb: bool,
    pub noconfirm: bool,
    pub download_only: bool,
}

/// The package name without a `=version` pin.
pub open spec fn unpinned(a: Seq<char>) -> Seq<char> {
    match split_once(a, '=') {
        Some((base, _)) => base,
        None => a,
    }
}

/// The Arch name of a Debian package: the user's override, else the tables.
pub open spec fn apt_pkg_name(
    ov: Seq<(Seq<char>, Seq<char>)>,
    maps: Seq<(Seq<char>, Seq<char>)>,
    name: Seq<char>,
) -> Seq<char> {
    match lookup(ov, name) {
        Some(c) => c,
        None => debian_name(maps, name),
    }
}

/// Reads the arguments of `apt install` from left to right.
pub open spec fn apt_scan(
    rest: Seq<Seq<char>>,
    ov: Seq<(Seq<char>, Seq<char>)>,
    maps: Seq<(Seq<char>, Seq<char>)>,
) -> AptScan
    decreases rest.len(),
{
    if rest.len() == 0 {
        AptScan { pkgs: Seq::empty(), has_deb: false, noconfirm: false, download_only: false }
    } else {
        let s = apt_scan(rest.drop_last(), ov, maps);
        let a = rest.last();
        if a == "-y"@ || a == "--yes"@ || a == "--assume-yes"@ {
            AptScan { pkgs: s.pkgs, has_deb: s.has_deb, noconfirm: true, download_only: s.download_only }
        } else if a == "-d"@ || a == "--download-only"@ {
            AptScan { pkgs: s.pkgs, has_deb: s.has_deb, noconfirm: s.noconfirm, download_only: true }
        } else if has_suffix(a, ".deb"@) {
            AptScan { pkgs: s.pkgs.push(a), has_deb: true, noconfirm: s.noconfirm, download_only: s.download_only }
        } else if !is_flag(a) {
            AptScan {
                pkgs: s.pkgs.push(apt_pkg_name(ov, maps, unpinned(a))),
                has_deb: s.has_deb,
                noconfirm: s.noconfirm,
                download_only: s.download_only,
            }
        } else {
            s
        }
    }
}

/// `apt install ...`.
pub open spec fn apt_install_spec(
    rest: Seq<Seq<char>>,
    h: Seq<char>,
    ov: Seq<(Seq<char>, Seq<char>)>,
    maps: Seq<(Seq<char>, Seq<char>)>,
) -> TranslationView {
    let s = apt_scan(rest, ov, maps);
    if s.has_deb {
        tv(
            "debtap "@ + join(s.pkgs, " "@),
            "debtap"@,
            s.pkgs,
            OpView::DebtapConvert { files: s.pkgs },
            false,
            true,
            ".deb files require conversion via 'debtap' or finding native AUR packages."@,
            "فایل‌های .deb دبیان باید با debtap تبدیل شوند یا از مخزن AUR نصب گردند."@,
            Some("Direct .deb installation is not supported natively by pacman."@),
        )
    } else if s.pkgs.len() == 0 {
        helper_op(
            h,
            "-S"@,
            OpView::SyncInstall { pkgs: Seq::empty(), noconfirm: false, as_deps: false, download_only: false },
            "Pacman install command."@,
            "دستور نصب پکیج با پَک‌من."@,
            None,
        )
    } else {
        install_result(
            h,
            if s.download_only { "-Sw"@ } else { "-S"@ },
            s.pkgs,
            s.noconfirm,
            s.download_only,
            "Installs package(s) via Arch repos / AUR ("@ + h + ")."@,
            "نصب بسته(ها) از طریق مخازن رسمی و مخزن کاربران ("@ + h + ")."@,
        )
    }
}

/// `apt list ...`.
pub open spec fn apt_list_spec(rest: Seq<Seq<char>>) -> TranslationView {
    if has_text(rest, "--installed"@) {
        tv(
            "pacman -Qe"@,
            "pacman"@,
            seq!["-Qe"@],
            OpView::QueryList { explicit_only: true, foreign_only: false },
            false,
            false,
            "Lists explicitly installed packages on this system."@,
            "لیست بسته‌های مستقیماً نصب شده توسط کاربر."@,
            None,
        )
    } else if has_text(rest, "--upgradable"@) {
        tv(
            "checkupdates"@,
            "checkupdates"@,
            Seq::empty(),
            OpView::DirectPacman { args: seq!["checkupdates"@] },
            false,
            false,
            "Safely checks for available system updates without modifying sync databases."@,
            "بررسی امن پکیج‌های قابل ارتقا بدون دستکاری دیتابیس مخازن."@,
            None,
        )
    } else {
        tv(
            "pacman -Sl"@,
            "pacman"@,
            seq!["-Sl"@],
            OpView::QueryList { explicit_only: false, foreign_only: false },
            false,
            false,
            "Lists all available packages in official repositories."@,
            "لیست تمام بسته‌های موجود در مخازن."@,
            None,
        )
    }
}

/// `apt <sub> <rest>` for a subcommand `sub`.
pub open spec fn apt_sub_spec(
    sub: Seq<char>,
    rest: Seq<Seq<char>>,
    h: Seq<char>,
    ov: Seq<(Seq<char>, Seq<char>)>,
    maps: Seq<(Seq<char>, Seq<char>)>,
) -> TranslationView {
    let yes = has_text(rest, "-y"@) || has_text(rest, "--yes"@);
    if sub == "update"@ || sub == "upd"@ {
        helper_op(
            h,
            "-Sy"@,
            OpView::SyncRefresh { force: false },
            "Updates local package database mirrors."@,
            "به‌روزرسانی لیست و پایگاه‌داده بسته‌ها."@,
            Some("Caution: On Arch, always run full upgrade (pacman -Syu) to avoid partial-upgrade issues."@),
        )
    } else if sub == "upgrade"@ || sub == "upg"@ || sub == "dist-upgrade"@ || sub == "full-upgrade"@ {
        let nc = yes || has_text(rest, "--assume-yes"@);
        let d = has_text(rest, "-d"@) || has_text(rest, "--download-only"@);
        upgrade_result(
            h,
            if d { "-Syuw"@ } else { "-Syu"@ },
            nc,
            d,
            "Full system upgrade (Official repos + AUR)."@,
            "ارتقا و به‌روزرسانی کامل کلیه برنامه‌ها و سیستم."@,
        )
    } else if sub == "install"@ || sub == "i"@ || sub == "in"@ || sub == "add"@ {
        apt_install_spec(rest, h, ov, maps)
    } else if sub == "remove"@ || sub == "rm"@ || sub == "uninstall"@ {
        remove_result(
            "-R"@,
            operands(rest),
            yes,
            false,
            false,
            "Removes package while keeping configuration files."@,
            "حذف بسته با حفظ فایل‌های تنظیمات شخصی."@,
        )
    } else if sub == "purge"@ {
        remove_result(
            "-Rns"@,
            operands(rest),
            yes,
            true,
            true,
            "Recursively removes package, unneeded dependencies, and config files."@,
            "حذف کامل بسته به همراه وابستگی‌های بلااستفاده و فایل‌های کانفیگ."@,
        )
    } else if sub == "autoremove"@ || sub == "auto-remove"@ {
        orphans_result(
            yes,
            "Removes orphaned packages (dependencies no longer required by any package)."@,
            "حذف بسته‌های یتیم و وابستگی‌های غیرضروری باقیمانده."@,
        )
    } else if sub == "search"@ || sub == "find"@ {
        search_result(h, rest, "Searches package database for keywords."@, "جستجوی نام و توضیحات بسته‌ها در مخازن."@)
    } else if sub == "show"@ || sub == "info"@ {
        info_result(
            rest,
            "Displays detailed remote package metadata and dependencies."@,
            "نمایش مشخصات، اطلاعات و وابستگی‌های بسته در مخزن."@,
        )
    } else if sub == "clean"@ || sub == "autoclean"@ {
        clean_result("Cleans cached tarballs from /var/cache/pacman/pkg/."@, "پاکسازی کش بسته‌های دانلود شده."@)
    } else if sub == "list"@ {
        apt_list_spec(rest)
    } else if sub == "edit-sources"@ {
        tv(
            "sudo micro /etc/pacman.d/mirrorlist"@,
            "sudo"@,
            seq!["micro"@, "/etc/pacman.d/mirrorlist"@],
            OpView::EditMirrorlist,
            true,
            false,
            "Edits Arch/Parch mirrorlist configuration."@,
            "ویرایش آدرس میرورها و سرورهای مخازن پارچ."@,
            None,
        )
    } else {
        other_result(sub, "Attempting standard pacman operation for '"@)
    }
}

/// The translation of `apt <raw>`. A leading `get` (as in the typo
/// `apt get install`) is dropped; no arguments mean a full upgrade.
pub open spec fn apt_spec(
    raw: Seq<Seq<char>>,
    h: Seq<char>,
    ov: Seq<(Seq<char>, Seq<char>)>,
    maps: Seq<(Seq<char>, Seq<char>)>,
) -> TranslationView {
    let up = OpView::SyncUpgrade { noconfirm: false, download_only: false };
    if raw.len() == 0 {
        helper_op(
            h,
            "-Syu"@,
            up,
            "Running pacman system upgrade. In Parch/Arch, pacman/paru manages packages."@,
            "اجرای به‌روزرسانی کلی سیستم. در پارچ از پَک‌من یا پارو استفاده می‌شود."@,
            None,
        )
    } else {
        let args = if raw[0] == "get"@ { raw.drop_first() } else { raw };
        if args.len() == 0 {
            helper_op(h, "-Syu"@, up, "Running full system upgrade."@, "اجرای به‌روزرسانی کلی سیستم."@, None)
        } else {
            apt_sub_spec(args[0], args.drop_first(), h, ov, maps)
        }
    }
}

fn apt_install(rest: &[String], config: &Config, maps: &PkgMappings) -> (r: TranslationResult)
    ensures
        r@ == apt_install_spec(rest.deep_view(), config.general.helper@, config.overrides(), maps.debian_table()),
{
    let ghost rv = rest.deep_view();
    let ghost ov = config.overrides();
    let ghost mt = maps.debian_table();
    let helper = config.general.helper.as_str();
    let mut pkgs: Vec<String> = Vec::new();
    let mut has_deb = false;
    let mut noconfirm = false;
    let mut download_only = false;
    let n = rest.len();
    let mut i: usize = 0;
    while i < n
        invariant
            n == rest@.len(),
            rv == rest.deep_view(),
            ov == config.overrides(),
            mt == maps.debian_table(),
            i <= n,
            ({
                let s = apt_scan(rv.subrange(0, i as int), ov, mt);
                &&& s.has_deb == has_deb
                &&& s.noconfirm == noconfirm
                &&& s.download_only == download_only
                &&& pkgs@.len() == s.pkgs.len()
                &&& forall|j: int| 0 <= j < s.pkgs.len() ==> pkgs@[j]@ == s.pkgs[j]
            }),
        decreases n - i,
    {
        let ghost prev = apt_scan(rv.subrange(0, i as int), ov, mt);
        assert(rv.subrange(0, i + 1).drop_last() =~= rv.subrange(0, i as int));
        assert(rv.subrange(0, i + 1).last() == rest@[i as int]@);
        let arg = rest[i].as_str();
        if str_eq(arg, "-y") || str_eq(arg, "--yes") || str_eq(arg, "--assume-yes") {
            noconfirm = true;
        } else if str_eq(arg, "-d") || str_eq(arg, "--download-only") {
            download_only = true;
        } else if ends_with(arg, ".deb") {
            has_deb = true;
            pkgs.push(text(arg));
        } else if !is_flag_text(arg) {
            let clean = match split_once_char(arg, '=') {
                Some((base, _)) => base,
                None => text(arg),
            };
            let mapped = match lookup_text(config.package_overrides.as_slice(), clean.as_str()) {
                Some(custom) => custom,
                None => maps.translate_debian_pkg(clean.as_str()),
            };
            pkgs.push(mapped);
        }
        i += 1;
    }
    assert(rv.subrange(0, n as int) =~= rv);
    let ghost s = apt_scan(rv, ov, mt);
    assert(pkgs.deep_view() =~= s.pkgs);
    if has_deb {
        return TranslationResult {
            command: cat("debtap ", join_texts(pkgs.as_slice(), " ").as_str()),
            exec_binary: text("debtap"),
            exec_args: crate::strs::copy_texts(pkgs.as_slice()),
            op: PacmanOp::DebtapConvert { files: pkgs },
            needs_root: false,
            needs_aur: true,
            notes_en: text(".deb files require conversion via 'debtap' or finding native AUR packages."),
            notes_fa: text("فایل‌های .deb دبیان باید با debtap تبدیل شوند یا از مخزن AUR نصب گردند."),
            warning: Some(text("Direct .deb installation is not supported natively by pacman.")),
        };
    }
    if pkgs.len() == 0 {
        let none: Vec<String> = Vec::new();
        assert(none.deep_view() =~= Seq::<Seq<char>>::empty());
        return helper_op_result(
            helper,
            "-S",
            PacmanOp::SyncInstall { pkgs: none, noconfirm: false, as_deps: false, download_only: false },
            text("Pacman install command."),
            text("دستور نصب پکیج با پَک‌من."),
            None,
        );
    }
    let flag = if download_only { "-Sw" } else { "-S" };
    let mut en = cat("Installs package(s) via Arch repos / AUR (", helper);
    en.append(").");
    let mut fa = cat("نصب بسته(ها) از طریق مخازن رسمی و مخزن کاربران (", helper);
    fa.append(").");
    install_translation(helper, flag, pkgs, noconfirm, download_only, en, fa)
}

fn apt_list(rest: &[String]) -> (r: TranslationResult)
    ensures
        r@ == apt_list_spec(rest.deep_view()),
{
    if contains_text(rest, "--installed") {
        TranslationResult {
            command: text("pacman -Qe"),
            exec_binary: text("pacman"),
            exec_args: texts1("-Qe"),
            op: PacmanOp::QueryList { explicit_only: true, foreign_only: false },
            needs_root: false,
            needs_aur: false,
            notes_en: text("Lists explicitly installed packages on this system."),
            notes_fa: text("لیست بسته‌های مستقیماً نصب شده توسط کاربر."),
            warning: None,
        }
    } else if contains_text(rest, "--upgradable") {
        let empty: Vec<String> = Vec::new();
        assert(empty.deep_view() =~= Seq::<Seq<char>>::empty());
        TranslationResult {
            command: text("checkupdates"),
            exec_binary: text("checkupdates"),
            exec_args: empty,
            op: PacmanOp::DirectPacman { args: texts1("checkupdates") },
            needs_root: false,
            needs_aur: false,
            notes_en: text("Safely checks for available system updates without modifying sync databases."),
            notes_fa: text("بررسی امن پکیج‌های قابل ارتقا بدون دستکاری دیتابیس مخازن."),
            warning: None,
        }
    } else {
        TranslationResult {
            command: text("pacman -Sl"),
            exec_binary: text("pacman"),
            exec_args: texts1("-Sl"),
            op: PacmanOp::QueryList { explicit_only: false, foreign_only: false },
            needs_root: false,
            needs_aur: false,
            notes_en: text("Lists all available packages in official repositories."),
            notes_fa: text("لیست تمام بسته‌های موجود در مخازن."),
            warning: None,
        }
    }
}

fn apt_sub(sub: &str, rest: &[String], config: &Config, maps: &PkgMappings) -> (r: TranslationResult)
    ensures
        r@ == apt_sub_spec(sub@, rest.deep_view(), config.general.helper@, config.overrides(), maps.debian_table()),
{
    let h = config.general.helper.as_str();
    let yes = contains_text(rest, "-y") || contains_text(rest, "--yes");
    if str_eq(sub, "update") || str_eq(sub, "upd") {
        helper_op_result(
            h,
            "-Sy",
            PacmanOp::SyncRefresh { force: false },
            text("Updates local package database mirrors."),
            text("به‌روزرسانی لیست و پایگاه‌داده بسته‌ها."),
            Some(text("Caution: On Arch, always run full upgrade (pacman -Syu) to avoid partial-upgrade issues.")),
        )
    } else if str_eq(sub, "upgrade") || str_eq(sub, "upg") || str_eq(sub, "dist-upgrade") || str_eq(
        sub,
        "full-upgrade",
    ) {
        let nc = yes || contains_text(rest, "--assume-yes");
        let d = contains_text(rest, "-d") || contains_text(rest, "--download-only");
        upgrade_translation(
            h,
            if d { "-Syuw" } else { "-Syu" },
            nc,
            d,
            text("Full system upgrade (Official repos + AUR)."),
            text("ارتقا و به‌روزرسانی کامل کلیه برنامه‌ها و سیستم."),
        )
    } else if str_eq(sub, "install") || str_eq(sub, "i") || str_eq(sub, "in") || str_eq(sub, "add") {
        apt_install(rest, config, maps)
    } else if str_eq(sub, "remove") || str_eq(sub, "rm") || str_eq(sub, "uninstall") {
        remove_translation(
            "-R",
            operands_of(rest),
            yes,
            false,
            false,
            text("Removes package while keeping configuration files."),
            text("حذف بسته با حفظ فایل‌های تنظیمات شخصی."),
        )
    } else if str_eq(sub, "purge") {
        remove_translation(
            "-Rns",
            operands_of(rest),
            yes,
            true,
            true,
            text("Recursively removes package, unneeded dependencies, and config files."),
            text("حذف کامل بسته به همراه وابستگی‌های بلااستفاده و فایل‌های کانفیگ."),
        )
    } else if str_eq(sub, "autoremove") || str_eq(sub, "auto-remove") {
        orphans_translation(
            yes,
            text("Removes orphaned packages (dependencies no longer required by any package)."),
            text("حذف بسته‌های یتیم و وابستگی‌های غیرضروری باقیمانده."),
        )
    } else if str_eq(sub, "search") || str_eq(sub, "find") {
        search_translation(
            h,
            rest,
            text("Searches package database for keywords."),
            text("جستجوی نام و توضیحات بسته‌ها در مخازن."),
        )
    } else if str_eq(sub, "show") || str_eq(sub, "info") {
        info_translation(
            rest,
            text("Displays detailed remote package metadata and dependencies."),
            text("نمایش مشخصات، اطلاعات و وابستگی‌های بسته در مخزن."),
        )
    } else if str_eq(sub, "clean") || str_eq(sub, "autoclean") {
        clean_translation(
            text("Cleans cached tarballs from /var/cache/pacman/pkg/."),
            text("پاکسازی کش بسته‌های دانلود شده."),
        )
    } else if str_eq(sub, "list") {
        apt_list(rest)
    } else if str_eq(sub, "edit-sources") {
        TranslationResult {
            command: text("sudo micro /etc/pacman.d/mirrorlist"),
            exec_binary: text("sudo"),
            exec_args: texts2("micro", "/etc/pacman.d/mirrorlist"),
            op: PacmanOp::EditMirrorlist,
            needs_root: true,
            needs_aur: false,
            notes_en: text("Edits Arch/Parch mirrorlist configuration."),
            notes_fa: text("ویرایش آدرس میرورها و سرورهای مخازن پارچ."),
            warning: None,
        }
    } else {
        other_translation(sub, "Attempting standard pacman operation for '")
    }
}

/// Translates `apt` / `apt-get` / `apt-cache` / `aptitude` arguments.
pub fn translate_apt(raw_args: &[String], config: &Config) -> (r: TranslationResult)
    ensures
        r@ == apt_spec(
            raw_args.deep_view(),
            config.general.helper@,
            config.overrides(),
            super::mapper::builtin_debian(),
        ),
{
    let helper = config.general.helper.as_str();
    let mappings = PkgMappings::global();
    let up = PacmanOp::SyncUpgrade { noconfirm: false, download_only: false };
    if raw_args.len() == 0 {
        return helper_op_result(
            helper,
            "-Syu",
            up,
            text("Running pacman system upgrade. In Parch/Arch, pacman/paru manages packages."),
            text("اجرای به‌روزرسانی کلی سیستم. در پارچ از پَک‌من یا پارو استفاده می‌شود."),
            None,
        );
    }
    let args: &[String] = if str_eq(raw_args[0].as_str(), "get") {
        let s = vstd::slice::slice_subrange(raw_args, 1, raw_args.len());
        assert(s.deep_view() =~= raw_args.deep_view().drop_first());
        s
    } else {
        raw_args
    };
    if args.len() == 0 {
        return helper_op_result(
            helper,
            "-Syu",
            up,
            text("Running full system upgrade."),
            text("اجرای به‌روزرسانی کلی سیستم."),
            None,
        );
    }
    let rest = vstd::slice::slice_subrange(args, 1, args.len());
    assert(rest.deep_view() =~= args.deep_view().drop_first());
    apt_sub(args[0].as_str(), rest, config, &mappings)
}

} // verus!
