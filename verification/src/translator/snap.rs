//! Canonical Snap: native Arch packages are suggested in place of snaps.
use super::mapper::PkgMappings;
use super::{
    OpView, PacmanOp, TranslationResult, TranslationView, debian_names, debian_names_of, helper_op,
    helper_op_result, joined_install_result, joined_install_translation, operands, operands_of,
    passthrough_result, passthrough_translation, remove_result, remove_translation, tool_result,
    tool_translation,
};
use crate::config::Config;
use crate::strs::{cat, contains_text, has_text, str_eq, text};
use vstd::prelude::*;

verus! {

/// `snap <sub> <rest>` for a subcommand `sub`; `args` is the whole argument list.
pub open spec fn snap_sub_spec(
    args: Seq<Seq<char>>,
    sub: Seq<char>,
    rest: Seq<Seq<char>>,
    h: Seq<char>,
    maps: Seq<(Seq<char>, Seq<char>)>,
) -> TranslationView {
    if sub == "install"@ {
        let pkgs = debian_names(maps, operands(rest));
        let extra = if has_text(rest, "--classic"@) {
            " (--classic tools like VSCode/Go are available as official Arch packages)"@
        } else {
            Seq::empty()
        };
        if pkgs.len() == 0 {
            tool_result("snap"@, "install"@, "Snap install command."@, "دستور نصب اسنپ."@)
        } else {
            joined_install_result(
                h,
                pkgs,
                false,
                "Installing native Arch/AUR package via "@ + h + extra + "."@,
                "نصب مستقیم از مخازن اصلی یا کاربران آرچ به جای Snap با استفاده از "@ + h + "."@,
                Some("Native packages do not mount loop devices or slow down boot time."@),
            )
        }
    } else if sub == "remove"@ {
        remove_result(
            "-Rns"@,
            operands(rest),
            false,
            false,
            true,
            "Removes package and unneeded dependencies."@,
            "حذف کامل پکیج و وابستگی‌ها."@,
        )
    } else if sub == "refresh"@ {
        helper_op(
            h,
            "-Syu"@,
            OpView::SyncUpgrade { noconfirm: false, download_only: false },
            "Upgrading all installed system packages."@,
            "به‌روزرسانی تمامی بسته‌های سیستم."@,
            None,
        )
    } else {
        passthrough_result(
            "snap"@,
            args,
            "Passing command to Snap: '"@ + sub + "'."@,
            "ارسال دستور به Snap: '"@ + sub + "'."@,
        )
    }
}

/// The translation of `snap <args>`; no arguments mean a full upgrade.
pub open spec fn snap_spec(args: Seq<Seq<char>>, h: Seq<char>, maps: Seq<(Seq<char>, Seq<char>)>) -> TranslationView {
    if args.len() == 0 {
        helper_op(
            h,
            "-Syu"@,
            OpView::SyncUpgrade { noconfirm: false, download_only: false },
            "System upgrade. Arch and Parch avoid Canonical Snap daemon overhead."@,
            "به‌روزرسانی سیستم. در پارچ از اسنپ به دلیل کندی و مصرف منابع بالا استفاده نمی‌شود."@,
            Some("Snap daemon is not recommended on lightweight Arch/Parch systems."@),
        )
    } else {
        snap_sub_spec(args, args[0], args.drop_first(), h, maps)
    }
}

/// Translates `snap` arguments.
pub fn translate_snap(args: &[String], config: &Config) -> (r: TranslationResult)
    ensures
        r@ == snap_spec(args.deep_view(), config.general.helper@, super::mapper::builtin_debian()),
{
    let h = config.general.helper.as_str();
    let mappings = PkgMappings::global();
    if args.len() == 0 {
        return helper_op_result(
            h,
            "-Syu",
            PacmanOp::SyncUpgrade { noconfirm: false, download_only: false },
            text("System upgrade. Arch and Parch avoid Canonical Snap daemon overhead."),
            text("به‌روزرسانی سیستم. در پارچ از اسنپ به دلیل کندی و مصرف منابع بالا استفاده نمی‌شود."),
            Some(text("Snap daemon is not recommended on lightweight Arch/Parch systems.")),
        );
    }
    let sub = args[0].as_str();
    let rest = vstd::slice::slice_subrange(args, 1, args.len());
    assert(rest.deep_view() =~= args.deep_view().drop_first());
    if str_eq(sub, "install") {
        let ops = operands_of(rest);
        let pkgs = debian_names_of(&mappings, ops.as_slice());
        let classic = contains_text(rest, "--classic");
        if pkgs.len() == 0 {
            return tool_translation("snap", "install", text("Snap install command."), text("دستور نصب اسنپ."));
        }
        let mut en = cat("Installing native Arch/AUR package via ", h);
        if classic {
            en.append(" (--classic tools like VSCode/Go are available as official Arch packages)");
        }
        en.append(".");
        let mut fa = cat("نصب مستقیم از مخازن اصلی یا کاربران آرچ به جای Snap با استفاده از ", h);
        fa.append(".");
        joined_install_translation(
            h,
            pkgs,
            false,
            en,
            fa,
            Some(text("Native packages do not mount loop devices or slow down boot time.")),
        )
    } else if str_eq(sub, "remove") {
        remove_translation(
            "-Rns",
            operands_of(rest),
            false,
            false,
            true,
            text("Removes package and unneeded dependencies."),
            text("حذف کامل پکیج و وابستگی‌ها."),
        )
    } else if str_eq(sub, "refresh") {
        helper_op_result(
            h,
            "-Syu",
            PacmanOp::SyncUpgrade { noconfirm: false, download_only: false },
            text("Upgrading all installed system packages."),
            text("به‌روزرسانی تمامی بسته‌های سیستم."),
            None,
        )
    } else {
        let mut en = cat("Passing command to Snap: '", sub);
        en.append("'.");
        let mut fa = cat("ارسال دستور به Snap: '", sub);
        fa.append("'.");
        passthrough_translation("snap", args, en, fa)
    }
}

} // verus!
