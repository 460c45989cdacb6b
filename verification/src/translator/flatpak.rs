//! Flatpak: native Arch packages are suggested in place of sandboxed apps.
use super::mapper::PkgMappings;
use super::{
    OpView, PacmanOp, TranslationResult, TranslationView, debian_names, debian_names_of, helper_op,
    helper_op_result, joined_install_result, joined_install_translation, operands, operands_of,
    passthrough_result, passthrough_translation, remove_result, remove_translation, tool_result,
    tool_translation,
};
use crate::config::Config;
use crate::strs::{cat, contains_text, has_text, str_eq, text};
use vstd::prelude::*;

verus! {

/// `flatpak <sub> <rest>` for a subcommand `sub`; `args` is the whole argument list.
pub open spec fn flatpak_sub_spec(
    args: Seq<Seq<char>>,
    sub: Seq<char>,
    rest: Seq<Seq<char>>,
    h: Seq<char>,
    maps: Seq<(Seq<char>, Seq<char>)>,
) -> TranslationView {
    if sub == "install"@ {
        let pkgs = debian_names(maps, operands(rest));
        let nc = has_text(rest, "-y"@) || has_text(rest, "--assumeyes"@);
        if pkgs.len() == 0 {
            tool_result("flatpak"@, "install"@, "Flatpak install command."@, "دستور نصب برنامه فلت‌پک."@)
        } else {
            joined_install_result(
                h,
                pkgs,
                nc,
                "Preferring native Arch/AUR packages over Flatpak container sandbox via "@ + h + "."@,
                "پیشنهاد استفاده از بسته بومی آرچ/AUR با کارایی بالاتر از طریق "@ + h + "."@,
                Some("Native packages offer lower RAM overhead and seamless desktop integration."@),
            )
        }
    } else if sub == "update"@ {
        helper_op(
            h,
            "-Syu"@,
            OpView::SyncUpgrade { noconfirm: false, download_only: false },
            "Upgrading system packages."@,
            "ارتقا و به‌روزرسانی بسته‌های سیستم."@,
            None,
        )
    } else if sub == "uninstall"@ || sub == "remove"@ {
        remove_result(
            "-Rns"@,
            operands(rest),
            false,
            false,
            true,
            "Removes native packages and unneeded dependencies."@,
            "حذف پکیج‌ها و وابستگی‌های آنها."@,
        )
    } else {
        passthrough_result(
            "flatpak"@,
            args,
            "Passing command directly to Flatpak: '"@ + sub + "'."@,
            "اجرای مستقیم دستور در Flatpak: '"@ + sub + "'."@,
        )
    }
}

/// The translation of `flatpak <args>`; no arguments update Flatpak itself.
pub open spec fn flatpak_spec(args: Seq<Seq<char>>, h: Seq<char>, maps: Seq<(Seq<char>, Seq<char>)>) -> TranslationView {
    if args.len() == 0 {
        tool_result(
            "flatpak"@,
            "update"@,
            "Updating installed Flatpak runtimes and applications."@,
            "به‌روزرسانی ران‌تایم‌ها و برنامه‌های نصب‌شده فلت‌پک."@,
        )
    } else {
        flatpak_sub_spec(args, args[0], args.drop_first(), h, maps)
    }
}

/// Translates `flatpak` arguments.
pub fn translate_flatpak(args: &[String], config: &Config) -> (r: TranslationResult)
    ensures
        r@ == flatpak_spec(args.deep_view(), config.general.helper@, super::mapper::builtin_debian()),
{
    let h = config.general.helper.as_str();
    let mappings = PkgMappings::global();
    if args.len() == 0 {
        return tool_translation(
            "flatpak",
            "update",
            text("Updating installed Flatpak runtimes and applications."),
            text("به‌روزرسانی ران‌تایم‌ها و برنامه‌های نصب‌شده فلت‌پک."),
        );
    }
    let sub = args[0].as_str();
    let rest = vstd::slice::slice_subrange(args, 1, args.len());
    assert(rest.deep_view() =~= args.deep_view().drop_first());
    if str_eq(sub, "install") {
        let ops = operands_of(rest);
        let pkgs = debian_names_of(&mappings, ops.as_slice());
        let nc = contains_text(rest, "-y") || contains_text(rest, "--assumeyes");
        if pkgs.len() == 0 {
            return tool_translation(
                "flatpak",
                "install",
                text("Flatpak install command."),
                text("دستور نصب برنامه فلت‌پک."),
            );
        }
        let mut en = cat("Preferring native Arch/AUR packages over Flatpak container sandbox via ", h);
        en.append(".");
        let mut fa = cat("پیشنهاد استفاده از بسته بومی آرچ/AUR با کارایی بالاتر از طریق ", h);
        fa.append(".");
        joined_install_translation(
            h,
            pkgs,
            nc,
            en,
            fa,
            Some(text("Native packages offer lower RAM overhead and seamless desktop integration.")),
        )
    } else if str_eq(sub, "update") {
        helper_op_result(
            h,
            "-Syu",
            PacmanOp::SyncUpgrade { noconfirm: false, download_only: false },
            text("Upgrading system packages."),
            text("ارتقا و به‌روزرسانی بسته‌های سیستم."),
            None,
        )
    } else if str_eq(sub, "uninstall") || str_eq(sub, "remove") {
        remove_translation(
            "-Rns",
            operands_of(rest),
            false,
            false,
            true,
            text("Removes native packages and unneeded dependencies."),
            text("حذف پکیج‌ها و وابستگی‌های آنها."),
        )
    } else {
        let mut en = cat("Passing command directly to Flatpak: '", sub);
        en.append("'.");
        let mut fa = cat("اجرای مستقیم دستور در Flatpak: '", sub);
        fa.append("'.");
        passthrough_translation("flatpak", args, en, fa)
    }
}

} // verus!
