//! Properties of the library as a whole: what holds of every input, or
//! relates several of its functions.
use crate::config::{first_found, Config};
use crate::executor::{effective_command, is_sudo_program, judged_command, plan_of, PlanView};
use crate::context::{display_of, source_of, SourceView};
use crate::safety::{
    after_last_slash, asks_for, core_paths, first_critical, is_critical, lock_status_of, one_of, package_tools,
    program_name, safety_of, short_flag_has, DangerView, LockObservation, LockView,
};
use crate::strs::{distinct_keys, file_name, has_char, has_prefix, has_text, join, spaced, is_flag, kept_part, lookup, path_state};
use crate::translator::apk::{apk_pkg_name, apk_spec};
use crate::translator::flatpak::flatpak_spec;
use crate::translator::mapper::{builtin_alpine, builtin_brew, builtin_debian, builtin_fedora, builtin_zypper};
use crate::translator::snap::snap_spec;
use crate::translator::apt::{apt_install_spec, apt_pkg_name, apt_scan, apt_spec, apt_sub_spec};
use crate::translator::brew::{brew_pkg_name, brew_spec};
use crate::translator::dnf::{dnf_pkg_name, dnf_scan, dnf_spec};
use crate::translator::zypper::{zypper_pkg_name, zypper_pkgs, zypper_spec};
use crate::translator::{
    helper_op, install_result, is_pacman, joined_install_result, nc_args, nc_cmd, operands, remove_result, run_args,
    run_bin, run_cmd, translate_spec, upgrade_result, OpView, TranslationView,
};
use crate::ui::layout::box_width;
use crate::ui::theme::{
    badge_en_look, badge_en_text, badge_fa_look, badge_fa_text, border_look, input_label_look,
    input_val_look, logo_bracket_look, note_en_look, note_fa_look, shown_as, target_label_look,
    target_val_look, title_look, ThemeStyle,
};
use vstd::prelude::*;

verus! {

/// `apt`, `apt-get`, `apt-cache` and `aptitude` are translated alike.
pub proof fn law_apt_family_agrees(
    args: Seq<Seq<char>>,
    h: Seq<char>,
    ov: Seq<(Seq<char>, Seq<char>)>,
)
    ensures
        translate_spec(SourceView::AptGet, args, h, ov) == translate_spec(SourceView::Apt, args, h, ov),
        translate_spec(SourceView::AptCache, args, h, ov) == translate_spec(SourceView::Apt, args, h, ov),
        translate_spec(SourceView::Aptitude, args, h, ov) == translate_spec(SourceView::Apt, args, h, ov),
{
}

/// `yum` is translated as `dnf`.
pub proof fn law_yum_is_dnf(args: Seq<Seq<char>>, h: Seq<char>, ov: Seq<(Seq<char>, Seq<char>)>)
    ensures
        translate_spec(SourceView::Yum, args, h, ov) == translate_spec(SourceView::Dnf, args, h, ov),
{
}

/// The typo `apt get <command>` is translated as `apt <command>`.
pub proof fn law_apt_get_typo_ignored(
    rest: Seq<Seq<char>>,
    h: Seq<char>,
    ov: Seq<(Seq<char>, Seq<char>)>,
    maps: Seq<(Seq<char>, Seq<char>)>,
)
    requires
        rest.len() > 0,
        rest[0] != "get"@,
    ensures
        apt_spec(seq!["get"@] + rest, h, ov, maps) == apt_spec(rest, h, ov, maps),
{
    let raw = seq!["get"@] + rest;
    assert(raw[0] == "get"@);
    assert(raw.drop_first() =~= rest);
}

/// A custom mapping in the configuration names the Arch package, whatever
/// the built-in tables say, for every package manager.
pub proof fn law_override_wins(
    ov: Seq<(Seq<char>, Seq<char>)>,
    maps: Seq<(Seq<char>, Seq<char>)>,
    name: Seq<char>,
    arch: Seq<char>,
)
    requires
        lookup(ov, name) == Some(arch),
    ensures
        apt_pkg_name(ov, maps, name) == arch,
        dnf_pkg_name(ov, maps, name) == arch,
        apk_pkg_name(ov, maps, name) == arch,
        zypper_pkg_name(ov, maps, name) == arch,
        brew_pkg_name(ov, maps, name) == arch,
{
}

/// An argument that asks `apt` not to confirm.
pub open spec fn is_yes_flag(a: Seq<char>) -> bool {
    a == "-y"@ || a == "--yes"@ || a == "--assume-yes"@
}

/// `apt install` skips confirmation (`--noconfirm`) exactly when one of
/// `-y`, `--yes`, `--assume-yes` is among its arguments.
pub proof fn law_apt_yes_means_noconfirm(
    rest: Seq<Seq<char>>,
    h: Seq<char>,
    ov: Seq<(Seq<char>, Seq<char>)>,
    maps: Seq<(Seq<char>, Seq<char>)>,
)
    ensures
        apt_scan(rest, ov, maps).noconfirm <==> exists|i: int| 0 <= i < rest.len() && is_yes_flag(#[trigger] rest[i]),
        ({
            let s = apt_scan(rest, ov, maps);
            !s.has_deb && s.pkgs.len() > 0 ==> apt_install_spec(rest, h, ov, maps).op == OpView::SyncInstall {
                pkgs: s.pkgs,
                noconfirm: s.noconfirm,
                as_deps: false,
                download_only: s.download_only,
            }
        }),
    decreases rest.len(),
{
    if rest.len() > 0 {
        let init = rest.drop_last();
        law_apt_yes_means_noconfirm(init, h, ov, maps);
        if apt_scan(rest, ov, maps).noconfirm {
            if !is_yes_flag(rest.last()) {
                let i = choose|i: int| 0 <= i < init.len() && is_yes_flag(#[trigger] init[i]);
                assert(rest[i] == init[i]);
            } else {
                assert(is_yes_flag(rest[rest.len() - 1]));
            }
        } else {
            assert forall|i: int| 0 <= i < rest.len() implies !is_yes_flag(#[trigger] rest[i]) by {
                if i < rest.len() - 1 {
                    assert(rest[i] == init[i]);
                }
            }
        }
    }
}

/// The configuration found first wins: one read from the first place
/// looked at (the file named on the command line) is used as it is.
pub proof fn law_first_config_wins(c: Config, rest: Seq<Option<Config>>)
    ensures
        first_found(seq![Some(c)] + rest) == Some(c),
{
    assert((seq![Some(c)] + rest)[0] == Some(c));
}

/// The box is never narrower than 48 columns nor wider than 100, whatever
/// the terminal reports.
pub proof fn law_box_width_bounded(cols: Option<u16>)
    ensures
        48 <= box_width(cols) <= 100,
{
}

/// The `plain` theme draws every part of the box as it is, without escape
/// sequences.
pub proof fn law_plain_theme_is_bare(r: Seq<char>, s: Seq<char>)
    ensures
        shown_as(r, s, title_look(ThemeStyle::Plain)) ==> r == s,
        shown_as(r, s, logo_bracket_look(ThemeStyle::Plain)) ==> r == s,
        shown_as(r, s, input_label_look(ThemeStyle::Plain)) ==> r == s,
        shown_as(r, s, input_val_look(ThemeStyle::Plain)) ==> r == s,
        shown_as(r, s, target_label_look(ThemeStyle::Plain)) ==> r == s,
        shown_as(r, s, target_val_look(ThemeStyle::Plain)) ==> r == s,
        shown_as(r, s, note_en_look(ThemeStyle::Plain)) ==> r == s,
        shown_as(r, s, note_fa_look(ThemeStyle::Plain)) ==> r == s,
        shown_as(r, s, border_look(ThemeStyle::Plain)) ==> r == s,
        shown_as(r, badge_en_text(ThemeStyle::Plain), badge_en_look(ThemeStyle::Plain)) ==> r == "[EN]"@,
        shown_as(r, badge_fa_text(ThemeStyle::Plain), badge_fa_look(ThemeStyle::Plain)) ==> r == "[FA]"@,
{
}

/// `s` holds no `/`.
pub open spec fn no_slash(s: Seq<char>) -> bool {
    forall|i: int| 0 <= i < s.len() ==> s[i] != '/'
}

/// Reading a slash-free text after `x` only extends the piece being read.
proof fn lemma_path_state_append(x: Seq<char>, n: Seq<char>)
    requires
        no_slash(n),
    ensures
        path_state(x + n) == (path_state(x).0, path_state(x).1 + n),
    decreases n.len(),
{
    if n.len() == 0 {
        assert(x + n =~= x);
        assert(path_state(x).1 + n =~= path_state(x).1);
    } else {
        let init = n.drop_last();
        lemma_path_state_append(x, init);
        assert((x + n).drop_last() =~= x + init);
        assert((x + n).last() == n.last());
        assert(path_state(x).1 + init.push(n.last()) =~= path_state(x).1 + n);
    }
}

/// A slash-free name that is not `.` or `..` is its own file name, with or
/// without a directory before it.
proof fn lemma_file_name_of_name(dir: Seq<char>, n: Seq<char>)
    requires
        n.len() > 0,
        no_slash(n),
        n != "."@,
        n != ".."@,
    ensures
        file_name(n) == Some(n),
        file_name(dir + "/"@ + n) == Some(n),
{
    lemma_path_state_append(Seq::empty(), n);
    assert(Seq::<char>::empty() + n =~= n);
    reveal_strlit("/");
    let d = dir + "/"@;
    assert(d.drop_last() =~= dir);
    assert(d.last() == '/');
    assert(path_state(d).1 =~= Seq::<char>::empty());
    lemma_path_state_append(d, n);
    assert(path_state(d).1 + n =~= n);
    assert(kept_part(n));
}

/// A program is recognized by its name alone: `/usr/bin/apt` stands for the
/// same manager as `apt`.
pub proof fn law_name_ignores_directory(dir: Seq<char>, n: Seq<char>)
    requires
        n.len() > 0,
        no_slash(n),
        n != "."@,
        n != ".."@,
    ensures
        source_of(dir + "/"@ + n) == source_of(n),
{
    lemma_file_name_of_name(dir, n);
}

/// Every argument that is not a flag is among the operands.
proof fn lemma_operand_kept(s: Seq<Seq<char>>, j: int)
    requires
        0 <= j < s.len(),
        !is_flag(s[j]),
    ensures
        exists|k: int| 0 <= k < operands(s).len() && operands(s)[k] == s[j],
    decreases s.len(),
{
    let init = s.drop_last();
    if j == s.len() - 1 {
        assert(operands(s)[operands(init).len() as int] == s[j]);
    } else {
        lemma_operand_kept(init, j);
        let k = choose|k: int| 0 <= k < operands(init).len() && operands(init)[k] == init[j];
        assert(operands(s)[k] == s[j]);
    }
}

/// Some target naming a critical package is found.
proof fn lemma_critical_found(t: Seq<Seq<char>>, k: int)
    requires
        0 <= k < t.len(),
        is_critical(after_last_slash(t[k])),
    ensures
        first_critical(t) is Some,
    decreases t.len(),
{
    if !is_critical(after_last_slash(t[0])) {
        assert(t.drop_first()[k - 1] == t[k]);
        lemma_critical_found(t.drop_first(), k - 1);
    }
}

/// No package tool is called `rm`.
proof fn lemma_tool_not_rm(name: Seq<char>)
    requires
        one_of(package_tools(), name),
    ensures
        name != "rm"@,
{
    reveal_strlit("pacman");
    reveal_strlit("paru");
    reveal_strlit("yay");
    reveal_strlit("pamac");
    reveal_strlit("rm");
    let i = choose|i: int| 0 <= i < package_tools().len() && package_tools()[i] == name;
    assert(name.len() > 2);
}

/// A package tool (`pacman`, `paru`, `yay`, `pamac`, under any directory)
/// asked to remove (`-R…`, `--remove`) a protected core package (`glibc`,
/// `systemd`, `linux`, `base`, `pacman`, …) is refused.
pub proof fn law_critical_removal_blocked(binary: Seq<char>, args: Seq<Seq<char>>, i: int, j: int)
    requires
        one_of(package_tools(), program_name(binary)),
        0 <= i < args.len(),
        short_flag_has(args[i], 'R') || args[i] == "--remove"@,
        0 <= j < args.len(),
        !is_flag(args[j]),
        is_critical(after_last_slash(args[j])),
    ensures
        safety_of(binary, args) is Blocked,
{
    lemma_tool_not_rm(program_name(binary));
    assert(asks_for(args, 'R', "--remove"@));
    lemma_operand_kept(args, j);
    let k = choose|k: int| 0 <= k < operands(args).len() && operands(args)[k] == args[j];
    lemma_critical_found(operands(args), k);
}

/// A recursive `rm` of a core system path (`/`, `/*`, `/etc`, `/usr`,
/// `/var`, `/boot`) is refused.
pub proof fn law_rm_core_path_blocked(binary: Seq<char>, args: Seq<Seq<char>>, i: int, j: int)
    requires
        program_name(binary) == "rm"@,
        0 <= i < args.len(),
        has_char(args[i], 'r') || has_char(args[i], 'R') || args[i] == "--recursive"@,
        0 <= j < args.len(),
        one_of(core_paths(), args[j]),
    ensures
        safety_of(binary, args) is Blocked,
{
}

/// Programs other than `rm` and the package tools are never refused nor
/// warned about.
pub proof fn law_other_programs_safe(binary: Seq<char>, args: Seq<Seq<char>>)
    requires
        program_name(binary) != "rm"@,
        !one_of(package_tools(), program_name(binary)),
    ensures
        safety_of(binary, args) == DangerView::Safe,
{
}

/// No translation both needs root rights and runs through an AUR helper:
/// AUR helpers are run as the user.
pub proof fn law_root_and_aur_exclusive(
    src: SourceView,
    args: Seq<Seq<char>>,
    h: Seq<char>,
    ov: Seq<(Seq<char>, Seq<char>)>,
)
    ensures
        !(translate_spec(src, args, h, ov).needs_root && translate_spec(src, args, h, ov).needs_aur),
{
}

/// With plain `pacman` as the helper, only the conversions of foreign
/// package files (`debtap`, `rpmextract`) are marked as AUR work.
pub proof fn law_pacman_helper_no_aur(
    src: SourceView,
    args: Seq<Seq<char>>,
    ov: Seq<(Seq<char>, Seq<char>)>,
)
    ensures
        translate_spec(src, args, "pacman"@, ov).needs_aur ==> (translate_spec(src, args, "pacman"@, ov).op is DebtapConvert
            || translate_spec(src, args, "pacman"@, ov).op is RpmExtract),
{
}

/// An argument that asks `dnf` not to confirm.
pub open spec fn is_assumeyes_flag(a: Seq<char>) -> bool {
    a == "-y"@ || a == "--assumeyes"@
}

/// `dnf install` skips confirmation (`--noconfirm`) exactly when `-y` or
/// `--assumeyes` is among its arguments.
pub proof fn law_dnf_yes_means_noconfirm(
    rest: Seq<Seq<char>>,
    ov: Seq<(Seq<char>, Seq<char>)>,
    maps: Seq<(Seq<char>, Seq<char>)>,
)
    ensures
        dnf_scan(rest, ov, maps).noconfirm <==> exists|i: int| 0 <= i < rest.len() && is_assumeyes_flag(#[trigger] rest[i]),
    decreases rest.len(),
{
    if rest.len() > 0 {
        let init = rest.drop_last();
        law_dnf_yes_means_noconfirm(init, ov, maps);
        if dnf_scan(rest, ov, maps).noconfirm {
            if !is_assumeyes_flag(rest.last()) {
                let i = choose|i: int| 0 <= i < init.len() && is_assumeyes_flag(#[trigger] init[i]);
                assert(rest[i] == init[i]);
            } else {
                assert(is_assumeyes_flag(rest[rest.len() - 1]));
            }
        } else {
            assert forall|i: int| 0 <= i < rest.len() implies !is_assumeyes_flag(#[trigger] rest[i]) by {
                if i < rest.len() - 1 {
                    assert(rest[i] == init[i]);
                }
            }
        }
    }
}

/// Under `sudo`, a command meant for plain `pacman` (shown as `sudo pacman
/// …`) runs `pacman` itself with the same operation arguments: the
/// redundant `sudo` is dropped.
pub proof fn law_sudo_pacman_runs_pacman(a: Seq<Seq<char>>)
    ensures
        effective_command(true, run_bin("pacman"@), run_args("pacman"@, a)) == ("pacman"@, a),
{
    assert((seq!["pacman"@] + a).drop_first() =~= a);
}

/// Under `sudo`, with the user behind it known, a command that goes through
/// an AUR helper and that the safety rules let run is run as that user.
pub proof fn law_aur_runs_as_user(
    src: SourceView,
    args: Seq<Seq<char>>,
    h: Seq<char>,
    ov: Seq<(Seq<char>, Seq<char>)>,
)
    ensures
        ({
            let r = translate_spec(src, args, h, ov);
            let p = plan_of(true, true, false, r.op, r.exec_binary, r.exec_args, r.needs_aur);
            r.needs_aur ==> (p matches PlanView::Run { as_user, .. } ==> as_user)
        }),
{
}

/// The pacman database counts as locked, in one way or another, exactly when
/// its lock file exists.
pub proof fn law_unlocked_without_lock_file(obs: LockObservation)
    ensures
        (lock_status_of(obs) == LockView::NotLocked) <==> !obs.lock_exists,
{
}

/// Nothing runs while the root filesystem is mounted read-only.
pub proof fn law_readonly_root_runs_nothing(
    is_sudo: bool,
    has_sudo_user: bool,
    op: OpView,
    binary: Seq<char>,
    args: Seq<Seq<char>>,
    needs_aur: bool,
)
    ensures
        plan_of(is_sudo, has_sudo_user, true, op, binary, args, needs_aur) == PlanView::ReadOnlyRoot,
{
}

/// The safety rules decide for every user: a command whose end program (after
/// any leading `sudo`) the rules refuse is refused, whether or not the
/// helper already runs as root; and whatever is planned to run, the rules do
/// not refuse it.
pub proof fn law_refused_commands_never_run(
    is_sudo: bool,
    has_sudo_user: bool,
    readonly_root: bool,
    op: OpView,
    binary: Seq<char>,
    args: Seq<Seq<char>>,
    needs_aur: bool,
)
    ensures
        ({
            let (jb, ja) = judged_command(binary, args);
            let p = plan_of(is_sudo, has_sudo_user, readonly_root, op, binary, args, needs_aur);
            &&& p is Run ==> !(safety_of(jb, ja) is Blocked)
            &&& !readonly_root && !(op is RemoveOrphans) && safety_of(jb, ja) is Blocked ==> p is Blocked
            &&& p matches PlanView::Run { binary: b, args: a, .. } ==> (b, a) == effective_command(is_sudo, binary, args)
        }),
{
}

/// `sudo` is looked through: `sudo <program> <args>` is judged as
/// `<program> <args>`.
pub proof fn law_leading_sudo_looked_through(program: Seq<char>, args: Seq<Seq<char>>)
    ensures
        judged_command("sudo"@, seq![program] + args) == judged_command(program, args),
{
    reveal_strlit("sudo");
    reveal_strlit(".");
    reveal_strlit("..");
    assert(no_slash("sudo"@));
    assert("sudo"@.len() != "."@.len() && "sudo"@.len() != ".."@.len());
    lemma_file_name_of_name(Seq::empty(), "sudo"@);
    assert((seq![program] + args)[0] == program);
    assert((seq![program] + args).drop_first() =~= args);
}

/// A removal through `pacman` (as `apt remove`, `dnf remove`, … translate
/// to: `sudo pacman -R… <packages>`) that names a protected core package is
/// refused for every user, root or not.
pub proof fn law_core_removal_refused_for_everyone(
    flag: Seq<char>,
    pkgs: Seq<Seq<char>>,
    nc: bool,
    nosave: bool,
    recursive: bool,
    en: Seq<char>,
    fa: Seq<char>,
    is_sudo: bool,
    has_sudo_user: bool,
    j: int,
)
    requires
        short_flag_has(flag, 'R'),
        0 <= j < pkgs.len(),
        !is_flag(pkgs[j]),
        is_critical(after_last_slash(pkgs[j])),
    ensures
        ({
            let r = remove_result(flag, pkgs, nc, nosave, recursive, en, fa);
            plan_of(is_sudo, has_sudo_user, false, r.op, r.exec_binary, r.exec_args, r.needs_aur) is Blocked
        }),
{
    let r = remove_result(flag, pkgs, nc, nosave, recursive, en, fa);
    let inner = seq![flag] + nc_args(nc) + pkgs;
    assert(r.exec_args =~= seq!["pacman"@] + inner);
    law_leading_sudo_looked_through("pacman"@, inner);
    reveal_strlit("pacman");
    reveal_strlit("sudo");
    reveal_strlit(".");
    reveal_strlit("..");
    assert(no_slash("pacman"@));
    lemma_file_name_of_name(Seq::empty(), "pacman"@);
    assert(judged_command("pacman"@, inner) == ("pacman"@, inner));
    assert(one_of(package_tools(), "pacman"@));
    let k = nc_args(nc).len() + 1 + j;
    assert(inner[0] == flag);
    assert(inner[k] == pkgs[j]);
    law_critical_removal_blocked("pacman"@, inner, 0, k);
}

/// How a command line through helper `h` begins: `sudo pacman ` for plain
/// `pacman`, else the helper's name and a space.
pub open spec fn helper_prefix(h: Seq<char>) -> Seq<char> {
    if is_pacman(h) {
        "sudo pacman "@
    } else {
        h + " "@
    }
}

proof fn lemma_prefix_of_concat(p: Seq<char>, rest: Seq<char>, whole: Seq<char>)
    requires
        whole == p + rest,
    ensures
        has_prefix(whole, p),
{
    assert(whole.subrange(0, p.len() as int) =~= p);
}

proof fn lemma_run_cmd_prefix(h: Seq<char>, flag: Seq<char>, tail: Seq<char>)
    ensures
        has_prefix(run_cmd(h, flag) + tail, helper_prefix(h)),
{
    if is_pacman(h) {
        assert(run_cmd(h, flag) + tail =~= "sudo pacman "@ + (flag + tail));
        lemma_prefix_of_concat("sudo pacman "@, flag + tail, run_cmd(h, flag) + tail);
    } else {
        assert(run_cmd(h, flag) + tail =~= (h + " "@) + (flag + tail));
        lemma_prefix_of_concat(h + " "@, flag + tail, run_cmd(h, flag) + tail);
    }
}

broadcast proof fn lemma_helper_op_prefix(
    h: Seq<char>,
    flag: Seq<char>,
    op: OpView,
    en: Seq<char>,
    fa: Seq<char>,
    w: Option<Seq<char>>,
)
    ensures
        has_prefix(#[trigger] helper_op(h, flag, op, en, fa, w).command, helper_prefix(h)),
{
    lemma_run_cmd_prefix(h, flag, Seq::empty());
    assert(run_cmd(h, flag) + Seq::<char>::empty() =~= run_cmd(h, flag));
}

broadcast proof fn lemma_install_prefix(
    h: Seq<char>,
    flag: Seq<char>,
    pkgs: Seq<Seq<char>>,
    nc: bool,
    d: bool,
    en: Seq<char>,
    fa: Seq<char>,
)
    ensures
        has_prefix(#[trigger] install_result(h, flag, pkgs, nc, d, en, fa).command, helper_prefix(h)),
{
    lemma_run_cmd_prefix(h, flag, nc_cmd(nc) + spaced(pkgs));
    assert(run_cmd(h, flag) + nc_cmd(nc) + spaced(pkgs) =~= run_cmd(h, flag) + (nc_cmd(nc) + spaced(pkgs)));
}

broadcast proof fn lemma_upgrade_prefix(
    h: Seq<char>,
    flag: Seq<char>,
    nc: bool,
    d: bool,
    en: Seq<char>,
    fa: Seq<char>,
)
    ensures
        has_prefix(#[trigger] upgrade_result(h, flag, nc, d, en, fa).command, helper_prefix(h)),
{
    lemma_run_cmd_prefix(h, flag, nc_cmd(nc));
}

broadcast proof fn lemma_joined_install_prefix(
    h: Seq<char>,
    pkgs: Seq<Seq<char>>,
    nc: bool,
    en: Seq<char>,
    fa: Seq<char>,
    w: Option<Seq<char>>,
)
    ensures
        has_prefix(#[trigger] joined_install_result(h, pkgs, nc, en, fa, w).command, helper_prefix(h)),
{
    let tail = " "@ + join(pkgs, " "@) + nc_cmd(nc);
    lemma_run_cmd_prefix(h, "-S"@, tail);
    assert(run_cmd(h, "-S"@) + " "@ + join(pkgs, " "@) + nc_cmd(nc) =~= run_cmd(h, "-S"@) + tail);
}

/// `r`, when it installs, upgrades or refreshes, goes through helper `h`: its
/// command line begins with `sudo pacman ` for plain `pacman` and with the
/// helper's name otherwise; it is run by `sudo` (first argument `pacman`) or
/// by the helper itself; root rights are needed exactly with `pacman`, and
/// AUR work otherwise.
pub open spec fn sync_via_helper(r: TranslationView, h: Seq<char>) -> bool {
    (r.op is SyncInstall || r.op is SyncUpgrade || r.op is SyncRefresh) ==> {
        &&& has_prefix(r.command, helper_prefix(h))
        &&& r.exec_binary == run_bin(h)
        &&& r.needs_root == is_pacman(h)
        &&& r.needs_aur == !is_pacman(h)
        &&& is_pacman(h) ==> r.exec_args.len() > 0 && r.exec_args[0] == "pacman"@
    }
}

proof fn lemma_sync_apt(args: Seq<Seq<char>>, h: Seq<char>, ov: Seq<(Seq<char>, Seq<char>)>)
    ensures
        sync_via_helper(apt_spec(args, h, ov, builtin_debian()), h),
{
    broadcast use lemma_helper_op_prefix, lemma_install_prefix, lemma_upgrade_prefix, lemma_joined_install_prefix;
}

proof fn lemma_sync_dnf(args: Seq<Seq<char>>, h: Seq<char>, ov: Seq<(Seq<char>, Seq<char>)>)
    ensures
        sync_via_helper(dnf_spec(args, h, ov, builtin_fedora()), h),
{
    broadcast use lemma_helper_op_prefix, lemma_install_prefix, lemma_upgrade_prefix, lemma_joined_install_prefix;
}

proof fn lemma_sync_apk(args: Seq<Seq<char>>, h: Seq<char>, ov: Seq<(Seq<char>, Seq<char>)>)
    ensures
        sync_via_helper(apk_spec(args, h, ov, builtin_alpine()), h),
{
    broadcast use lemma_helper_op_prefix, lemma_install_prefix, lemma_upgrade_prefix, lemma_joined_install_prefix;
}

proof fn lemma_sync_zypper(args: Seq<Seq<char>>, h: Seq<char>, ov: Seq<(Seq<char>, Seq<char>)>)
    ensures
        sync_via_helper(zypper_spec(args, h, ov, builtin_zypper()), h),
{
    broadcast use lemma_helper_op_prefix, lemma_install_prefix, lemma_upgrade_prefix, lemma_joined_install_prefix;
}

proof fn lemma_sync_brew(args: Seq<Seq<char>>, h: Seq<char>, ov: Seq<(Seq<char>, Seq<char>)>)
    ensures
        sync_via_helper(brew_spec(args, h, ov, builtin_brew()), h),
{
    broadcast use lemma_helper_op_prefix, lemma_install_prefix, lemma_upgrade_prefix, lemma_joined_install_prefix;
}

proof fn lemma_sync_flatpak(args: Seq<Seq<char>>, h: Seq<char>)
    ensures
        sync_via_helper(flatpak_spec(args, h, builtin_debian()), h),
{
    broadcast use lemma_helper_op_prefix, lemma_install_prefix, lemma_upgrade_prefix, lemma_joined_install_prefix;
}

proof fn lemma_sync_snap(args: Seq<Seq<char>>, h: Seq<char>)
    ensures
        sync_via_helper(snap_spec(args, h, builtin_debian()), h),
{
    broadcast use lemma_helper_op_prefix, lemma_install_prefix, lemma_upgrade_prefix, lemma_joined_install_prefix;
}

/// Every installation, upgrade or refresh goes through the configured
/// helper, whatever the foreign manager.
pub proof fn law_sync_uses_helper(
    src: SourceView,
    args: Seq<Seq<char>>,
    h: Seq<char>,
    ov: Seq<(Seq<char>, Seq<char>)>,
)
    ensures
        sync_via_helper(translate_spec(src, args, h, ov), h),
{
    lemma_sync_apt(args, h, ov);
    lemma_sync_dnf(args, h, ov);
    lemma_sync_apk(args, h, ov);
    lemma_sync_zypper(args, h, ov);
    lemma_sync_brew(args, h, ov);
    lemma_sync_flatpak(args, h);
    lemma_sync_snap(args, h);
}

/// The program names of the known package managers.
pub open spec fn manager_names() -> Seq<Seq<char>> {
    seq!["apt"@, "apt-get"@, "apt-cache"@, "aptitude"@, "dnf"@, "yum"@, "apk"@, "zypper"@, "brew"@, "flatpak"@, "snap"@, "dpkg"@, "rpm"@]
}

/// A known manager named by its program name is shown under a label that
/// starts with that name and a parenthesis; any other program name (without
/// a directory, not `.` or `..`) stands for an unknown manager and is shown
/// as it is.
pub proof fn law_display_round_trip(s: Seq<char>)
    requires
        s.len() > 0,
        no_slash(s),
        s != "."@,
        s != ".."@,
    ensures
        one_of(manager_names(), s) ==> !(source_of(s) is Unknown) && has_prefix(display_of(source_of(s)), s + " ("@),
        !one_of(manager_names(), s) ==> source_of(s) == SourceView::Unknown(s) && display_of(source_of(s)) == s,
{
    lemma_file_name_of_name(Seq::empty(), s);
    reveal_strlit("apt");
    reveal_strlit("apt-get");
    reveal_strlit("apt-cache");
    reveal_strlit("aptitude");
    reveal_strlit("dnf");
    reveal_strlit("yum");
    reveal_strlit("apk");
    reveal_strlit("zypper");
    reveal_strlit("brew");
    reveal_strlit("flatpak");
    reveal_strlit("snap");
    reveal_strlit("dpkg");
    reveal_strlit("rpm");
    if !one_of(manager_names(), s) {
        assert(manager_names()[0] == "apt"@);
        assert(manager_names()[1] == "apt-get"@);
        assert(manager_names()[2] == "apt-cache"@);
        assert(manager_names()[3] == "aptitude"@);
        assert(manager_names()[4] == "dnf"@);
        assert(manager_names()[5] == "yum"@);
        assert(manager_names()[6] == "apk"@);
        assert(manager_names()[7] == "zypper"@);
        assert(manager_names()[8] == "brew"@);
        assert(manager_names()[9] == "flatpak"@);
        assert(manager_names()[10] == "snap"@);
        assert(manager_names()[11] == "dpkg"@);
        assert(manager_names()[12] == "rpm"@);
    }
    reveal_strlit(" (");
    match source_of(s) {
        SourceView::Apt => {
            reveal_strlit("apt");
            reveal_strlit("apt (Debian/Ubuntu)");
            assert("apt (Debian/Ubuntu)"@.subrange(0, 5) =~= "apt"@ + " ("@);
        },
        SourceView::AptGet => {
            reveal_strlit("apt-get");
            reveal_strlit("apt-get (Debian/Ubuntu)");
            assert("apt-get (Debian/Ubuntu)"@.subrange(0, 9) =~= "apt-get"@ + " ("@);
        },
        SourceView::AptCache => {
            reveal_strlit("apt-cache");
            reveal_strlit("apt-cache (Debian/Ubuntu)");
            assert("apt-cache (Debian/Ubuntu)"@.subrange(0, 11) =~= "apt-cache"@ + " ("@);
        },
        SourceView::Aptitude => {
            reveal_strlit("aptitude");
            reveal_strlit("aptitude (Debian)");
            assert("aptitude (Debian)"@.subrange(0, 10) =~= "aptitude"@ + " ("@);
        },
        SourceView::Dnf => {
            reveal_strlit("dnf");
            reveal_strlit("dnf (Fedora/RHEL)");
            assert("dnf (Fedora/RHEL)"@.subrange(0, 5) =~= "dnf"@ + " ("@);
        },
        SourceView::Yum => {
            reveal_strlit("yum");
            reveal_strlit("yum (CentOS/RHEL)");
            assert("yum (CentOS/RHEL)"@.subrange(0, 5) =~= "yum"@ + " ("@);
        },
        SourceView::Apk => {
            reveal_strlit("apk");
            reveal_strlit("apk (Alpine)");
            assert("apk (Alpine)"@.subrange(0, 5) =~= "apk"@ + " ("@);
        },
        SourceView::Zypper => {
            reveal_strlit("zypper");
            reveal_strlit("zypper (openSUSE)");
            assert("zypper (openSUSE)"@.subrange(0, 8) =~= "zypper"@ + " ("@);
        },
        SourceView::Brew => {
            reveal_strlit("brew");
            reveal_strlit("brew (Homebrew/macOS)");
            assert("brew (Homebrew/macOS)"@.subrange(0, 6) =~= "brew"@ + " ("@);
        },
        SourceView::Flatpak => {
            reveal_strlit("flatpak");
            reveal_strlit("flatpak (Sandboxed App)");
            assert("flatpak (Sandboxed App)"@.subrange(0, 9) =~= "flatpak"@ + " ("@);
        },
        SourceView::Snap => {
            reveal_strlit("snap");
            reveal_strlit("snap (Canonical Snap)");
            assert("snap (Canonical Snap)"@.subrange(0, 6) =~= "snap"@ + " ("@);
        },
        SourceView::Dpkg => {
            reveal_strlit("dpkg");
            reveal_strlit("dpkg (Debian Package)");
            assert("dpkg (Debian Package)"@.subrange(0, 6) =~= "dpkg"@ + " ("@);
        },
        SourceView::Rpm => {
            reveal_strlit("rpm");
            reveal_strlit("rpm (RedHat Package)");
            assert("rpm (RedHat Package)"@.subrange(0, 5) =~= "rpm"@ + " ("@);
        },
        SourceView::Unknown(_) => {},
    }
}

/// In a table where no key occurs twice (as the embedded tables and the
/// configurations read from files), the order of the entries does not
/// matter: looking up the key of any entry gives that entry's value.
pub proof fn law_unique_keys_lookup(table: Seq<(Seq<char>, Seq<char>)>, i: int)
    requires
        distinct_keys(table),
        0 <= i < table.len(),
    ensures
        lookup(table, table[i].0) == Some(table[i].1),
    decreases i,
{
    if i > 0 {
        let rest = table.drop_first();
        assert(table[0].0 != table[i].0);
        assert(rest[i - 1] == table[i]);
        assert forall|a: int, b: int| 0 <= a < b < rest.len() implies #[trigger] rest[a].0 != #[trigger] rest[b].0 by {
            assert(rest[a] == table[a + 1]);
            assert(rest[b] == table[b + 1]);
        }
        law_unique_keys_lookup(rest, i - 1);
    }
}

/// The flag of a full upgrade: `-Syu`, or `-Syuw` when only downloading.
pub open spec fn upgrade_flag(download_only: bool) -> Seq<char> {
    if download_only {
        "-Syuw"@
    } else {
        "-Syu"@
    }
}

/// Both upgrade flags refresh the databases (`y`) and upgrade (`u`).
pub proof fn law_upgrade_flag_upgrades(download_only: bool)
    ensures
        has_char(upgrade_flag(download_only), 'y'),
        has_char(upgrade_flag(download_only), 'u'),
{
    reveal_strlit("-Syuw");
    reveal_strlit("-Syu");
    let f = upgrade_flag(download_only);
    assert(f[2] == 'y');
    assert(f[3] == 'u');
}

/// `r`, when it is an upgrade, runs a full upgrade through helper `h`: the
/// command is `<helper> -Syu` (`-Syuw` when only downloading), followed by
/// `--noconfirm` when confirmation is skipped.
pub open spec fn upgrades_fully(r: TranslationView, h: Seq<char>) -> bool {
    r.op matches OpView::SyncUpgrade { noconfirm, download_only } ==> {
        &&& r.command == run_cmd(h, upgrade_flag(download_only)) + nc_cmd(noconfirm)
        &&& r.exec_binary == run_bin(h)
        &&& r.exec_args == run_args(h, seq![upgrade_flag(download_only)] + nc_args(noconfirm))
    }
}

broadcast proof fn lemma_append_empty<A>(s: Seq<A>)
    ensures
        #[trigger] (s + Seq::<A>::empty()) == s,
{
    assert(s + Seq::<A>::empty() =~= s);
}

proof fn lemma_upgrades_apt(args: Seq<Seq<char>>, h: Seq<char>, ov: Seq<(Seq<char>, Seq<char>)>)
    ensures
        upgrades_fully(apt_spec(args, h, ov, builtin_debian()), h),
{
    broadcast use lemma_append_empty;
}

proof fn lemma_upgrades_dnf(args: Seq<Seq<char>>, h: Seq<char>, ov: Seq<(Seq<char>, Seq<char>)>)
    ensures
        upgrades_fully(dnf_spec(args, h, ov, builtin_fedora()), h),
{
    broadcast use lemma_append_empty;
}

proof fn lemma_upgrades_apk(args: Seq<Seq<char>>, h: Seq<char>, ov: Seq<(Seq<char>, Seq<char>)>)
    ensures
        upgrades_fully(apk_spec(args, h, ov, builtin_alpine()), h),
{
    broadcast use lemma_append_empty;
}

proof fn lemma_upgrades_zypper(args: Seq<Seq<char>>, h: Seq<char>, ov: Seq<(Seq<char>, Seq<char>)>)
    ensures
        upgrades_fully(zypper_spec(args, h, ov, builtin_zypper()), h),
{
    broadcast use lemma_append_empty;
}

proof fn lemma_upgrades_brew(args: Seq<Seq<char>>, h: Seq<char>, ov: Seq<(Seq<char>, Seq<char>)>)
    ensures
        upgrades_fully(brew_spec(args, h, ov, builtin_brew()), h),
{
    broadcast use lemma_append_empty;
}

proof fn lemma_upgrades_flatpak(args: Seq<Seq<char>>, h: Seq<char>)
    ensures
        upgrades_fully(flatpak_spec(args, h, builtin_debian()), h),
{
    broadcast use lemma_append_empty;
}

proof fn lemma_upgrades_snap(args: Seq<Seq<char>>, h: Seq<char>)
    ensures
        upgrades_fully(snap_spec(args, h, builtin_debian()), h),
{
    broadcast use lemma_append_empty;
}

/// Whatever the foreign manager, an upgrade is a full upgrade through the
/// configured helper (`-Syu` / `-Syuw`, never a bare refresh).
pub proof fn law_upgrades_are_full(
    src: SourceView,
    args: Seq<Seq<char>>,
    h: Seq<char>,
    ov: Seq<(Seq<char>, Seq<char>)>,
)
    ensures
        upgrades_fully(translate_spec(src, args, h, ov), h),
{
    lemma_upgrades_apt(args, h, ov);
    lemma_upgrades_dnf(args, h, ov);
    lemma_upgrades_apk(args, h, ov);
    lemma_upgrades_zypper(args, h, ov);
    lemma_upgrades_brew(args, h, ov);
    lemma_upgrades_flatpak(args, h);
    lemma_upgrades_snap(args, h);
}

/// The upgrade subcommands of `apt` are none of the subcommands tested before
/// them, and not the stray `get`.
proof fn lemma_apt_upgrade_names(sub: Seq<char>)
    requires
        sub == "upgrade"@ || sub == "upg"@ || sub == "dist-upgrade"@ || sub == "full-upgrade"@,
    ensures
        sub != "get"@,
        sub != "update"@,
        sub != "upd"@,
{
    reveal_strlit("upgrade");
    reveal_strlit("upg");
    reveal_strlit("dist-upgrade");
    reveal_strlit("full-upgrade");
    reveal_strlit("get");
    reveal_strlit("update");
    reveal_strlit("upd");
    assert("upg"@[2] != "upd"@[2]);
    assert("upg"@[0] != "get"@[0]);
    assert("upgrade"@.len() != "update"@.len() && "upgrade"@.len() != "get"@.len());
    assert("dist-upgrade"@.len() != "update"@.len() && "dist-upgrade"@.len() != "get"@.len());
    assert("full-upgrade"@.len() != "update"@.len() && "full-upgrade"@.len() != "get"@.len());
    assert("upg"@.len() != "update"@.len());
    assert("upgrade"@.len() != "upd"@.len() && "dist-upgrade"@.len() != "upd"@.len());
    assert("full-upgrade"@.len() != "upd"@.len());
}

/// `apt <sub> <rest>` for an upgrade subcommand is the upgrade itself.
proof fn lemma_apt_upgrade_sub(
    sub: Seq<char>,
    rest: Seq<Seq<char>>,
    h: Seq<char>,
    ov: Seq<(Seq<char>, Seq<char>)>,
)
    requires
        sub == "upgrade"@ || sub == "upg"@ || sub == "dist-upgrade"@ || sub == "full-upgrade"@,
    ensures
        ({
            let yes = has_text(rest, "-y"@) || has_text(rest, "--yes"@) || has_text(rest, "--assume-yes"@);
            let d = has_text(rest, "-d"@) || has_text(rest, "--download-only"@);
            translate_spec(SourceView::Apt, seq![sub] + rest, h, ov) == upgrade_result(
                h,
                upgrade_flag(d),
                yes,
                d,
                "Full system upgrade (Official repos + AUR)."@,
                "ارتقا و به‌روزرسانی کامل کلیه برنامه‌ها و سیستم."@,
            )
        }),
{
    lemma_apt_upgrade_names(sub);
    let args = seq![sub] + rest;
    assert(args[0] == sub);
    assert(args.drop_first() =~= rest);
}

/// `apt upgrade`, `apt upg`, `apt dist-upgrade` and `apt full-upgrade` all
/// translate alike, to a full upgrade through the helper: `-Syu` (`-Syuw`
/// with `-d` / `--download-only`), with `--noconfirm` exactly when `-y`,
/// `--yes` or `--assume-yes` is given.
pub proof fn law_apt_upgrade_family(
    sub: Seq<char>,
    rest: Seq<Seq<char>>,
    h: Seq<char>,
    ov: Seq<(Seq<char>, Seq<char>)>,
)
    requires
        sub == "upgrade"@ || sub == "upg"@ || sub == "dist-upgrade"@ || sub == "full-upgrade"@,
    ensures
        ({
            let r = translate_spec(SourceView::Apt, seq![sub] + rest, h, ov);
            let yes = has_text(rest, "-y"@) || has_text(rest, "--yes"@) || has_text(rest, "--assume-yes"@);
            let d = has_text(rest, "-d"@) || has_text(rest, "--download-only"@);
            &&& r == translate_spec(SourceView::Apt, seq!["upgrade"@] + rest, h, ov)
            &&& r.op == OpView::SyncUpgrade { noconfirm: yes, download_only: d }
            &&& r.command == run_cmd(h, upgrade_flag(d)) + nc_cmd(yes)
            &&& r.exec_binary == run_bin(h)
            &&& r.exec_args == run_args(h, seq![upgrade_flag(d)] + nc_args(yes))
            &&& r.needs_root == is_pacman(h)
        }),
{
    lemma_apt_upgrade_sub(sub, rest, h, ov);
    lemma_apt_upgrade_sub("upgrade"@, rest, h, ov);
}

/// `dnf update` is `dnf upgrade`: for every argument list and helper the two
/// translate alike, to a full upgrade through the helper (`-Syu`, `-Syuw`
/// with `--downloadonly`), with `--noconfirm` exactly when `-y` or
/// `--assumeyes` is given.
pub proof fn law_dnf_update_is_upgrade(
    rest: Seq<Seq<char>>,
    h: Seq<char>,
    ov: Seq<(Seq<char>, Seq<char>)>,
)
    ensures
        ({
            let r = translate_spec(SourceView::Dnf, seq!["update"@] + rest, h, ov);
            let yes = has_text(rest, "-y"@) || has_text(rest, "--assumeyes"@);
            let d = has_text(rest, "--downloadonly"@);
            &&& r == translate_spec(SourceView::Dnf, seq!["upgrade"@] + rest, h, ov)
            &&& r.op == OpView::SyncUpgrade { noconfirm: yes, download_only: d }
            &&& r.command == run_cmd(h, upgrade_flag(d)) + nc_cmd(yes)
            &&& r.exec_args == run_args(h, seq![upgrade_flag(d)] + nc_args(yes))
        }),
{
    reveal_strlit("update");
    reveal_strlit("upgrade");
    reveal_strlit("check-update");
    let a = seq!["update"@] + rest;
    assert(a[0] == "update"@);
    assert(a.drop_first() =~= rest);
    let b = seq!["upgrade"@] + rest;
    assert(b[0] == "upgrade"@);
    assert(b.drop_first() =~= rest);
}

/// The packages of `zypper install` are exactly its operands (the arguments
/// that are not flags), in order, each under its Arch name.
pub proof fn law_zypper_packages_are_operands(
    rest: Seq<Seq<char>>,
    ov: Seq<(Seq<char>, Seq<char>)>,
    maps: Seq<(Seq<char>, Seq<char>)>,
)
    ensures
        zypper_pkgs(rest, ov, maps).len() == operands(rest).len(),
        forall|i: int|
            0 <= i < operands(rest).len() ==> #[trigger] zypper_pkgs(rest, ov, maps)[i] == zypper_pkg_name(
                ov,
                maps,
                operands(rest)[i],
            ),
    decreases rest.len(),
{
    if rest.len() > 0 {
        law_zypper_packages_are_operands(rest.drop_last(), ov, maps);
        reveal_strlit("-y");
        reveal_strlit("--non-interactive");
        let a = rest.last();
        if a == "-y"@ || a == "--non-interactive"@ {
            assert(is_flag(a));
        }
    }
}

/// `zypper in` / `zypper install` installs exactly the operands, in order,
/// each under its Arch name, through the helper (`-S`), with `--noconfirm`
/// exactly when `-y` or `--non-interactive` is given.
pub proof fn law_zypper_install_installs_operands(
    sub: Seq<char>,
    rest: Seq<Seq<char>>,
    h: Seq<char>,
    ov: Seq<(Seq<char>, Seq<char>)>,
)
    requires
        sub == "in"@ || sub == "install"@,
    ensures
        ({
            let r = translate_spec(SourceView::Zypper, seq![sub] + rest, h, ov);
            let yes = has_text(rest, "-y"@) || has_text(rest, "--non-interactive"@);
            let ops = operands(rest);
            r.op matches OpView::SyncInstall { pkgs, noconfirm, .. } && noconfirm == yes && pkgs.len()
                == ops.len() && forall|k: int|
                0 <= k < ops.len() ==> #[trigger] pkgs[k] == zypper_pkg_name(ov, builtin_zypper(), ops[k])
        }),
{
    reveal_strlit("in");
    reveal_strlit("install");
    reveal_strlit("ref");
    reveal_strlit("refresh");
    reveal_strlit("dup");
    reveal_strlit("dist-upgrade");
    reveal_strlit("up");
    reveal_strlit("update");
    assert("in"@[0] != "up"@[0]);
    assert("install"@[0] != "refresh"@[0] && "install"@[0] != "update"@[0]);
    assert("in"@.len() != "ref"@.len() && "in"@.len() != "dup"@.len());
    assert("install"@.len() != "ref"@.len() && "install"@.len() != "dup"@.len());
    assert("install"@.len() != "up"@.len() && "in"@.len() != "refresh"@.len());
    assert("in"@.len() != "update"@.len() && "in"@.len() != "dist-upgrade"@.len());
    assert("install"@.len() != "dist-upgrade"@.len());
    let args = seq![sub] + rest;
    assert(args[0] == sub);
    assert(args.drop_first() =~= rest);
    law_zypper_packages_are_operands(rest, ov, builtin_zypper());
}

/// A command runs as the user behind `sudo` only when it is AUR work, under
/// `sudo`, with that user known; so a command that needs root (through plain
/// `pacman`) always runs as root.
pub proof fn law_only_aur_work_runs_as_user(
    src: SourceView,
    args: Seq<Seq<char>>,
    h: Seq<char>,
    ov: Seq<(Seq<char>, Seq<char>)>,
    is_sudo: bool,
    has_sudo_user: bool,
    readonly_root: bool,
)
    ensures
        ({
            let r = translate_spec(src, args, h, ov);
            let p = plan_of(is_sudo, has_sudo_user, readonly_root, r.op, r.exec_binary, r.exec_args, r.needs_aur);
            &&& p matches PlanView::Run { as_user, .. } ==> (as_user <==> (r.needs_aur && is_sudo && has_sudo_user))
            &&& r.needs_root ==> !(p matches PlanView::Run { as_user, .. } && as_user)
        }),
{
    law_root_and_aur_exclusive(src, args, h, ov);
}

} // verus!
