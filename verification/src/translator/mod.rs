//! Translation of foreign package-manager invocations into Arch commands.
pub mod apk;
pub mod apt;
pub mod brew;
pub mod dnf;
pub mod flatpak;
pub mod mapper;
pub mod snap;
pub mod zypper;

use crate::strs::{
    cat, has_suffix, is_flag, is_flag_text, join, join_texts, push_spaced, spaced, text, copy_texts,
    ends_with, split_words, str_eq, words,
};
use crate::config::Config;
use crate::context::{InvocationContext, SourceManager, SourceView};
use vstd::prelude::*;

verus! {

/// The Arch operation a translated command performs.
#[derive(Debug, Clone, PartialEq, Eq)]
pub enum PacmanOp {
    SyncInstall { pkgs: Vec<String>, noconfirm: bool, as_deps: bool, download_only: bool },
    SyncSearch { query: String },
    SyncInfo { pkg: String },
    SyncRefresh { force: bool },
    SyncUpgrade { noconfirm: bool, download_only: bool },
    Remove { pkgs: Vec<String>, noconfirm: bool, cascade: bool, nosave: bool, recursive: bool },
    RemoveOrphans { noconfirm: bool },
    CleanCache { all: bool },
    QueryList { explicit_only: bool, foreign_only: bool },
    QueryFiles { pkg: String },
    FileSearch { query: String },
    EditMirrorlist,
    DebtapConvert { files: Vec<String> },
    RpmExtract { files: Vec<String> },
    DirectPacman { args: Vec<String> },
}

/// `PacmanOp` with its texts as character sequences.
pub enum OpView {
    SyncInstall { pkgs: Seq<Seq<char>>, noconfirm: bool, as_deps: bool, download_only: bool },
    SyncSearch { query: Seq<char> },
    SyncInfo { pkg: Seq<char> },
    SyncRefresh { force: bool },
    SyncUpgrade { noconfirm: bool, download_only: bool },
    Remove { pkgs: Seq<Seq<char>>, noconfirm: bool, cascade: bool, nosave: bool, recursive: bool },
    RemoveOrphans { noconfirm: bool },
    CleanCache { all: bool },
    QueryList { explicit_only: bool, foreign_only: bool },
    QueryFiles { pkg: Seq<char> },
    FileSearch { query: Seq<char> },
    EditMirrorlist,
    DebtapConvert { files: Seq<Seq<char>> },
    RpmExtract { files: Seq<Seq<char>> },
    DirectPacman { args: Seq<Seq<char>> },
}

impl View for PacmanOp {
    type V = OpView;

    open spec fn view(&self) -> OpView {
        match self {
            PacmanOp::SyncInstall { pkgs, noconfirm, as_deps, download_only } => OpView::SyncInstall {
                pkgs: pkgs.deep_view(),
                noconfirm: *noconfirm,
                as_deps: *as_deps,
                download_only: *download_only,
            },
            PacmanOp::SyncSearch { query } => OpView::SyncSearch { query: query@ },
            PacmanOp::SyncInfo { pkg } => OpView::SyncInfo { pkg: pkg@ },
            PacmanOp::SyncRefresh { force } => OpView::SyncRefresh { force: *force },
            PacmanOp::SyncUpgrade { noconfirm, download_only } => OpView::SyncUpgrade {
                noconfirm: *noconfirm,
                download_only: *download_only,
            },
            PacmanOp::Remove { pkgs, noconfirm, cascade, nosave, recursive } => OpView::Remove {
                pkgs: pkgs.deep_view(),
                noconfirm: *noconfirm,
                cascade: *cascade,
                nosave: *nosave,
                recursive: *recursive,
            },
            PacmanOp::RemoveOrphans { noconfirm } => OpView::RemoveOrphans { noconfirm: *noconfirm },
            PacmanOp::CleanCache { all } => OpView::CleanCache { all: *all },
            PacmanOp::QueryList { explicit_only, foreign_only } => OpView::QueryList {
                explicit_only: *explicit_only,
                foreign_only: *foreign_only,
            },
            PacmanOp::QueryFiles { pkg } => OpView::QueryFiles { pkg: pkg@ },
            PacmanOp::FileSearch { query } => OpView::FileSearch { query: query@ },
            PacmanOp::EditMirrorlist => OpView::EditMirrorlist,
            PacmanOp::DebtapConvert { files } => OpView::DebtapConvert { files: files.deep_view() },
            PacmanOp::RpmExtract { files } => OpView::RpmExtract { files: files.deep_view() },
            PacmanOp::DirectPacman { args } => OpView::DirectPacman { args: args.deep_view() },
        }
    }
}

/// A translated command: what to show, what to run, and why.
#[derive(Debug, Clone)]
pub struct TranslationResult {
    /// The command line shown to the user.
    pub command: String,
    /// The program to run.
    pub exec_binary: String,
    /// Its arguments.
    pub exec_args: Vec<String>,
    /// The operation performed.
    pub op: PacmanOp,
    /// Root rights are needed.
    pub needs_root: bool,
    /// An AUR helper (or an AUR-only tool) runs the command.
    pub needs_aur: bool,
    /// English explanation.
    pub notes_en: String,
    /// Persian explanation.
    pub notes_fa: String,
    /// A caution shown beside the explanation.
    pub warning: Option<String>,
}

/// `TranslationResult` with its texts as character sequences.
pub struct TranslationView {
    pub command: Seq<char>,
    pub exec_binary: Seq<char>,
    pub exec_args: Seq<Seq<char>>,
    pub op: OpView,
    pub needs_root: bool,
    pub needs_aur: bool,
    pub notes_en: Seq<char>,
    pub notes_fa: Seq<char>,
    pub warning: Option<Seq<char>>,
}

/// The view of an optional text.
pub open spec fn opt_view(o: Option<String>) -> Option<Seq<char>> {
    match o {
        Some(s) => Some(s@),
        None => None,
    }
}

impl View for TranslationResult {
    type V = TranslationView;

    open spec fn view(&self) -> TranslationView {
        TranslationView {
            command: self.command@,
            exec_binary: self.exec_binary@,
            exec_args: self.exec_args.deep_view(),
            op: self.op@,
            needs_root: self.needs_root,
            needs_aur: self.needs_aur,
            notes_en: self.notes_en@,
            notes_fa: self.notes_fa@,
            warning: opt_view(self.warning),
        }
    }
}

/// The program that an edited command line runs: its first word, unless the
/// command is unchanged or has no word.
pub open spec fn edited_binary(old: TranslationView, custom: Seq<char>) -> Seq<char> {
    if custom != old.command && words(custom).len() > 0 {
        words(custom)[0]
    } else {
        old.exec_binary
    }
}

/// The arguments that an edited command line runs with: its other words,
/// unless the command is unchanged or has no word.
pub open spec fn edited_args(old: TranslationView, custom: Seq<char>) -> Seq<Seq<char>> {
    if custom != old.command && words(custom).len() > 0 {
        words(custom).drop_first()
    } else {
        old.exec_args
    }
}

impl TranslationResult {
    /// Takes the command line the user edited: when it differs from the shown
    /// command it becomes the shown command, and its words, split on
    /// whitespace, become the program and arguments run (unless it has none).
    pub fn apply_edited_command(&mut self, custom: String)
        ensures
            final(self).command@ == custom@,
            final(self).exec_binary@ == edited_binary(old(self)@, custom@),
            final(self).exec_args.deep_view() == edited_args(old(self)@, custom@),
            final(self).op == old(self).op,
            final(self).needs_root == old(self).needs_root,
            final(self).needs_aur == old(self).needs_aur,
            final(self).notes_en == old(self).notes_en,
            final(self).notes_fa == old(self).notes_fa,
            final(self).warning == old(self).warning,
    {
        if str_eq(custom.as_str(), self.command.as_str()) {
            return;
        }
        let mut parts = split_words(custom.as_str());
        self.command = custom;
        if parts.len() > 0 {
            let ghost all = parts.deep_view();
            let first = parts.remove(0);
            assert(parts.deep_view() =~= all.drop_first());
            self.exec_binary = first;
            self.exec_args = parts;
        }
    }
}

/// Builds a translation view from its parts.
pub open spec fn tv(
    command: Seq<char>,
    exec_binary: Seq<char>,
    exec_args: Seq<Seq<char>>,
    op: OpView,
    needs_root: bool,
    needs_aur: bool,
    notes_en: Seq<char>,
    notes_fa: Seq<char>,
    warning: Option<Seq<char>>,
) -> TranslationView {
    TranslationView { command, exec_binary, exec_args, op, needs_root, needs_aur, notes_en, notes_fa, warning }
}

/// The configured helper is plain `pacman` (which needs `sudo`) rather than an AUR helper.
pub open spec fn is_pacman(h: Seq<char>) -> bool {
    h == "pacman"@
}

/// The program that runs a helper command.
pub open spec fn run_bin(h: Seq<char>) -> Seq<char> {
    if is_pacman(h) {
        "sudo"@
    } else {
        h
    }
}

/// The arguments of a helper command with operation arguments `a`.
pub open spec fn run_args(h: Seq<char>, a: Seq<Seq<char>>) -> Seq<Seq<char>> {
    if is_pacman(h) {
        seq!["pacman"@] + a
    } else {
        a
    }
}

/// The shown command line of a helper command with operation flag `flag`.
pub open spec fn run_cmd(h: Seq<char>, flag: Seq<char>) -> Seq<char> {
    if is_pacman(h) {
        "sudo pacman "@ + flag
    } else {
        h + " "@ + flag
    }
}

/// The ` --noconfirm` suffix of a shown command line.
pub open spec fn nc_cmd(nc: bool) -> Seq<char> {
    if nc {
        " --noconfirm"@
    } else {
        Seq::empty()
    }
}

/// The `--noconfirm` argument, when asked for.
pub open spec fn nc_args(nc: bool) -> Seq<Seq<char>> {
    if nc {
        seq!["--noconfirm"@]
    } else {
        Seq::empty()
    }
}

/// A helper command with one flag: upgrades, refreshes, bare installs.
pub open spec fn helper_op(
    h: Seq<char>,
    flag: Seq<char>,
    op: OpView,
    en: Seq<char>,
    fa: Seq<char>,
    warning: Option<Seq<char>>,
) -> TranslationView {
    tv(run_cmd(h, flag), run_bin(h), run_args(h, seq![flag]), op, is_pacman(h), !is_pacman(h), en, fa, warning)
}

/// The operands (arguments not starting with `-`), in order.
pub open spec fn operands(s: Seq<Seq<char>>) -> Seq<Seq<char>>
    decreases s.len(),
{
    if s.len() == 0 {
        Seq::empty()
    } else if is_flag(s.last()) {
        operands(s.drop_last())
    } else {
        operands(s.drop_last()).push(s.last())
    }
}

/// The first argument, or the empty text.
pub open spec fn first_or_empty(s: Seq<Seq<char>>) -> Seq<char> {
    if s.len() > 0 {
        s[0]
    } else {
        Seq::empty()
    }
}

/// A package search.
pub open spec fn search_result(h: Seq<char>, rest: Seq<Seq<char>>, en: Seq<char>, fa: Seq<char>) -> TranslationView {
    let q = join(operands(rest), " "@);
    tv(
        if is_pacman(h) { "pacman -Ss "@ + q } else { h + " -Ss "@ + q },
        if is_pacman(h) { "pacman"@ } else { h },
        seq!["-Ss"@, q],
        OpView::SyncSearch { query: q },
        false,
        !is_pacman(h),
        en,
        fa,
        None,
    )
}

/// A remote package information query.
pub open spec fn info_result(rest: Seq<Seq<char>>, en: Seq<char>, fa: Seq<char>) -> TranslationView {
    let p = first_or_empty(rest);
    tv("pacman -Si "@ + p, "pacman"@, seq!["-Si"@, p], OpView::SyncInfo { pkg: p }, false, false, en, fa, None)
}

/// A package cache cleaning.
pub open spec fn clean_result(en: Seq<char>, fa: Seq<char>) -> TranslationView {
    tv("sudo pacman -Sc"@, "sudo"@, seq!["pacman"@, "-Sc"@], OpView::CleanCache { all: false }, true, false, en, fa, None)
}

/// An orphan package removal.
pub open spec fn orphans_result(nc: bool, en: Seq<char>, fa: Seq<char>) -> TranslationView {
    tv(
        "sudo pacman -Rns $(pacman -Qtdq)"@ + nc_cmd(nc),
        "pacman"@,
        seq!["-Qtdq"@],
        OpView::RemoveOrphans { noconfirm: nc },
        true,
        false,
        en,
        fa,
        None,
    )
}

/// `sudo pacman <flag> <pkgs>` removing packages.
pub open spec fn remove_result(
    flag: Seq<char>,
    pkgs: Seq<Seq<char>>,
    nc: bool,
    nosave: bool,
    recursive: bool,
    en: Seq<char>,
    fa: Seq<char>,
) -> TranslationView {
    tv(
        "sudo pacman "@ + flag + " "@ + join(pkgs, " "@) + nc_cmd(nc),
        "sudo"@,
        seq!["pacman"@, flag] + nc_args(nc) + pkgs,
        OpView::Remove { pkgs, noconfirm: nc, cascade: false, nosave, recursive },
        true,
        false,
        en,
        fa,
        None,
    )
}

/// A subcommand without a translation, tried as `pacman -S <subcommand>`.
pub open spec fn other_result(sub: Seq<char>, en_lead: Seq<char>) -> TranslationView {
    tv(
        "pacman -S "@ + sub,
        "pacman"@,
        seq!["-S"@, sub],
        OpView::DirectPacman { args: seq!["-S"@, sub] },
        true,
        false,
        en_lead + sub + "'."@,
        "تلاش برای اجرای معادل پَک‌من دستور '"@ + sub + "'."@,
        None,
    )
}

/// An installation through the helper: `<helper> <flag> [--noconfirm] <pkgs>`.
pub open spec fn install_result(
    h: Seq<char>,
    flag: Seq<char>,
    pkgs: Seq<Seq<char>>,
    nc: bool,
    download_only: bool,
    en: Seq<char>,
    fa: Seq<char>,
) -> TranslationView {
    tv(
        run_cmd(h, flag) + nc_cmd(nc) + spaced(pkgs),
        run_bin(h),
        run_args(h, seq![flag] + nc_args(nc) + pkgs),
        OpView::SyncInstall { pkgs, noconfirm: nc, as_deps: false, download_only },
        is_pacman(h),
        !is_pacman(h),
        en,
        fa,
        None,
    )
}

/// An upgrade through the helper: `<helper> <flag> [--noconfirm]`.
pub open spec fn upgrade_result(
    h: Seq<char>,
    flag: Seq<char>,
    nc: bool,
    download_only: bool,
    en: Seq<char>,
    fa: Seq<char>,
) -> TranslationView {
    tv(
        run_cmd(h, flag) + nc_cmd(nc),
        run_bin(h),
        run_args(h, seq![flag] + nc_args(nc)),
        OpView::SyncUpgrade { noconfirm: nc, download_only },
        is_pacman(h),
        !is_pacman(h),
        en,
        fa,
        None,
    )
}

/// A list of owned texts with one element.
pub fn texts1(a: &str) -> (r: Vec<String>)
    ensures
        r.deep_view() == seq![a@],
{
    let mut v: Vec<String> = Vec::new();
    v.push(text(a));
    assert(v.deep_view() =~= seq![a@]);
    v
}

/// A list of owned texts with two elements.
pub fn texts2(a: &str, b: &str) -> (r: Vec<String>)
    ensures
        r.deep_view() == seq![a@, b@],
{
    let mut v: Vec<String> = Vec::new();
    v.push(text(a));
    v.push(text(b));
    assert(v.deep_view() =~= seq![a@, b@]);
    v
}

/// Appends one text to a list.
pub fn push_text(v: &mut Vec<String>, s: &str)
    ensures
        final(v).deep_view() == old(v).deep_view().push(s@),
{
    v.push(text(s));
    assert(final(v).deep_view() =~= old(v).deep_view().push(s@));
}

/// Appends copies of texts to a list.
pub fn push_texts(v: &mut Vec<String>, xs: &[String])
    ensures
        final(v).deep_view() == old(v).deep_view() + xs.deep_view(),
{
    let ghost start = v.deep_view();
    let n = xs.len();
    let mut i: usize = 0;
    while i < n
        invariant
            n == xs@.len(),
            i <= n,
            v@.len() == start.len() + i,
            forall|j: int| 0 <= j < start.len() ==> v@[j]@ == start[j],
            forall|j: int| 0 <= j < i ==> v@[start.len() + j]@ == xs@[j]@,
        decreases n - i,
    {
        v.push(text(xs[i].as_str()));
        i += 1;
    }
    assert(v.deep_view() =~= start + xs.deep_view());
}

/// `run_bin` as a text.
pub fn run_bin_text(h: &str) -> (r: String)
    ensures
        r@ == run_bin(h@),
{
    if crate::strs::str_eq(h, "pacman") {
        text("sudo")
    } else {
        text(h)
    }
}

/// `run_args` as a list of texts.
pub fn run_args_texts(h: &str, a: Vec<String>) -> (r: Vec<String>)
    ensures
        r.deep_view() == run_args(h@, a.deep_view()),
{
    if crate::strs::str_eq(h, "pacman") {
        let mut r = texts1("pacman");
        push_texts(&mut r, a.as_slice());
        r
    } else {
        a
    }
}

/// `run_cmd` as a text.
pub fn run_cmd_text(h: &str, flag: &str) -> (r: String)
    ensures
        r@ == run_cmd(h@, flag@),
{
    if crate::strs::str_eq(h, "pacman") {
        cat("sudo pacman ", flag)
    } else {
        let mut r = cat(h, " ");
        r.append(flag);
        r
    }
}

/// Appends ` --noconfirm` when asked for.
pub fn push_nc_cmd(s: &mut String, nc: bool)
    ensures
        final(s)@ == old(s)@ + nc_cmd(nc),
{
    if nc {
        s.append(" --noconfirm");
    } else {
        assert(old(s)@ + nc_cmd(nc) =~= old(s)@);
    }
}

/// Appends `--noconfirm` to an argument list when asked for.
pub fn push_nc_arg(v: &mut Vec<String>, nc: bool)
    ensures
        final(v).deep_view() == old(v).deep_view() + nc_args(nc),
{
    if nc {
        push_text(v, "--noconfirm");
        assert(old(v).deep_view().push("--noconfirm"@) =~= old(v).deep_view() + nc_args(nc));
    } else {
        assert(old(v).deep_view() + nc_args(nc) =~= old(v).deep_view());
    }
}

/// Appends each part preceded by a space.
pub fn push_spaced_all(s: &mut String, parts: &[String])
    ensures
        final(s)@ == old(s)@ + spaced(parts.deep_view()),
{
    let ghost start = s@;
    let ghost pv = parts.deep_view();
    let n = parts.len();
    let mut i: usize = 0;
    while i < n
        invariant
            n == parts@.len(),
            pv == parts.deep_view(),
            i <= n,
            s@ == start + spaced(pv.subrange(0, i as int)),
        decreases n - i,
    {
        push_spaced(s, parts[i].as_str());
        assert(pv.subrange(0, i + 1).drop_last() =~= pv.subrange(0, i as int));
        assert(pv.subrange(0, i + 1).last() == parts@[i as int]@);
        assert(s@ =~= start + spaced(pv.subrange(0, i + 1)));
        i += 1;
    }
    assert(pv.subrange(0, n as int) =~= pv);
}

/// The operands among the arguments.
pub fn operands_of(xs: &[String]) -> (r: Vec<String>)
    ensures
        r.deep_view() == operands(xs.deep_view()),
{
    let ghost xv = xs.deep_view();
    let n = xs.len();
    let mut r: Vec<String> = Vec::new();
    let ghost mut acc: Seq<Seq<char>> = Seq::empty();
    let mut i: usize = 0;
    while i < n
        invariant
            n == xs@.len(),
            xv == xs.deep_view(),
            i <= n,
            acc == operands(xv.subrange(0, i as int)),
            r@.len() == acc.len(),
            forall|j: int| 0 <= j < acc.len() ==> r@[j]@ == acc[j],
        decreases n - i,
    {
        assert(xv.subrange(0, i + 1).drop_last() =~= xv.subrange(0, i as int));
        assert(xv.subrange(0, i + 1).last() == xs@[i as int]@);
        if !is_flag_text(xs[i].as_str()) {
            r.push(text(xs[i].as_str()));
            proof {
                acc = acc.push(xs@[i as int]@);
            }
        }
        i += 1;
    }
    assert(xv.subrange(0, n as int) =~= xv);
    assert(r.deep_view() =~= acc);
    r
}

/// The first argument, or the empty text.
pub fn first_or_empty_text(xs: &[String]) -> (r: String)
    ensures
        r@ == first_or_empty(xs.deep_view()),
{
    if xs.len() > 0 {
        text(xs[0].as_str())
    } else {
        String::new()
    }
}

/// Builds `helper_op`.
pub fn helper_op_result(
    h: &str,
    flag: &str,
    op: PacmanOp,
    en: String,
    fa: String,
    warning: Option<String>,
) -> (r: TranslationResult)
    ensures
        r@ == helper_op(h@, flag@, op@, en@, fa@, opt_view(warning)),
{
    let pac = crate::strs::str_eq(h, "pacman");
    TranslationResult {
        command: run_cmd_text(h, flag),
        exec_binary: run_bin_text(h),
        exec_args: run_args_texts(h, texts1(flag)),
        op,
        needs_root: pac,
        needs_aur: !pac,
        notes_en: en,
        notes_fa: fa,
        warning,
    }
}

/// Builds `search_result`.
pub fn search_translation(h: &str, rest: &[String], en: String, fa: String) -> (r: TranslationResult)
    ensures
        r@ == search_result(h@, rest.deep_view(), en@, fa@),
{
    let ops = operands_of(rest);
    let q = join_texts(ops.as_slice(), " ");
    let pac = crate::strs::str_eq(h, "pacman");
    let command = if pac {
        cat("pacman -Ss ", q.as_str())
    } else {
        let mut c = cat(h, " -Ss ");
        c.append(q.as_str());
        c
    };
    let bin = if pac {
        text("pacman")
    } else {
        text(h)
    };
    TranslationResult {
        command,
        exec_binary: bin,
        exec_args: texts2("-Ss", q.as_str()),
        op: PacmanOp::SyncSearch { query: q },
        needs_root: false,
        needs_aur: !pac,
        notes_en: en,
        notes_fa: fa,
        warning: None,
    }
}

/// Builds `info_result`.
pub fn info_translation(rest: &[String], en: String, fa: String) -> (r: TranslationResult)
    ensures
        r@ == info_result(rest.deep_view(), en@, fa@),
{
    let p = first_or_empty_text(rest);
    TranslationResult {
        command: cat("pacman -Si ", p.as_str()),
        exec_binary: text("pacman"),
        exec_args: texts2("-Si", p.as_str()),
        op: PacmanOp::SyncInfo { pkg: p },
        needs_root: false,
        needs_aur: false,
        notes_en: en,
        notes_fa: fa,
        warning: None,
    }
}

/// Builds `clean_result`.
pub fn clean_translation(en: String, fa: String) -> (r: TranslationResult)
    ensures
        r@ == clean_result(en@, fa@),
{
    TranslationResult {
        command: text("sudo pacman -Sc"),
        exec_binary: text("sudo"),
        exec_args: texts2("pacman", "-Sc"),
        op: PacmanOp::CleanCache { all: false },
        needs_root: true,
        needs_aur: false,
        notes_en: en,
        notes_fa: fa,
        warning: None,
    }
}

/// Builds `orphans_result`.
pub fn orphans_translation(nc: bool, en: String, fa: String) -> (r: TranslationResult)
    ensures
        r@ == orphans_result(nc, en@, fa@),
{
    let mut command = text("sudo pacman -Rns $(pacman -Qtdq)");
    push_nc_cmd(&mut command, nc);
    TranslationResult {
        command,
        exec_binary: text("pacman"),
        exec_args: texts1("-Qtdq"),
        op: PacmanOp::RemoveOrphans { noconfirm: nc },
        needs_root: true,
        needs_aur: false,
        notes_en: en,
        notes_fa: fa,
        warning: None,
    }
}

/// Builds `remove_result`.
pub fn remove_translation(
    flag: &str,
    pkgs: Vec<String>,
    nc: bool,
    nosave: bool,
    recursive: bool,
    en: String,
    fa: String,
) -> (r: TranslationResult)
    ensures
        r@ == remove_result(flag@, pkgs.deep_view(), nc, nosave, recursive, en@, fa@),
{
    let mut command = cat("sudo pacman ", flag);
    command.append(" ");
    let joined = join_texts(pkgs.as_slice(), " ");
    command.append(joined.as_str());
    push_nc_cmd(&mut command, nc);
    let mut args = texts2("pacman", flag);
    push_nc_arg(&mut args, nc);
    push_texts(&mut args, pkgs.as_slice());
    TranslationResult {
        command,
        exec_binary: text("sudo"),
        exec_args: args,
        op: PacmanOp::Remove { pkgs, noconfirm: nc, cascade: false, nosave, recursive },
        needs_root: true,
        needs_aur: false,
        notes_en: en,
        notes_fa: fa,
        warning: None,
    }
}

/// Builds `other_result`.
pub fn other_translation(sub: &str, en_lead: &str) -> (r: TranslationResult)
    ensures
        r@ == other_result(sub@, en_lead@),
{
    let mut en = cat(en_lead, sub);
    en.append("'.");
    let mut fa = cat("تلاش برای اجرای معادل پَک‌من دستور '", sub);
    fa.append("'.");
    TranslationResult {
        command: cat("pacman -S ", sub),
        exec_binary: text("pacman"),
        exec_args: texts2("-S", sub),
        op: PacmanOp::DirectPacman { args: texts2("-S", sub) },
        needs_root: true,
        needs_aur: false,
        notes_en: en,
        notes_fa: fa,
        warning: None,
    }
}

/// Builds `install_result`.
pub fn install_translation(
    h: &str,
    flag: &str,
    pkgs: Vec<String>,
    nc: bool,
    download_only: bool,
    en: String,
    fa: String,
) -> (r: TranslationResult)
    ensures
        r@ == install_result(h@, flag@, pkgs.deep_view(), nc, download_only, en@, fa@),
{
    let mut command = run_cmd_text(h, flag);
    push_nc_cmd(&mut command, nc);
    push_spaced_all(&mut command, pkgs.as_slice());
    let mut a = texts1(flag);
    push_nc_arg(&mut a, nc);
    push_texts(&mut a, pkgs.as_slice());
    let pac = crate::strs::str_eq(h, "pacman");
    TranslationResult {
        command,
        exec_binary: run_bin_text(h),
        exec_args: run_args_texts(h, a),
        op: PacmanOp::SyncInstall { pkgs, noconfirm: nc, as_deps: false, download_only },
        needs_root: pac,
        needs_aur: !pac,
        notes_en: en,
        notes_fa: fa,
        warning: None,
    }
}

/// Builds `upgrade_result`.
pub fn upgrade_translation(
    h: &str,
    flag: &str,
    nc: bool,
    download_only: bool,
    en: String,
    fa: String,
) -> (r: TranslationResult)
    ensures
        r@ == upgrade_result(h@, flag@, nc, download_only, en@, fa@),
{
    let mut command = run_cmd_text(h, flag);
    push_nc_cmd(&mut command, nc);
    let mut a = texts1(flag);
    push_nc_arg(&mut a, nc);
    let pac = crate::strs::str_eq(h, "pacman");
    TranslationResult {
        command,
        exec_binary: run_bin_text(h),
        exec_args: run_args_texts(h, a),
        op: PacmanOp::SyncUpgrade { noconfirm: nc, download_only },
        needs_root: pac,
        needs_aur: !pac,
        notes_en: en,
        notes_fa: fa,
        warning: None,
    }
}

/// An installation through the helper with the packages joined after
/// `-S`: `<helper> -S <pkgs>[ --noconfirm]`.
pub open spec fn joined_install_result(
    h: Seq<char>,
    pkgs: Seq<Seq<char>>,
    nc: bool,
    en: Seq<char>,
    fa: Seq<char>,
    warning: Option<Seq<char>>,
) -> TranslationView {
    tv(
        run_cmd(h, "-S"@) + " "@ + join(pkgs, " "@) + nc_cmd(nc),
        run_bin(h),
        run_args(h, seq!["-S"@] + nc_args(nc) + pkgs),
        OpView::SyncInstall { pkgs, noconfirm: nc, as_deps: false, download_only: false },
        is_pacman(h),
        !is_pacman(h),
        en,
        fa,
        warning,
    )
}

/// A foreign tool run with one subcommand: `<tool> <sub>`.
pub open spec fn tool_result(tool: Seq<char>, sub: Seq<char>, en: Seq<char>, fa: Seq<char>) -> TranslationView {
    tv(tool + " "@ + sub, tool, seq![sub], OpView::DirectPacman { args: seq![sub] }, false, false, en, fa, None)
}

/// A foreign tool run with the arguments as given: `<tool> <args>`.
pub open spec fn passthrough_result(
    tool: Seq<char>,
    args: Seq<Seq<char>>,
    en: Seq<char>,
    fa: Seq<char>,
) -> TranslationView {
    tv(tool + " "@ + join(args, " "@), tool, args, OpView::DirectPacman { args }, false, false, en, fa, None)
}

/// `checkupdates`.
pub open spec fn checkupdates_result(en: Seq<char>, fa: Seq<char>) -> TranslationView {
    tv(
        "checkupdates"@,
        "checkupdates"@,
        Seq::empty(),
        OpView::DirectPacman { args: seq!["checkupdates"@] },
        false,
        false,
        en,
        fa,
        None,
    )
}

/// Builds `joined_install_result`.
pub fn joined_install_translation(
    h: &str,
    pkgs: Vec<String>,
    nc: bool,
    en: String,
    fa: String,
    warning: Option<String>,
) -> (r: TranslationResult)
    ensures
        r@ == joined_install_result(h@, pkgs.deep_view(), nc, en@, fa@, opt_view(warning)),
{
    let mut command = run_cmd_text(h, "-S");
    command.append(" ");
    let joined = join_texts(pkgs.as_slice(), " ");
    command.append(joined.as_str());
    push_nc_cmd(&mut command, nc);
    let mut a = texts1("-S");
    push_nc_arg(&mut a, nc);
    push_texts(&mut a, pkgs.as_slice());
    let pac = crate::strs::str_eq(h, "pacman");
    TranslationResult {
        command,
        exec_binary: run_bin_text(h),
        exec_args: run_args_texts(h, a),
        op: PacmanOp::SyncInstall { pkgs, noconfirm: nc, as_deps: false, download_only: false },
        needs_root: pac,
        needs_aur: !pac,
        notes_en: en,
        notes_fa: fa,
        warning,
    }
}

/// Builds `tool_result`.
pub fn tool_translation(tool: &str, sub: &str, en: String, fa: String) -> (r: TranslationResult)
    ensures
        r@ == tool_result(tool@, sub@, en@, fa@),
{
    let mut command = cat(tool, " ");
    command.append(sub);
    TranslationResult {
        command,
        exec_binary: text(tool),
        exec_args: texts1(sub),
        op: PacmanOp::DirectPacman { args: texts1(sub) },
        needs_root: false,
        needs_aur: false,
        notes_en: en,
        notes_fa: fa,
        warning: None,
    }
}

/// Builds `passthrough_result`.
pub fn passthrough_translation(tool: &str, args: &[String], en: String, fa: String) -> (r: TranslationResult)
    ensures
        r@ == passthrough_result(tool@, args.deep_view(), en@, fa@),
{
    let mut command = cat(tool, " ");
    let joined = join_texts(args, " ");
    command.append(joined.as_str());
    TranslationResult {
        command,
        exec_binary: text(tool),
        exec_args: copy_texts(args),
        op: PacmanOp::DirectPacman { args: copy_texts(args) },
        needs_root: false,
        needs_aur: false,
        notes_en: en,
        notes_fa: fa,
        warning: None,
    }
}

/// Builds `checkupdates_result`.
pub fn checkupdates_translation(en: String, fa: String) -> (r: TranslationResult)
    ensures
        r@ == checkupdates_result(en@, fa@),
{
    let empty: Vec<String> = Vec::new();
    assert(empty.deep_view() =~= Seq::<Seq<char>>::empty());
    TranslationResult {
        command: text("checkupdates"),
        exec_binary: text("checkupdates"),
        exec_args: empty,
        op: PacmanOp::DirectPacman { args: texts1("checkupdates") },
        needs_root: false,
        needs_aur: false,
        notes_en: en,
        notes_fa: fa,
        warning: None,
    }
}

/// An empty list of texts.
pub fn no_texts() -> (r: Vec<String>)
    ensures
        r.deep_view() == Seq::<Seq<char>>::empty(),
{
    let empty: Vec<String> = Vec::new();
    assert(empty.deep_view() =~= Seq::<Seq<char>>::empty());
    empty
}

/// The Debian-table names of the operands.
pub open spec fn debian_names(maps: Seq<(Seq<char>, Seq<char>)>, xs: Seq<Seq<char>>) -> Seq<Seq<char>> {
    Seq::new(xs.len(), |i: int| mapper::debian_name(maps, xs[i]))
}

/// The Debian-table names of the texts.
pub fn debian_names_of(maps: &mapper::PkgMappings, xs: &[String]) -> (r: Vec<String>)
    ensures
        r.deep_view() == debian_names(maps.debian_table(), xs.deep_view()),
{
    let n = xs.len();
    let mut r: Vec<String> = Vec::new();
    let mut i: usize = 0;
    while i < n
        invariant
            n == xs@.len(),
            i <= n,
            r@.len() == i,
            forall|j: int| 0 <= j < i ==> r@[j]@ == mapper::debian_name(maps.debian_table(), xs@[j]@),
        decreases n - i,
    {
        r.push(maps.translate_debian_pkg(xs[i].as_str()));
        i += 1;
    }
    assert(r.deep_view() =~= debian_names(maps.debian_table(), xs.deep_view()));
    r
}

/// The arguments that end with `suf`, in order.
pub open spec fn with_suffix(s: Seq<Seq<char>>, suf: Seq<char>) -> Seq<Seq<char>>
    decreases s.len(),
{
    if s.len() == 0 {
        Seq::empty()
    } else if has_suffix(s.last(), suf) {
        with_suffix(s.drop_last(), suf).push(s.last())
    } else {
        with_suffix(s.drop_last(), suf)
    }
}

/// The arguments that end with `suf`.
pub fn with_suffix_of(xs: &[String], suf: &str) -> (r: Vec<String>)
    ensures
        r.deep_view() == with_suffix(xs.deep_view(), suf@),
{
    let ghost xv = xs.deep_view();
    let n = xs.len();
    let mut r: Vec<String> = Vec::new();
    let ghost mut acc: Seq<Seq<char>> = Seq::empty();
    let mut i: usize = 0;
    while i < n
        invariant
            n == xs@.len(),
            xv == xs.deep_view(),
            i <= n,
            acc == with_suffix(xv.subrange(0, i as int), suf@),
            r@.len() == acc.len(),
            forall|j: int| 0 <= j < acc.len() ==> r@[j]@ == acc[j],
        decreases n - i,
    {
        assert(xv.subrange(0, i + 1).drop_last() =~= xv.subrange(0, i as int));
        assert(xv.subrange(0, i + 1).last() == xs@[i as int]@);
        if ends_with(xs[i].as_str(), suf) {
            r.push(text(xs[i].as_str()));
            proof {
                acc = acc.push(xs@[i as int]@);
            }
        }
        i += 1;
    }
    assert(xv.subrange(0, n as int) =~= xv);
    assert(r.deep_view() =~= acc);
    r
}

/// A foreign package file handed to a conversion tool: `<tool> <files>`, or
/// `<tool> <placeholder>` when no file is named.
pub open spec fn package_file_result(
    tool: Seq<char>,
    files: Seq<Seq<char>>,
    placeholder: Seq<char>,
    op: OpView,
    en: Seq<char>,
    fa: Seq<char>,
) -> TranslationView {
    tv(
        tool + " "@ + if files.len() == 0 { placeholder } else { join(files, " "@) },
        tool,
        files,
        op,
        false,
        true,
        en,
        fa,
        Some("Native Arch packages use the .pkg.tar.zst format."@),
    )
}

/// A command that is no known package manager: a repository search for its name.
pub open spec fn unknown_result(name: Seq<char>, args: Seq<Seq<char>>) -> TranslationView {
    let query = if args.len() == 0 { name } else { name + " "@ + join(args, " "@) };
    tv(
        "pacman -Ss "@ + name,
        "pacman"@,
        seq!["-Ss"@, name],
        OpView::SyncSearch { query: name },
        false,
        false,
        "Command '"@ + name
            + "' is not recognized as a standard package manager. Searching Arch repositories for matches."@,
        "دستور '"@ + name + "' به عنوان پکیج‌منیجر شناخته نشد. در حال جستجوی مخازن پارچ/آرچ برای یافتن نام مشابه."@,
        Some("Input command: '"@ + query + "'"@),
    )
}

/// The translation of an invocation of manager `src` with arguments `args`,
/// under helper `h` and custom mappings `ov`.
pub open spec fn translate_spec(
    src: SourceView,
    args: Seq<Seq<char>>,
    h: Seq<char>,
    ov: Seq<(Seq<char>, Seq<char>)>,
) -> TranslationView {
    match src {
        SourceView::Apt | SourceView::AptGet | SourceView::AptCache | SourceView::Aptitude => apt::apt_spec(
            args,
            h,
            ov,
            mapper::builtin_debian(),
        ),
        SourceView::Dnf | SourceView::Yum => dnf::dnf_spec(args, h, ov, mapper::builtin_fedora()),
        SourceView::Apk => apk::apk_spec(args, h, ov, mapper::builtin_alpine()),
        SourceView::Zypper => zypper::zypper_spec(args, h, ov, mapper::builtin_zypper()),
        SourceView::Brew => brew::brew_spec(args, h, ov, mapper::builtin_brew()),
        SourceView::Flatpak => flatpak::flatpak_spec(args, h, mapper::builtin_debian()),
        SourceView::Snap => snap::snap_spec(args, h, mapper::builtin_debian()),
        SourceView::Dpkg => {
            let files = with_suffix(args, ".deb"@);
            package_file_result(
                "debtap"@,
                files,
                "<package.deb>"@,
                OpView::DebtapConvert { files },
                "DPKG packages are Debian-specific. Convert to Arch packages using 'debtap'."@,
                "بسته‌های DPKG مخصوص دبیان هستند. با دستور debtap آن‌ها را به بسته آرچ تبدیل کنید."@,
            )
        },
        SourceView::Rpm => {
            let files = with_suffix(args, ".rpm"@);
            package_file_result(
                "rpmextract"@,
                files,
                "<package.rpm>"@,
                OpView::RpmExtract { files },
                "RPM packages are RedHat-specific. Extract them using 'rpmextract' or find AUR PKGBUILDs."@,
                "پکیج‌های RPM مخصوص ردهت/فدورا هستند. با rpmextract آن‌ها را استخراج کنید یا از AUR نصب نمایید."@,
            )
        },
        SourceView::Unknown(s) => unknown_result(s, args),
    }
}

fn package_file_translation(
    tool: &str,
    files: Vec<String>,
    placeholder: &str,
    op: PacmanOp,
    en: String,
    fa: String,
) -> (r: TranslationResult)
    ensures
        r@ == package_file_result(tool@, files.deep_view(), placeholder@, op@, en@, fa@),
{
    let mut command = cat(tool, " ");
    if files.len() == 0 {
        command.append(placeholder);
    } else {
        let joined = join_texts(files.as_slice(), " ");
        command.append(joined.as_str());
    }
    TranslationResult {
        command,
        exec_binary: text(tool),
        exec_args: files,
        op,
        needs_root: false,
        needs_aur: true,
        notes_en: en,
        notes_fa: fa,
        warning: Some(text("Native Arch packages use the .pkg.tar.zst format.")),
    }
}

fn unknown_translation(name: &str, args: &[String]) -> (r: TranslationResult)
    ensures
        r@ == unknown_result(name@, args.deep_view()),
{
    let query = if args.len() == 0 {
        text(name)
    } else {
        let mut q = cat(name, " ");
        let joined = join_texts(args, " ");
        q.append(joined.as_str());
        q
    };
    let mut en = cat("Command '", name);
    en.append("' is not recognized as a standard package manager. Searching Arch repositories for matches.");
    let mut fa = cat("دستور '", name);
    fa.append("' به عنوان پکیج‌منیجر شناخته نشد. در حال جستجوی مخازن پارچ/آرچ برای یافتن نام مشابه.");
    let mut warning = cat("Input command: '", query.as_str());
    warning.append("'");
    TranslationResult {
        command: cat("pacman -Ss ", name),
        exec_binary: text("pacman"),
        exec_args: texts2("-Ss", name),
        op: PacmanOp::SyncSearch { query: text(name) },
        needs_root: false,
        needs_aur: false,
        notes_en: en,
        notes_fa: fa,
        warning: Some(warning),
    }
}

/// Translates an invocation of a foreign package manager under the given configuration.
pub fn translate(ctx: &InvocationContext, config: &Config) -> (r: TranslationResult)
    ensures
        r@ == translate_spec(ctx.source@, ctx.original_args.deep_view(), config.general.helper@, config.overrides()),
{
    let args = ctx.original_args.as_slice();
    match &ctx.source {
        SourceManager::Apt | SourceManager::AptGet | SourceManager::AptCache | SourceManager::Aptitude => {
            apt::translate_apt(args, config)
        },
        SourceManager::Dnf | SourceManager::Yum => dnf::translate_dnf(args, config),
        SourceManager::Apk => apk::translate_apk(args, config),
        SourceManager::Zypper => zypper::translate_zypper(args, config),
        SourceManager::Brew => brew::translate_brew(args, config),
        SourceManager::Flatpak => flatpak::translate_flatpak(args, config),
        SourceManager::Snap => snap::translate_snap(args, config),
        SourceManager::Dpkg => {
            let files = with_suffix_of(args, ".deb");
            let op_files = copy_texts(files.as_slice());
            package_file_translation(
                "debtap",
                files,
                "<package.deb>",
                PacmanOp::DebtapConvert { files: op_files },
                text("DPKG packages are Debian-specific. Convert to Arch packages using 'debtap'."),
                text("بسته‌های DPKG مخصوص دبیان هستند. با دستور debtap آن‌ها را به بسته آرچ تبدیل کنید."),
            )
        },
        SourceManager::Rpm => {
            let files = with_suffix_of(args, ".rpm");
            let op_files = copy_texts(files.as_slice());
            package_file_translation(
                "rpmextract",
                files,
                "<package.rpm>",
                PacmanOp::RpmExtract { files: op_files },
                text("RPM packages are RedHat-specific. Extract them using 'rpmextract' or find AUR PKGBUILDs."),
                text("پکیج‌های RPM مخصوص ردهت/فدورا هستند. با rpmextract آن‌ها را استخراج کنید یا از AUR نصب نمایید."),
            )
        },
        SourceManager::Unknown(s) => unknown_translation(s.as_str(), args),
    }
}

} // verus!
