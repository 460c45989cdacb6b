//! The decisions taken before a translated command runs: refusing, cleaning
//! orphans, dropping a redundant `sudo`, and running as the invoking user.
use crate::context::InvocationContext;
use crate::safety::{program_name, safety_of, DangerLevel, DangerView, SafetyGuard};
use crate::strs::{copy_texts, path_file_name, split_words, str_eq, text, words};
use crate::translator::{OpView, PacmanOp, TranslationResult};
use vstd::prelude::*;

verus! {

/// What to do with a translated command.
#[derive(Debug)]
pub enum ExecPlan {
    /// The root filesystem is read-only: nothing may run.
    ReadOnlyRoot,
    /// Remove the orphaned packages (found by `pacman -Qtdq`).
    OrphanCleanup { noconfirm: bool },
    /// The safety rules refuse the command.
    Blocked { reason: String },
    /// Run `binary` with `args`, as the user behind `sudo` when `as_user`,
    /// after showing `warning`.
    Run { binary: String, args: Vec<String>, as_user: bool, warning: Option<String> },
}

/// `ExecPlan` with its texts as character sequences.
pub enum PlanView {
    ReadOnlyRoot,
    OrphanCleanup { noconfirm: bool },
    Blocked { reason: Seq<char> },
    Run { binary: Seq<char>, args: Seq<Seq<char>>, as_user: bool, warning: Option<Seq<char>> },
}

impl View for ExecPlan {
    type V = PlanView;

    open spec fn view(&self) -> PlanView {
        match self {
            ExecPlan::ReadOnlyRoot => PlanView::ReadOnlyRoot,
            ExecPlan::OrphanCleanup { noconfirm } => PlanView::OrphanCleanup { noconfirm: *noconfirm },
            ExecPlan::Blocked { reason } => PlanView::Blocked { reason: reason@ },
            ExecPlan::Run { binary, args, as_user, warning } => PlanView::Run {
                binary: binary@,
                args: args.deep_view(),
                as_user: *as_user,
                warning: match warning {
                    Some(w) => Some(w@),
                    None => None,
                },
            },
        }
    }
}

/// The program and arguments that run: under `sudo` already, a leading
/// `sudo` is dropped.
pub open spec fn effective_command(is_sudo: bool, binary: Seq<char>, args: Seq<Seq<char>>) -> (Seq<char>, Seq<Seq<char>>) {
    if is_sudo && binary == "sudo"@ && args.len() > 0 {
        (args[0], args.drop_first())
    } else {
        (binary, args)
    }
}

/// The program is `sudo`, under any directory.
pub open spec fn is_sudo_program(binary: Seq<char>) -> bool {
    program_name(binary) == "sudo"@
}

/// The command that runs in the end once every leading `sudo` has done its
/// work: the safety rules judge this command, whoever runs the helper.
pub open spec fn judged_command(binary: Seq<char>, args: Seq<Seq<char>>) -> (Seq<char>, Seq<Seq<char>>)
    decreases args.len(),
{
    if is_sudo_program(binary) && args.len() > 0 {
        judged_command(args[0], args.drop_first())
    } else {
        (binary, args)
    }
}

/// The plan for a translated command.
pub open spec fn plan_of(
    is_sudo: bool,
    has_sudo_user: bool,
    readonly_root: bool,
    op: OpView,
    binary: Seq<char>,
    args: Seq<Seq<char>>,
    needs_aur: bool,
) -> PlanView {
    if readonly_root {
        PlanView::ReadOnlyRoot
    } else if op is RemoveOrphans {
        PlanView::OrphanCleanup { noconfirm: op->RemoveOrphans_noconfirm }
    } else {
        let (b, a) = effective_command(is_sudo, binary, args);
        let (jb, ja) = judged_command(binary, args);
        match safety_of(jb, ja) {
            DangerView::Blocked(reason) => PlanView::Blocked { reason },
            DangerView::Warning(w) => PlanView::Run {
                binary: b,
                args: a,
                as_user: needs_aur && is_sudo && has_sudo_user,
                warning: Some(w),
            },
            DangerView::Safe => PlanView::Run {
                binary: b,
                args: a,
                as_user: needs_aur && is_sudo && has_sudo_user,
                warning: None,
            },
        }
    }
}

/// The removal of orphaned packages.
pub struct OrphanRemoval {
    /// The orphaned packages.
    pub orphans: Vec<String>,
    /// The program to run.
    pub binary: String,
    /// Its arguments.
    pub args: Vec<String>,
}

/// The command removing orphans `orphans`: `pacman -Rns [--noconfirm]
/// <orphans>`, through `sudo` unless already root.
pub open spec fn orphan_command(is_root: bool, noconfirm: bool, orphans: Seq<Seq<char>>) -> (Seq<char>, Seq<Seq<char>>) {
    let a = seq!["-Rns"@] + (if noconfirm { seq!["--noconfirm"@] } else { Seq::empty() }) + orphans;
    if is_root {
        ("pacman"@, a)
    } else {
        ("sudo"@, seq!["pacman"@] + a)
    }
}

/// Runs translated commands.
pub struct Executor;

impl Executor {
    /// Decides what to do with a translated command, given whether the root
    /// filesystem is mounted read-only. The safety rules judge the command
    /// that runs in the end, every leading `sudo` looked through, for every
    /// user; a leading `sudo` is dropped from what runs only when the helper
    /// already runs as root.
    pub fn plan(ctx: &InvocationContext, res: &TranslationResult, readonly_root: bool) -> (r: ExecPlan)
        ensures
            r@ == plan_of(
                ctx.is_sudo,
                ctx.sudo_user is Some,
                readonly_root,
                res.op@,
                res.exec_binary@,
                res.exec_args.deep_view(),
                res.needs_aur,
            ),
    {
        if readonly_root {
            return ExecPlan::ReadOnlyRoot;
        }
        if let PacmanOp::RemoveOrphans { noconfirm } = res.op {
            return ExecPlan::OrphanCleanup { noconfirm };
        }
        let mut binary = text(res.exec_binary.as_str());
        let mut args = copy_texts(res.exec_args.as_slice());
        if ctx.is_sudo && str_eq(binary.as_str(), "sudo") && args.len() > 0 {
            let ghost before = args.deep_view();
            binary = args.remove(0);
            assert(binary@ == before[0]);
            assert(args.deep_view() =~= before.drop_first());
        }
        let as_user = res.needs_aur && ctx.is_sudo && ctx.sudo_user.is_some();
        let (judged_binary, judged_args) = Executor::judged(res.exec_binary.as_str(), res.exec_args.as_slice());
        match SafetyGuard::evaluate_command_safety(judged_binary.as_str(), judged_args.as_slice()) {
            DangerLevel::Blocked(reason) => ExecPlan::Blocked { reason },
            DangerLevel::Warning(w) => ExecPlan::Run { binary, args, as_user, warning: Some(w) },
            DangerLevel::Safe => ExecPlan::Run { binary, args, as_user, warning: None },
        }
    }

    /// Whether the program is `sudo`, under any directory.
    pub fn is_sudo_program(binary: &str) -> (r: bool)
        ensures
            r == is_sudo_program(binary@),
    {
        match path_file_name(binary) {
            Some(f) => str_eq(f.as_str(), "sudo"),
            None => str_eq(binary, "sudo"),
        }
    }

    /// The command that the safety rules judge: `binary` with `args`, every
    /// leading `sudo` looked through.
    pub fn judged(binary: &str, args: &[String]) -> (r: (String, Vec<String>))
        ensures
            (r.0@, r.1.deep_view()) == judged_command(binary@, args.deep_view()),
    {
        let mut b = text(binary);
        let mut a = copy_texts(args);
        let mut more = Executor::is_sudo_program(b.as_str()) && a.len() > 0;
        while more
            invariant
                more == (is_sudo_program(b@) && a@.len() > 0),
                judged_command(binary@, args.deep_view()) == judged_command(b@, a.deep_view()),
            decreases a@.len(),
        {
            let ghost before = a.deep_view();
            b = a.remove(0);
            assert(a.deep_view() =~= before.drop_first());
            more = Executor::is_sudo_program(b.as_str()) && a.len() > 0;
        }
        (b, a)
    }

    /// The removal of the orphans listed (whitespace-separated) in the
    /// output of `pacman -Qtdq`; none when it lists none.
    pub fn orphan_removal(is_root: bool, noconfirm: bool, listing: &str) -> (r: Option<OrphanRemoval>)
        ensures
            words(listing@).len() == 0 ==> r is None,
            words(listing@).len() > 0 ==> (r matches Some(o) && o.orphans.deep_view() == words(listing@) && (
            o.binary@, o.args.deep_view()) == orphan_command(is_root, noconfirm, words(listing@))),
    {
        let orphans = split_words(listing);
        if orphans.len() == 0 {
            return None;
        }
        let mut a: Vec<String> = Vec::new();
        a.push(text("-Rns"));
        if noconfirm {
            a.push(text("--noconfirm"));
        }
        let ghost head = a.deep_view();
        crate::translator::push_texts(&mut a, orphans.as_slice());
        let ghost ov = orphans.deep_view();
        assert(head =~= seq!["-Rns"@] + (if noconfirm { seq!["--noconfirm"@] } else { Seq::<Seq<char>>::empty() }));
        if is_root {
            Some(OrphanRemoval { orphans, binary: text("pacman"), args: a })
        } else {
            let mut full = crate::translator::texts1("pacman");
            crate::translator::push_texts(&mut full, a.as_slice());
            Some(OrphanRemoval { orphans, binary: text("sudo"), args: full })
        }
    }
}

} // verus!
