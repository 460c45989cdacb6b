//! Safety rules: dangerous commands that are refused or warned about, and the
//! reading of the pacman database lock.
use crate::strs::{
    cat, contains_char, file_name, has_char, has_prefix, is_flag, is_flag_text, parse_u32, parse_u32_spec,
    path_file_name, split_words, starts_with, str_eq, text, trim_text, trimmed, words,
};
use crate::translator::{operands, operands_of};
use vstd::prelude::*;

verus! {

/// The state of the pacman database lock.
#[derive(Debug, Clone, PartialEq, Eq)]
pub enum LockStatus {
    NotLocked,
    LockedByProcess(u32, String),
    StaleLock(u32),
    LockedUnknown,
}

/// `LockStatus` with its text as a character sequence.
pub enum LockView {
    NotLocked,
    LockedByProcess(u32, Seq<char>),
    StaleLock(u32),
    LockedUnknown,
}

impl View for LockStatus {
    type V = LockView;

    open spec fn view(&self) -> LockView {
        match self {
            LockStatus::NotLocked => LockView::NotLocked,
            LockStatus::LockedByProcess(p, n) => LockView::LockedByProcess(*p, n@),
            LockStatus::StaleLock(p) => LockView::StaleLock(*p),
            LockStatus::LockedUnknown => LockView::LockedUnknown,
        }
    }
}

/// How dangerous a command is.
#[derive(Debug, Clone, PartialEq, Eq)]
pub enum DangerLevel {
    Safe,
    Warning(String),
    Blocked(String),
}

/// `DangerLevel` with its text as a character sequence.
pub enum DangerView {
    Safe,
    Warning(Seq<char>),
    Blocked(Seq<char>),
}

impl View for DangerLevel {
    type V = DangerView;

    open spec fn view(&self) -> DangerView {
        match self {
            DangerLevel::Safe => DangerView::Safe,
            DangerLevel::Warning(s) => DangerView::Warning(s@),
            DangerLevel::Blocked(s) => DangerView::Blocked(s@),
        }
    }
}

/// The text that `{:?}` gives for a list of texts.
pub uninterp spec fn debug_texts(items: Seq<Seq<char>>) -> Seq<char>;

/// `format!("{:?}", items)`: the `Debug` rendering of a list of texts.
/// Claimed: the rendering depends on the texts alone (`debug_texts`); its
/// exact form (brackets, quotes, escapes) is left unstated.
#[verifier::external_body]
fn debug_list(items: &[String]) -> (r: String)
    ensures
        r@ == debug_texts(items.deep_view()),
{
    format!("{:?}", items)
}

/// `c` is one of the texts of `xs`.
pub open spec fn one_of(xs: Seq<Seq<char>>, c: Seq<char>) -> bool {
    exists|i: int| 0 <= i < xs.len() && xs[i] == c
}

/// Paths that a recursive `rm` must not touch.
pub open spec fn core_paths() -> Seq<Seq<char>> {
    seq!["/"@, "/*"@, "/etc"@, "/usr"@, "/var"@, "/boot"@]
}

/// Package tools whose removals are checked.
pub open spec fn package_tools() -> Seq<Seq<char>> {
    seq!["pacman"@, "paru"@, "yay"@, "pamac"@]
}

/// Packages whose removal would break the system.
pub open spec fn critical_packages() -> Seq<Seq<char>> {
    seq![
        "glibc"@,
        "systemd"@,
        "base"@,
        "linux"@,
        "linux-lts"@,
        "linux-zen"@,
        "linux-hardened"@,
        "pacman"@,
        "paru"@,
        "yay"@,
        "filesystem"@,
        "bash"@,
        "coreutils"@,
        "shadow"@,
        "util-linux"@,
        "pam"@,
        "e2fsprogs"@,
        "sudo"@,
    ]
}

/// `name` is the critical package `c` or one of its `c-...` packages.
pub open spec fn is_critical_as(name: Seq<char>, c: Seq<char>) -> bool {
    name == c || has_prefix(name, c + "-"@)
}

/// `name` is, or belongs to, a critical package.
pub open spec fn is_critical(name: Seq<char>) -> bool {
    exists|i: int| 0 <= i < critical_packages().len() && is_critical_as(name, critical_packages()[i])
}

/// The part of a text after its last `/`.
pub open spec fn after_last_slash(s: Seq<char>) -> Seq<char>
    decreases s.len(),
{
    if s.len() == 0 {
        Seq::empty()
    } else if s.last() == '/' {
        Seq::empty()
    } else {
        after_last_slash(s.drop_last()).push(s.last())
    }
}

/// The first target naming a critical package, as its last path piece.
pub open spec fn first_critical(targets: Seq<Seq<char>>) -> Option<Seq<char>>
    decreases targets.len(),
{
    if targets.len() == 0 {
        None
    } else if is_critical(after_last_slash(targets[0])) {
        Some(after_last_slash(targets[0]))
    } else {
        first_critical(targets.drop_first())
    }
}

/// A short option cluster (`-Rsc`, not `--x`) holding the letter `c`.
pub open spec fn short_flag_has(a: Seq<char>, c: char) -> bool {
    is_flag(a) && !has_prefix(a, "--"@) && has_char(a.drop_first(), c)
}

/// Some argument asks for `letter` in a short option cluster or gives `long`.
pub open spec fn asks_for(args: Seq<Seq<char>>, letter: char, long: Seq<char>) -> bool {
    exists|i: int| 0 <= i < args.len() && (short_flag_has(args[i], letter) || args[i] == long)
}

/// The name a program is judged by: the last piece of its path.
pub open spec fn program_name(binary: Seq<char>) -> Seq<char> {
    match file_name(binary) {
        Some(f) => f,
        None => binary,
    }
}

/// The verdict on running `binary` with `args`.
pub open spec fn safety_of(binary: Seq<char>, args: Seq<Seq<char>>) -> DangerView {
    let bin = program_name(binary);
    let recursive = exists|i: int|
        0 <= i < args.len() && (has_char(args[i], 'r') || has_char(args[i], 'R') || args[i] == "--recursive"@);
    let targets_root = exists|i: int| 0 <= i < args.len() && one_of(core_paths(), args[i]);
    if bin == "rm"@ && recursive && targets_root {
        DangerView::Blocked("Command 'rm' targets core system path: "@ + debug_texts(args))
    } else if !one_of(package_tools(), bin) {
        DangerView::Safe
    } else if !asks_for(args, 'R', "--remove"@) {
        DangerView::Safe
    } else if first_critical(operands(args)) is Some {
        DangerView::Blocked(
            "Removal of protected core package '"@ + first_critical(operands(args))->0 + "' is blocked."@,
        )
    } else if asks_for(args, 'c', "--cascade"@) {
        DangerView::Warning("Cascade removal flag (-c/--cascade) removes all reverse dependencies."@)
    } else if asks_for(args, 'd', "--nodeps"@) {
        DangerView::Warning("Dependency check skip (-d/--nodeps) risks breaking shared libraries."@)
    } else {
        DangerView::Safe
    }
}

/// What the system shows of the pacman lock, gathered by the caller.
pub struct LockObservation {
    /// The lock file exists.
    pub lock_exists: bool,
    /// For each of `lock_holder_programs`, in order: the output of `pidof`
    /// for it when `pidof` succeeded.
    pub pidof_outputs: Vec<Option<String>>,
    /// The content of the lock file, when it could be read.
    pub lock_content: Option<String>,
    /// A process with the pid written in the lock file is running.
    pub holder_alive: bool,
    /// That process's command name, when it could be read.
    pub holder_comm: Option<String>,
    /// The lock file's modification time and the current time (seconds
    /// since the epoch), when known.
    pub lock_age: Option<(i64, i64)>,
}

/// Programs that hold the pacman lock while they work.
pub open spec fn lock_holders() -> Seq<Seq<char>> {
    seq!["pacman"@, "paru"@, "yay"@, "pamac"@, "packagekitd"@]
}

/// The pid in a `pidof` output: its first word, as a number.
pub open spec fn pidof_pid(out: Seq<char>) -> Option<u32> {
    let w = words(out);
    if w.len() > 0 {
        parse_u32_spec(w[0])
    } else {
        None
    }
}

/// The first lock-holding program that `pidof` found running, with its pid.
pub open spec fn first_holder(outs: Seq<Option<Seq<char>>>, names: Seq<Seq<char>>) -> Option<(u32, Seq<char>)>
    decreases outs.len(),
{
    if outs.len() == 0 || names.len() == 0 {
        None
    } else {
        match outs[0] {
            Some(o) => match pidof_pid(o) {
                Some(p) => Some((p, names[0])),
                None => first_holder(outs.drop_first(), names.drop_first()),
            },
            None => first_holder(outs.drop_first(), names.drop_first()),
        }
    }
}

/// The views of optional texts.
pub open spec fn opt_texts(xs: Seq<Option<String>>) -> Seq<Option<Seq<char>>> {
    Seq::new(
        xs.len(),
        |i: int|
            match xs[i] {
                Some(s) => Some(s@),
                None => None,
            },
    )
}

/// The lock's state from what the system shows: no file, no lock; a running
/// lock-holding program holds it; else the pid written in the file decides
/// (its process running or gone); else a file older than two hours is stale.
pub open spec fn lock_status_of(obs: LockObservation) -> LockView {
    if !obs.lock_exists {
        LockView::NotLocked
    } else {
        match first_holder(opt_texts(obs.pidof_outputs@), lock_holders()) {
            Some((pid, name)) => LockView::LockedByProcess(pid, name),
            None => {
                let pid = match obs.lock_content {
                    Some(c) => parse_u32_spec(trimmed(c@)),
                    None => None,
                };
                match pid {
                    Some(p) => if obs.holder_alive {
                        LockView::LockedByProcess(
                            p,
                            match obs.holder_comm {
                                Some(c) => trimmed(c@),
                                None => "unknown"@,
                            },
                        )
                    } else {
                        LockView::StaleLock(p)
                    },
                    None => match obs.lock_age {
                        Some((mtime, now)) => if now - mtime > 7200 {
                            LockView::StaleLock(0)
                        } else {
                            LockView::LockedUnknown
                        },
                        None => LockView::LockedUnknown,
                    },
                }
            },
        }
    }
}

/// Safety checks run before a command.
pub struct SafetyGuard;

/// Whether `name` is `c` or `c-...`.
fn critical_as(name: &str, c: &str) -> (r: bool)
    ensures
        r == is_critical_as(name@, c@),
{
    if str_eq(name, c) {
        return true;
    }
    let p = cat(c, "-");
    starts_with(name, p.as_str())
}

/// Whether `name` is, or belongs to, a critical package.
fn critical_name(name: &str) -> (r: bool)
    ensures
        r == is_critical(name@),
{
    let list = [
        "glibc",
        "systemd",
        "base",
        "linux",
        "linux-lts",
        "linux-zen",
        "linux-hardened",
        "pacman",
        "paru",
        "yay",
        "filesystem",
        "bash",
        "coreutils",
        "shadow",
        "util-linux",
        "pam",
        "e2fsprogs",
        "sudo",
    ];
    let ghost cp = critical_packages();
    assert(cp.len() == 18);
    assert forall|i: int| 0 <= i < 18 implies #[trigger] list@[i]@ == cp[i] by {}
    let mut i: usize = 0;
    while i < 18
        invariant
            cp == critical_packages(),
            cp.len() == 18,
            list@.len() == 18,
            forall|k: int| 0 <= k < 18 ==> #[trigger] list@[k]@ == cp[k],
            i <= 18,
            forall|k: int| 0 <= k < i ==> !is_critical_as(name@, cp[k]),
        decreases 18 - i,
    {
        if critical_as(name, list[i]) {
            assert(is_critical_as(name@, cp[i as int]));
            return true;
        }
        i += 1;
    }
    false
}

/// Whether `s` is one of the texts in `list`.
fn one_of_texts(s: &str, list: &[&str]) -> (r: bool)
    ensures
        r == one_of(Seq::new(list@.len(), |i: int| list@[i]@), s@),
{
    let ghost lv = Seq::new(list@.len(), |i: int| list@[i]@);
    let n = list.len();
    let mut i: usize = 0;
    while i < n
        invariant
            n == list@.len(),
            lv == Seq::new(list@.len(), |i: int| list@[i]@),
            i <= n,
            forall|k: int| 0 <= k < i ==> lv[k] != s@,
        decreases n - i,
    {
        if str_eq(s, list[i]) {
            assert(lv[i as int] == s@);
            return true;
        }
        i += 1;
    }
    false
}

/// The part of a text after its last `/`.
fn after_slash(s: &str) -> (r: String)
    ensures
        r@ == after_last_slash(s@),
{
    let n = s.unicode_len();
    let ghost sv = s@;
    let mut start: usize = 0;
    let mut i: usize = 0;
    while i < n
        invariant
            n == sv.len(),
            sv == s@,
            start <= i <= n,
            after_last_slash(sv.subrange(0, i as int)) == sv.subrange(start as int, i as int),
        decreases n - i,
    {
        assert(sv.subrange(0, i + 1).drop_last() =~= sv.subrange(0, i as int));
        if s.get_char(i) == '/' {
            start = i + 1;
            assert(sv.subrange(start as int, i + 1) =~= Seq::<char>::empty());
        } else {
            assert(sv.subrange(start as int, i + 1) =~= sv.subrange(start as int, i as int).push(sv[i as int]));
        }
        i += 1;
    }
    assert(sv.subrange(0, n as int) =~= sv);
    s.substring_char(start, n).to_owned()
}

/// Whether some argument asks for `letter` in a short option cluster or gives `long`.
fn asks(args: &[String], letter: char, long: &str) -> (r: bool)
    ensures
        r == asks_for(args.deep_view(), letter, long@),
{
    let n = args.len();
    let mut i: usize = 0;
    while i < n
        invariant
            n == args@.len(),
            i <= n,
            forall|k: int| 0 <= k < i ==> !(short_flag_has(args@[k]@, letter) || args@[k]@ == long@),
        decreases n - i,
    {
        let a = args[i].as_str();
        let short = is_flag_text(a) && !starts_with(a, "--") && {
            let m = a.unicode_len();
            let tail = a.substring_char(1, m);
            assert(tail@ =~= a@.drop_first());
            contains_char(tail, letter)
        };
        if short || str_eq(a, long) {
            assert(args.deep_view()[i as int] == args@[i as int]@);
            return true;
        }
        i += 1;
    }
    assert forall|k: int| 0 <= k < args.deep_view().len() implies !(short_flag_has(args.deep_view()[k], letter)
        || args.deep_view()[k] == long@) by {
        assert(args.deep_view()[k] == args@[k]@);
    }
    false
}

impl SafetyGuard {
    /// Judges a command before it runs: a recursive `rm` of a core path is
    /// refused; for pacman and AUR helpers, removing a core package is
    /// refused, and cascading or dependency-skipping removals are warned
    /// about; everything else is safe.
    pub fn evaluate_command_safety(binary: &str, args: &[String]) -> (r: DangerLevel)
        ensures
            r@ == safety_of(binary@, args.deep_view()),
    {
        let ghost av = args.deep_view();
        let bin = match path_file_name(binary) {
            Some(f) => f,
            None => text(binary),
        };
        let n = args.len();
        if str_eq(bin.as_str(), "rm") {
            let mut recursive = false;
            let mut targets_root = false;
            let roots = ["/", "/*", "/etc", "/usr", "/var", "/boot"];
            assert(Seq::new(roots@.len(), |i: int| roots@[i]@) =~= core_paths());
            let mut i: usize = 0;
            while i < n
                invariant
                    n == args@.len(),
                    av == args.deep_view(),
                    Seq::new(roots@.len(), |i: int| roots@[i]@) == core_paths(),
                    i <= n,
                    recursive == exists|k: int|
                        0 <= k < i && (has_char(av[k], 'r') || has_char(av[k], 'R') || av[k] == "--recursive"@),
                    targets_root == exists|k: int| 0 <= k < i && one_of(core_paths(), av[k]),
                decreases n - i,
            {
                let a = args[i].as_str();
                assert(av[i as int] == a@);
                if contains_char(a, 'r') || contains_char(a, 'R') || str_eq(a, "--recursive") {
                    recursive = true;
                }
                if one_of_texts(a, &roots) {
                    targets_root = true;
                }
                i += 1;
            }
            if recursive && targets_root {
                let shown = debug_list(args);
                return DangerLevel::Blocked(cat("Command 'rm' targets core system path: ", shown.as_str()));
            }
        }
        let tools = ["pacman", "paru", "yay", "pamac"];
        assert(Seq::new(tools@.len(), |i: int| tools@[i]@) =~= package_tools());
        if !one_of_texts(bin.as_str(), &tools) {
            return DangerLevel::Safe;
        }
        if !asks(args, 'R', "--remove") {
            return DangerLevel::Safe;
        }
        let targets = operands_of(args);
        let ghost tv = targets.deep_view();
        let m = targets.len();
        let mut j: usize = 0;
        assert(tv.subrange(0, m as int) =~= tv);
        #[verifier::loop_isolation(false)]
        while j < m
            invariant
                m == targets@.len(),
                tv == targets.deep_view(),
                tv == operands(av),
                j <= m,
                first_critical(tv) == first_critical(tv.subrange(j as int, m as int)),
            decreases m - j,
        {
            let clean = after_slash(targets[j].as_str());
            assert(tv.subrange(j as int, m as int)[0] == targets@[j as int]@);
            if critical_name(clean.as_str()) {
                let mut msg = cat("Removal of protected core package '", clean.as_str());
                msg.append("' is blocked.");
                return DangerLevel::Blocked(msg);
            }
            assert(tv.subrange(j as int, m as int).drop_first() =~= tv.subrange(j + 1, m as int));
            j += 1;
        }
        if asks(args, 'c', "--cascade") {
            return DangerLevel::Warning(text("Cascade removal flag (-c/--cascade) removes all reverse dependencies."));
        }
        if asks(args, 'd', "--nodeps") {
            return DangerLevel::Warning(text("Dependency check skip (-d/--nodeps) risks breaking shared libraries."));
        }
        DangerLevel::Safe
    }

    /// The programs whose running instance holds the pacman lock, in the
    /// order they are looked for.
    pub fn lock_holder_programs() -> (r: Vec<String>)
        ensures
            r.deep_view() == lock_holders(),
    {
        let mut v: Vec<String> = Vec::new();
        v.push(text("pacman"));
        v.push(text("paru"));
        v.push(text("yay"));
        v.push(text("pamac"));
        v.push(text("packagekitd"));
        assert(v.deep_view() =~= lock_holders());
        v
    }

    /// The pid written in the lock file, if it holds one.
    pub fn lock_file_pid(content: &str) -> (r: Option<u32>)
        ensures
            r == parse_u32_spec(trimmed(content@)),
    {
        let t = trim_text(content);
        parse_u32(t.as_str())
    }

    /// The pid that a `pidof` output names first.
    pub fn pidof_output_pid(out: &str) -> (r: Option<u32>)
        ensures
            r == pidof_pid(out@),
    {
        let w = split_words(out);
        if w.len() > 0 {
            assert(w.deep_view()[0] == w@[0]@);
            parse_u32(w[0].as_str())
        } else {
            None
        }
    }

    /// The state of the pacman lock, from what the system shows of it.
    pub fn classify_lock(obs: &LockObservation) -> (r: LockStatus)
        ensures
            r@ == lock_status_of(*obs),
    {
        if !obs.lock_exists {
            return LockStatus::NotLocked;
        }
        let names = Self::lock_holder_programs();
        let ghost ov = opt_texts(obs.pidof_outputs@);
        let n = obs.pidof_outputs.len();
        let m = names.len();
        let mut i: usize = 0;
        assert(ov.subrange(0, n as int) =~= ov);
        assert(names.deep_view().subrange(0, m as int) =~= names.deep_view());
        #[verifier::loop_isolation(false)]
        while i < n && i < m
            invariant
                n == obs.pidof_outputs@.len(),
                m == names@.len(),
                ov == opt_texts(obs.pidof_outputs@),
                names.deep_view() == lock_holders(),
                i <= n,
                i <= m,
                first_holder(ov, lock_holders()) == first_holder(
                    ov.subrange(i as int, n as int),
                    lock_holders().subrange(i as int, m as int),
                ),
            decreases n - i,
        {
            let ghost o_rest = ov.subrange(i as int, n as int);
            let ghost n_rest = lock_holders().subrange(i as int, m as int);
            assert(o_rest[0] == ov[i as int]);
            assert(n_rest[0] == names@[i as int]@);
            assert(o_rest.drop_first() =~= ov.subrange(i + 1, n as int));
            assert(n_rest.drop_first() =~= lock_holders().subrange(i + 1, m as int));
            match &obs.pidof_outputs[i] {
                Some(out) => {
                    match Self::pidof_output_pid(out.as_str()) {
                        Some(pid) => {
                            return LockStatus::LockedByProcess(pid, text(names[i].as_str()));
                        },
                        None => {},
                    }
                },
                None => {},
            }
            i += 1;
        }
        let pid = match &obs.lock_content {
            Some(c) => Self::lock_file_pid(c.as_str()),
            None => None,
        };
        match pid {
            Some(p) => {
                if obs.holder_alive {
                    let comm = match &obs.holder_comm {
                        Some(c) => trim_text(c.as_str()),
                        None => text("unknown"),
                    };
                    LockStatus::LockedByProcess(p, comm)
                } else {
                    LockStatus::StaleLock(p)
                }
            },
            None => match obs.lock_age {
                Some((mtime, now)) => {
                    let age: i128 = (now as i128) - (mtime as i128);
                    if age > 7200 {
                        LockStatus::StaleLock(0)
                    } else {
                        LockStatus::LockedUnknown
                    }
                },
                None => LockStatus::LockedUnknown,
            },
        }
    }

    /// Background services that compete with pacman for the database.
    pub fn conflicting_services() -> (r: Vec<String>)
        ensures
            r.deep_view() == seq!["packagekit.service"@, "pamac-daemon.service"@, "discover.service"@],
    {
        let mut v: Vec<String> = Vec::new();
        v.push(text("packagekit.service"));
        v.push(text("pamac-daemon.service"));
        v.push(text("discover.service"));
        assert(v.deep_view() =~= seq!["packagekit.service"@, "pamac-daemon.service"@, "discover.service"@]);
        v
    }
}

} // verus!
