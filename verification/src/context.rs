//! How the program was invoked: which package manager it stands in for, the
//! arguments meant for that manager, the helper's own options, and who runs it.
use crate::strs::{contains_str, file_name, has_infix, parse_u32, parse_u32_spec, path_file_name, str_eq, text};
use vstd::prelude::*;

verus! {

/// The foreign package manager an invocation stands in for.
#[derive(Debug, Clone, PartialEq, Eq)]
pub enum SourceManager {
    Apt,
    AptGet,
    AptCache,
    Aptitude,
    Dnf,
    Yum,
    Apk,
    Zypper,
    Brew,
    Flatpak,
    Snap,
    Dpkg,
    Rpm,
    Unknown(String),
}

/// `SourceManager` with the unknown name as a character sequence.
pub enum SourceView {
    Apt,
    AptGet,
    AptCache,
    Aptitude,
    Dnf,
    Yum,
    Apk,
    Zypper,
    Brew,
    Flatpak,
    Snap,
    Dpkg,
    Rpm,
    Unknown(Seq<char>),
}

impl View for SourceManager {
    type V = SourceView;

    open spec fn view(&self) -> SourceView {
        match self {
            SourceManager::Apt => SourceView::Apt,
            SourceManager::AptGet => SourceView::AptGet,
            SourceManager::AptCache => SourceView::AptCache,
            SourceManager::Aptitude => SourceView::Aptitude,
            SourceManager::Dnf => SourceView::Dnf,
            SourceManager::Yum => SourceView::Yum,
            SourceManager::Apk => SourceView::Apk,
            SourceManager::Zypper => SourceView::Zypper,
            SourceManager::Brew => SourceView::Brew,
            SourceManager::Flatpak => SourceView::Flatpak,
            SourceManager::Snap => SourceView::Snap,
            SourceManager::Dpkg => SourceView::Dpkg,
            SourceManager::Rpm => SourceView::Rpm,
            SourceManager::Unknown(s) => SourceView::Unknown(s@),
        }
    }
}

/// The manager named by a program name (its last path piece).
pub open spec fn source_of(name: Seq<char>) -> SourceView {
    let clean = match file_name(name) {
        Some(f) => f,
        None => name,
    };
    if clean == "apt"@ {
        SourceView::Apt
    } else if clean == "apt-get"@ {
        SourceView::AptGet
    } else if clean == "apt-cache"@ {
        SourceView::AptCache
    } else if clean == "aptitude"@ {
        SourceView::Aptitude
    } else if clean == "dnf"@ {
        SourceView::Dnf
    } else if clean == "yum"@ {
        SourceView::Yum
    } else if clean == "apk"@ {
        SourceView::Apk
    } else if clean == "zypper"@ {
        SourceView::Zypper
    } else if clean == "brew"@ {
        SourceView::Brew
    } else if clean == "flatpak"@ {
        SourceView::Flatpak
    } else if clean == "snap"@ {
        SourceView::Snap
    } else if clean == "dpkg"@ {
        SourceView::Dpkg
    } else if clean == "rpm"@ {
        SourceView::Rpm
    } else {
        SourceView::Unknown(clean)
    }
}

/// The label under which a manager is shown.
pub open spec fn display_of(s: SourceView) -> Seq<char> {
    match s {
        SourceView::Apt => "apt (Debian/Ubuntu)"@,
        SourceView::AptGet => "apt-get (Debian/Ubuntu)"@,
        SourceView::AptCache => "apt-cache (Debian/Ubuntu)"@,
        SourceView::Aptitude => "aptitude (Debian)"@,
        SourceView::Dnf => "dnf (Fedora/RHEL)"@,
        SourceView::Yum => "yum (CentOS/RHEL)"@,
        SourceView::Apk => "apk (Alpine)"@,
        SourceView::Zypper => "zypper (openSUSE)"@,
        SourceView::Brew => "brew (Homebrew/macOS)"@,
        SourceView::Flatpak => "flatpak (Sandboxed App)"@,
        SourceView::Snap => "snap (Canonical Snap)"@,
        SourceView::Dpkg => "dpkg (Debian Package)"@,
        SourceView::Rpm => "rpm (RedHat Package)"@,
        SourceView::Unknown(s) => s,
    }
}

impl SourceManager {
    /// The manager named by a program name or path (`/usr/bin/apt` is `apt`).
    pub fn from_name(name: &str) -> (r: Self)
        ensures
            r@ == source_of(name@),
    {
        let clean = match path_file_name(name) {
            Some(f) => f,
            None => text(name),
        };
        let c = clean.as_str();
        if str_eq(c, "apt") {
            SourceManager::Apt
        } else if str_eq(c, "apt-get") {
            SourceManager::AptGet
        } else if str_eq(c, "apt-cache") {
            SourceManager::AptCache
        } else if str_eq(c, "aptitude") {
            SourceManager::Aptitude
        } else if str_eq(c, "dnf") {
            SourceManager::Dnf
        } else if str_eq(c, "yum") {
            SourceManager::Yum
        } else if str_eq(c, "apk") {
            SourceManager::Apk
        } else if str_eq(c, "zypper") {
            SourceManager::Zypper
        } else if str_eq(c, "brew") {
            SourceManager::Brew
        } else if str_eq(c, "flatpak") {
            SourceManager::Flatpak
        } else if str_eq(c, "snap") {
            SourceManager::Snap
        } else if str_eq(c, "dpkg") {
            SourceManager::Dpkg
        } else if str_eq(c, "rpm") {
            SourceManager::Rpm
        } else {
            SourceManager::Unknown(clean)
        }
    }

    /// The label under which the manager is shown.
    pub fn display_name(&self) -> (r: &str)
        ensures
            r@ == display_of(self@),
    {
        match self {
            SourceManager::Apt => "apt (Debian/Ubuntu)",
            SourceManager::AptGet => "apt-get (Debian/Ubuntu)",
            SourceManager::AptCache => "apt-cache (Debian/Ubuntu)",
            SourceManager::Aptitude => "aptitude (Debian)",
            SourceManager::Dnf => "dnf (Fedora/RHEL)",
            SourceManager::Yum => "yum (CentOS/RHEL)",
            SourceManager::Apk => "apk (Alpine)",
            SourceManager::Zypper => "zypper (openSUSE)",
            SourceManager::Brew => "brew (Homebrew/macOS)",
            SourceManager::Flatpak => "flatpak (Sandboxed App)",
            SourceManager::Snap => "snap (Canonical Snap)",
            SourceManager::Dpkg => "dpkg (Debian Package)",
            SourceManager::Rpm => "rpm (RedHat Package)",
            SourceManager::Unknown(s) => s.as_str(),
        }
    }
}

/// The user on whose behalf `sudo` runs the program.
#[derive(Debug, Clone)]
pub struct UserIdentity {
    pub uid: u32,
    pub gid: u32,
    pub username: String,
    pub home: String,
}

/// The helper's own command-line options.
#[derive(Debug, Clone)]
pub struct CliOptions {
    pub explain: bool,
    pub dry_run: bool,
    pub yes: bool,
    pub force_interactive: bool,
    pub json: bool,
    pub helper: Option<String>,
    pub theme: Option<String>,
    pub config_path: Option<String>,
}

/// `CliOptions` with its texts as character sequences.
pub struct OptionsView {
    pub explain: bool,
    pub dry_run: bool,
    pub yes: bool,
    pub force_interactive: bool,
    pub json: bool,
    pub helper: Option<Seq<char>>,
    pub theme: Option<Seq<char>>,
    pub config_path: Option<Seq<char>>,
}

/// The view of an optional text.
pub open spec fn opt_text(o: Option<String>) -> Option<Seq<char>> {
    match o {
        Some(s) => Some(s@),
        None => None,
    }
}

impl View for CliOptions {
    type V = OptionsView;

    open spec fn view(&self) -> OptionsView {
        OptionsView {
            explain: self.explain,
            dry_run: self.dry_run,
            yes: self.yes,
            force_interactive: self.force_interactive,
            json: self.json,
            helper: opt_text(self.helper),
            theme: opt_text(self.theme),
            config_path: opt_text(self.config_path),
        }
    }
}

/// No option given.
pub open spec fn no_options() -> OptionsView {
    OptionsView {
        explain: false,
        dry_run: false,
        yes: false,
        force_interactive: false,
        json: false,
        helper: None,
        theme: None,
        config_path: None,
    }
}

impl Default for CliOptions {
    fn default() -> (r: Self)
        ensures
            r@ == no_options(),
    {
        CliOptions {
            explain: false,
            dry_run: false,
            yes: false,
            force_interactive: false,
            json: false,
            helper: None,
            theme: None,
            config_path: None,
        }
    }
}

/// A copy of an optional text.
fn copy_opt(o: &Option<String>) -> (r: Option<String>)
    ensures
        opt_text(r) == opt_text(*o),
{
    match o {
        Some(s) => Some(text(s.as_str())),
        None => None,
    }
}

impl CliOptions {
    /// A copy of the options.
    pub fn copy(&self) -> (r: CliOptions)
        ensures
            r@ == self@,
    {
        CliOptions {
            explain: self.explain,
            dry_run: self.dry_run,
            yes: self.yes,
            force_interactive: self.force_interactive,
            json: self.json,
            helper: copy_opt(&self.helper),
            theme: copy_opt(&self.theme),
            config_path: copy_opt(&self.config_path),
        }
    }
}

/// Reads the helper's options from `rest` onwards, as in `parch-helper
/// [OPTIONS] <COMMAND> [ARGS...]`: recognised options set their field (`-H`,
/// `-t`, `-c` take the next argument as their value when there is one); the
/// first argument that is not one of them, and everything after it, is kept
/// unchanged, in order, for the manager.
pub open spec fn parse_options(rest: Seq<Seq<char>>, o: OptionsView, pass: Seq<Seq<char>>) -> (OptionsView, Seq<Seq<char>>)
    decreases rest.len(),
{
    if rest.len() == 0 {
        (o, pass)
    } else {
        let a = rest[0];
        let tail = rest.drop_first();
        if a == "-e"@ || a == "--explain"@ {
            parse_options(tail, OptionsView { explain: true, ..o }, pass)
        } else if a == "-d"@ || a == "--dry-run"@ {
            parse_options(tail, OptionsView { dry_run: true, ..o }, pass)
        } else if a == "-y"@ || a == "--yes"@ {
            parse_options(tail, OptionsView { yes: true, ..o }, pass)
        } else if a == "-i"@ || a == "--interactive"@ {
            parse_options(tail, OptionsView { force_interactive: true, ..o }, pass)
        } else if a == "-j"@ || a == "--json"@ {
            parse_options(tail, OptionsView { json: true, ..o }, pass)
        } else if (a == "-H"@ || a == "--helper"@) && rest.len() > 1 {
            parse_options(tail.drop_first(), OptionsView { helper: Some(rest[1]), ..o }, pass)
        } else if (a == "-t"@ || a == "--theme"@) && rest.len() > 1 {
            parse_options(tail.drop_first(), OptionsView { theme: Some(rest[1]), ..o }, pass)
        } else if (a == "-c"@ || a == "--config"@) && rest.len() > 1 {
            parse_options(tail.drop_first(), OptionsView { config_path: Some(rest[1]), ..o }, pass)
        } else {
            (o, pass + rest)
        }
    }
}

/// The options and manager arguments of a whole argument list (the first
/// element is the program name).
pub open spec fn split_arguments(raw: Seq<Seq<char>>) -> (OptionsView, Seq<Seq<char>>) {
    if raw.len() == 0 {
        (no_options(), Seq::empty())
    } else {
        parse_options(raw.drop_first(), no_options(), Seq::empty())
    }
}

/// The program name was the helper's own (`parch-helper`, `parch-translate`).
pub open spec fn is_helper_name(s: Seq<char>) -> bool {
    has_infix(s, "parch-helper"@) || has_infix(s, "parch-translate"@)
}

/// Everything the program learns of how it was invoked.
#[derive(Debug, Clone)]
pub struct InvocationContext {
    pub source: SourceManager,
    pub original_args: Vec<String>,
    pub is_sudo: bool,
    pub sudo_user: Option<UserIdentity>,
    pub is_interactive: bool,
    pub cli_opts: CliOptions,
}

impl InvocationContext {
    /// The manager and manager arguments of an argument list: the program
    /// name selects the manager; run under the helper's own name, the first
    /// manager argument does.
    pub open spec fn spec_source_and_args(raw: Seq<Seq<char>>) -> (SourceView, Seq<Seq<char>>) {
        let (o, pass) = split_arguments(raw);
        let prog = if raw.len() > 0 { raw[0] } else { Seq::empty() };
        let s = source_of(prog);
        match s {
            SourceView::Unknown(n) => if is_helper_name(n) && pass.len() > 0 {
                (source_of(pass[0]), pass.drop_first())
            } else {
                (s, pass)
            },
            _ => (s, pass),
        }
    }

    /// Reads the invocation: `raw_args` are the program's arguments, program
    /// name first; `is_sudo`, `sudo_user` and `stdin_is_terminal` are what the
    /// system reports of the effective user, the user behind `sudo`, and
    /// standard input.
    pub fn capture(
        raw_args: Vec<String>,
        is_sudo: bool,
        sudo_user: Option<UserIdentity>,
        stdin_is_terminal: bool,
    ) -> (r: (CliOptions, InvocationContext))
        ensures
            r.0@ == split_arguments(raw_args.deep_view()).0,
            r.1.cli_opts@ == r.0@,
            (r.1.source@, r.1.original_args.deep_view()) == Self::spec_source_and_args(raw_args.deep_view()),
            r.1.is_sudo == is_sudo,
            r.1.sudo_user == sudo_user,
            r.1.is_interactive == (r.0.force_interactive || stdin_is_terminal),
    {
        let ghost rv = raw_args.deep_view();
        let n = raw_args.len();
        let mut cli_opts = CliOptions::default();
        let mut pass_args: Vec<String> = Vec::new();
        let mut idx: usize = 1;
        let ghost tail = if rv.len() > 0 { rv.drop_first() } else { Seq::<Seq<char>>::empty() };
        if n > 0 {
            assert(rv.subrange(1, n as int) =~= tail);
        }
        assert(pass_args.deep_view() =~= Seq::<Seq<char>>::empty());
        while idx < n
            invariant
                n == raw_args@.len(),
                rv == raw_args.deep_view(),
                1 <= idx,
                n > 0 ==> idx <= n,
                n == 0 ==> cli_opts@ == no_options() && pass_args.deep_view() == Seq::<Seq<char>>::empty(),
                n > 0 ==> parse_options(tail, no_options(), Seq::empty()) == parse_options(
                    rv.subrange(idx as int, n as int),
                    cli_opts@,
                    pass_args.deep_view(),
                ),
            decreases n - idx,
        {
            let ghost cur = rv.subrange(idx as int, n as int);
            assert(cur[0] == raw_args@[idx as int]@);
            assert(cur.drop_first() =~= rv.subrange(idx + 1, n as int));
            let arg = raw_args[idx].as_str();
            let has_value = idx + 1 < n;
            if str_eq(arg, "-e") || str_eq(arg, "--explain") {
                cli_opts.explain = true;
            } else if str_eq(arg, "-d") || str_eq(arg, "--dry-run") {
                cli_opts.dry_run = true;
            } else if str_eq(arg, "-y") || str_eq(arg, "--yes") {
                cli_opts.yes = true;
            } else if str_eq(arg, "-i") || str_eq(arg, "--interactive") {
                cli_opts.force_interactive = true;
            } else if str_eq(arg, "-j") || str_eq(arg, "--json") {
                cli_opts.json = true;
            } else if (str_eq(arg, "-H") || str_eq(arg, "--helper")) && has_value {
                assert(cur[1] == raw_args@[idx + 1]@);
                assert(cur.drop_first().drop_first() =~= rv.subrange(idx + 2, n as int));
                idx += 1;
                cli_opts.helper = Some(text(raw_args[idx].as_str()));
            } else if (str_eq(arg, "-t") || str_eq(arg, "--theme")) && has_value {
                assert(cur[1] == raw_args@[idx + 1]@);
                assert(cur.drop_first().drop_first() =~= rv.subrange(idx + 2, n as int));
                idx += 1;
                cli_opts.theme = Some(text(raw_args[idx].as_str()));
            } else if (str_eq(arg, "-c") || str_eq(arg, "--config")) && has_value {
                assert(cur[1] == raw_args@[idx + 1]@);
                assert(cur.drop_first().drop_first() =~= rv.subrange(idx + 2, n as int));
                idx += 1;
                cli_opts.config_path = Some(text(raw_args[idx].as_str()));
            } else {
                let ghost before = pass_args.deep_view();
                let mut k: usize = idx;
                while k < n
                    invariant
                        n == raw_args@.len(),
                        rv == raw_args.deep_view(),
                        idx <= k <= n,
                        pass_args.deep_view() == before + rv.subrange(idx as int, k as int),
                    decreases n - k,
                {
                    let ghost mid = pass_args.deep_view();
                    pass_args.push(text(raw_args[k].as_str()));
                    assert(pass_args.deep_view() =~= mid.push(rv[k as int]));
                    assert(rv.subrange(idx as int, k + 1) =~= rv.subrange(idx as int, k as int).push(rv[k as int]));
                    k += 1;
                }
                assert(pass_args.deep_view() =~= before + cur);
                idx = n - 1;
            }
            idx += 1;
        }
        let ghost opts_v = cli_opts@;
        let ghost pass_v = pass_args.deep_view();
        if n > 0 {
            assert(rv.subrange(idx as int, n as int) =~= Seq::<Seq<char>>::empty());
            assert((opts_v, pass_v) == split_arguments(rv));
        }
        let prog = if n > 0 {
            text(raw_args[0].as_str())
        } else {
            String::new()
        };
        let mut source = SourceManager::from_name(prog.as_str());
        let switch = match &source {
            SourceManager::Unknown(s) => (contains_str(s.as_str(), "parch-helper") || contains_str(
                s.as_str(),
                "parch-translate",
            )) && pass_args.len() > 0,
            _ => false,
        };
        if switch {
            source = SourceManager::from_name(pass_args[0].as_str());
            let ghost before = pass_args.deep_view();
            pass_args.remove(0);
            assert(pass_args.deep_view() =~= before.drop_first());
        }
        let is_interactive = if cli_opts.force_interactive {
            true
        } else {
            stdin_is_terminal
        };
        let opts_copy = cli_opts.copy();
        let ctx = InvocationContext {
            source,
            original_args: pass_args,
            is_sudo,
            sudo_user,
            is_interactive,
            cli_opts: opts_copy,
        };
        (cli_opts, ctx)
    }
}

/// The user behind `sudo`: the value of `SUDO_UID` read as a `u32`, unless it
/// is missing, unreadable or root's.
pub open spec fn sudo_target(sudo_uid: Option<Seq<char>>) -> Option<u32> {
    match sudo_uid {
        Some(v) => match parse_u32_spec(v) {
            Some(u) => if u != 0 {
                Some(u)
            } else {
                None
            },
            None => None,
        },
        None => None,
    }
}

impl InvocationContext {
    /// The user id on whose behalf `sudo` runs the program, from the value of
    /// `SUDO_UID` (`None` where the variable is not set).
    pub fn sudo_target_uid(sudo_uid: Option<&str>) -> (r: Option<u32>)
        ensures
            r == sudo_target(
                match sudo_uid {
                    Some(v) => Some(v@),
                    None => None,
                },
            ),
    {
        match sudo_uid {
            Some(v) => match parse_u32(v) {
                Some(u) => if u != 0 {
                    Some(u)
                } else {
                    None
                },
                None => None,
            },
            None => None,
        }
    }
}

} // verus!
