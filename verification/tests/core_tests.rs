use parch_helper::config::{default_helper, default_language, default_theme, default_true, Config};
use parch_helper::context::{CliOptions, InvocationContext, SourceManager, UserIdentity};
use parch_helper::executor::{ExecPlan, Executor};
use parch_helper::safety::{DangerLevel, LockObservation, LockStatus, SafetyGuard};
use parch_helper::translator::mapper::PkgMappings;
use parch_helper::translator::{translate, PacmanOp, TranslationResult};

fn strings(xs: &[&str]) -> Vec<String> {
    xs.iter().map(|s| s.to_string()).collect()
}

fn ctx(source: SourceManager, args: &[&str], is_sudo: bool, with_user: bool) -> InvocationContext {
    InvocationContext {
        source,
        original_args: strings(args),
        is_sudo,
        sudo_user: if with_user {
            Some(UserIdentity { uid: 1000, gid: 1000, username: "ali".to_string(), home: "/home/ali".to_string() })
        } else {
            None
        },
        is_interactive: true,
        cli_opts: CliOptions::default(),
    }
}

fn run(source: SourceManager, args: &[&str], cfg: &Config) -> TranslationResult {
    translate(&ctx(source, args, false, false), cfg)
}

fn pacman_config() -> Config {
    let mut cfg = Config::default();
    cfg.general.helper = "pacman".to_string();
    cfg
}

#[test]
fn defaults_of_configuration() {
    assert_eq!(default_helper(), "paru");
    assert_eq!(default_language(), "both");
    assert_eq!(default_theme(), "neon");
    assert!(default_true());
    let cfg = Config::default();
    assert_eq!(cfg.general.helper, "paru");
    assert!(!cfg.general.auto_execute);
    assert!(cfg.general.colored_ui && cfg.general.aur_fallback && cfg.general.bidi_isolation);
    assert!(cfg.package_overrides.is_empty());
}

#[test]
fn configuration_precedence() {
    let first = pacman_config();
    let mut second = Config::default();
    second.general.helper = "yay".to_string();
    let chosen = Config::load(vec![None, Some(first), Some(second)]);
    assert_eq!(chosen.general.helper, "pacman");
    let mut third = Config::default();
    third.general.language = "fa".to_string();
    let chosen = Config::load(vec![Some(third), Some(pacman_config())]);
    assert_eq!(chosen.general.language, "fa");
    assert_eq!(chosen.general.helper, "paru");
    let none = Config::load(vec![None, None, None]);
    assert_eq!(none.general.theme, "neon");
    assert_eq!(Config::load(Vec::new()).general.helper, "paru");
}

#[test]
fn configuration_files_looked_at() {
    assert_eq!(
        Config::candidate_paths(Some("/tmp/x.toml"), Some("/home/ali")),
        strings(&["/tmp/x.toml", "/home/ali/.config/parch/helper.toml", "/etc/parch/helper.toml"])
    );
    assert_eq!(
        Config::candidate_paths(None, Some("/home/ali/")),
        strings(&["/home/ali/.config/parch/helper.toml", "/etc/parch/helper.toml"])
    );
    assert_eq!(Config::candidate_paths(None, None), strings(&["/etc/parch/helper.toml"]));
    assert_eq!(Config::user_config_path(""), ".config/parch/helper.toml");
}

#[test]
fn options_override_configuration() {
    let mut cfg = Config::default();
    let mut opts = CliOptions::default();
    opts.helper = Some("yay".to_string());
    opts.theme = Some("monokai".to_string());
    opts.yes = true;
    cfg.apply_options(&opts);
    assert_eq!(cfg.general.helper, "yay");
    assert_eq!(cfg.general.theme, "monokai");
    assert!(cfg.general.auto_execute);
    let mut cfg2 = Config::default();
    cfg2.apply_options(&CliOptions::default());
    assert_eq!(cfg2.general.helper, "paru");
    assert!(!cfg2.general.auto_execute);
}

#[test]
fn source_from_program_name() {
    assert_eq!(SourceManager::from_name("apt"), SourceManager::Apt);
    assert_eq!(SourceManager::from_name("/usr/bin/apt-get"), SourceManager::AptGet);
    assert_eq!(SourceManager::from_name("/usr/local/bin/yum"), SourceManager::Yum);
    assert_eq!(SourceManager::from_name("rpm"), SourceManager::Rpm);
    assert_eq!(
        SourceManager::from_name("/usr/bin/parch-helper"),
        SourceManager::Unknown("parch-helper".to_string())
    );
    assert_eq!(SourceManager::from_name("apt").display_name(), "apt (Debian/Ubuntu)");
    assert_eq!(SourceManager::Unknown("foo".to_string()).display_name(), "foo");
    assert_eq!(SourceManager::from_name("foo").display_name(), "foo");
    for k in ["apt", "apt-get", "apt-cache", "aptitude", "dnf", "yum", "apk", "zypper", "brew", "flatpak", "snap", "dpkg", "rpm"] {
        assert!(SourceManager::from_name(k).display_name().starts_with(&format!("{} (", k)));
    }
}

#[test]
fn capture_reads_options_and_manager() {
    let raw = strings(&["/usr/bin/apt", "-y", "install", "--theme", "plain", "htop"]);
    let (opts, c) = InvocationContext::capture(raw, false, None, false);
    assert!(opts.yes);
    assert_eq!(opts.theme, None);
    assert_eq!(c.source, SourceManager::Apt);
    assert_eq!(c.original_args, strings(&["install", "--theme", "plain", "htop"]));
    assert!(!c.is_interactive);

    let raw = strings(&["parch-translate", "-i", "-t", "plain", "dnf", "upgrade", "-y"]);
    let (opts, c) = InvocationContext::capture(raw, true, None, false);
    assert!(opts.force_interactive);
    assert!(!opts.yes);
    assert_eq!(opts.theme, Some("plain".to_string()));
    assert!(c.is_interactive);
    assert!(c.is_sudo);
    assert_eq!(c.source, SourceManager::Dnf);
    assert_eq!(c.original_args, strings(&["upgrade", "-y"]));

    let raw = strings(&["apt", "install", "-H"]);
    let (opts, c) = InvocationContext::capture(raw, false, None, true);
    assert_eq!(opts.helper, None);
    assert_eq!(c.original_args, strings(&["install", "-H"]));

    let raw = strings(&["apt", "-H"]);
    let (opts, c) = InvocationContext::capture(raw, false, None, true);
    assert_eq!(opts.helper, None);
    assert_eq!(c.original_args, strings(&["-H"]));
}

#[test]
fn manager_flags_stay_with_the_manager() {
    let raw = strings(&["apt", "install", "-y", "build-essential", "libssl-dev"]);
    let (opts, c) = InvocationContext::capture(raw, false, None, true);
    assert!(!opts.yes);
    assert_eq!(c.cli_opts.yes, false);
    assert_eq!(c.original_args, strings(&["install", "-y", "build-essential", "libssl-dev"]));
    let res = translate(&c, &Config::default());
    assert_eq!(res.command, "paru -S --noconfirm base-devel openssl");

    let raw = strings(&["apt", "install", "-d", "htop"]);
    let (opts, c) = InvocationContext::capture(raw, false, None, true);
    assert!(!opts.dry_run);
    assert_eq!(c.original_args, strings(&["install", "-d", "htop"]));
}

#[test]
fn sudo_target_user_id() {
    assert_eq!(InvocationContext::sudo_target_uid(Some("1000")), Some(1000));
    assert_eq!(InvocationContext::sudo_target_uid(Some("+7")), Some(7));
    assert_eq!(InvocationContext::sudo_target_uid(Some("0")), None);
    assert_eq!(InvocationContext::sudo_target_uid(Some("abc")), None);
    assert_eq!(InvocationContext::sudo_target_uid(Some("99999999999")), None);
    assert_eq!(InvocationContext::sudo_target_uid(None), None);
}

#[test]
fn apt_family_translated_alike() {
    let cfg = Config::default();
    for args in [&["install", "-y", "libssl-dev"][..], &["purge", "vim"][..], &["list", "--installed"][..]] {
        let a = run(SourceManager::Apt, args, &cfg);
        for s in [SourceManager::AptGet, SourceManager::AptCache, SourceManager::Aptitude] {
            let b = run(s, args, &cfg);
            assert_eq!(a.command, b.command);
            assert_eq!(a.exec_args, b.exec_args);
            assert_eq!(a.op, b.op);
        }
    }
}

#[test]
fn yum_translated_as_dnf() {
    let cfg = Config::default();
    let a = run(SourceManager::Yum, &["install", "-y", "gcc-c++"], &cfg);
    let b = run(SourceManager::Dnf, &["install", "-y", "gcc-c++"], &cfg);
    assert_eq!(a.command, b.command);
    assert_eq!(a.op, b.op);
}

#[test]
fn apt_get_typo_scenarios() {
    let cfg = Config::default();
    let a = run(SourceManager::Apt, &["get", "install", "htop"], &cfg);
    let b = run(SourceManager::Apt, &["install", "htop"], &cfg);
    assert_eq!(a.command, b.command);
    let bare = run(SourceManager::Apt, &[], &cfg);
    assert_eq!(bare.command, "paru -Syu");
    let only_get = run(SourceManager::Apt, &["get"], &cfg);
    assert_eq!(only_get.command, "paru -Syu");
}

#[test]
fn override_mapping_wins() {
    let mut cfg = Config::default();
    cfg.package_overrides.push(("build-essential".to_string(), "my-devel".to_string()));
    assert_eq!(run(SourceManager::Apt, &["install", "build-essential"], &cfg).command, "paru -S my-devel");
    assert_eq!(run(SourceManager::Dnf, &["install", "build-essential"], &cfg).command, "paru -S my-devel");
    assert_eq!(run(SourceManager::Apk, &["add", "build-essential"], &cfg).command, "paru -S my-devel");
    cfg.package_overrides.push(("build-essential".to_string(), "later".to_string()));
    assert_eq!(run(SourceManager::Apt, &["install", "build-essential"], &cfg).command, "paru -S my-devel");
}

#[test]
fn yes_flags_mean_noconfirm() {
    let cfg = Config::default();
    for flag in ["-y", "--yes", "--assume-yes"] {
        let r = run(SourceManager::Apt, &["install", flag, "htop"], &cfg);
        assert_eq!(r.command, "paru -S --noconfirm htop");
        assert_eq!(r.op, PacmanOp::SyncInstall { pkgs: strings(&["htop"]), noconfirm: true, as_deps: false, download_only: false });
    }
    let r = run(SourceManager::Apt, &["install", "htop"], &cfg);
    assert_eq!(r.op, PacmanOp::SyncInstall { pkgs: strings(&["htop"]), noconfirm: false, as_deps: false, download_only: false });
    let r = run(SourceManager::Dnf, &["install", "--assumeyes", "htop"], &cfg);
    assert_eq!(r.command, "paru -S --noconfirm htop");
}

#[test]
fn root_and_aur_never_both() {
    for cfg in [Config::default(), pacman_config()] {
        for (s, args) in [
            (SourceManager::Apt, &["install", "htop"][..]),
            (SourceManager::Apt, &["remove", "htop"][..]),
            (SourceManager::Dpkg, &["-i", "x.deb"][..]),
            (SourceManager::Brew, &["install", "node"][..]),
            (SourceManager::Unknown("foo".to_string()), &["bar"][..]),
        ] {
            let r = run(s, args, &cfg);
            assert!(!(r.needs_root && r.needs_aur));
        }
    }
}

#[test]
fn pacman_helper_uses_sudo_pacman() {
    let cfg = pacman_config();
    let r = run(SourceManager::Apt, &["install", "htop"], &cfg);
    assert_eq!(r.command, "sudo pacman -S htop");
    assert_eq!(r.exec_binary, "sudo");
    assert_eq!(r.exec_args, strings(&["pacman", "-S", "htop"]));
    assert!(r.needs_root && !r.needs_aur);
    let d = run(SourceManager::Dpkg, &["-i", "x.deb"], &cfg);
    assert!(d.needs_aur);
    assert_eq!(d.command, "debtap x.deb");
    let none = run(SourceManager::Rpm, &[], &cfg);
    assert_eq!(none.command, "rpmextract <package.rpm>");
}

#[test]
fn unknown_manager_searches() {
    let r = run(SourceManager::Unknown("foo".to_string()), &["bar", "baz"], &Config::default());
    assert_eq!(r.command, "pacman -Ss foo");
    assert_eq!(r.warning, Some("Input command: 'foo bar baz'".to_string()));
}

#[test]
fn edited_command_replaces_what_runs() {
    let cfg = Config::default();
    let mut r = run(SourceManager::Apt, &["install", "htop"], &cfg);
    let before = r.clone();
    r.apply_edited_command("paru -S htop".to_string());
    assert_eq!(r.command, before.command);
    assert_eq!(r.exec_binary, before.exec_binary);
    assert_eq!(r.exec_args, before.exec_args);
    r.apply_edited_command("  sudo pacman -S  vim ".to_string());
    assert_eq!(r.command, "  sudo pacman -S  vim ");
    assert_eq!(r.exec_binary, "sudo");
    assert_eq!(r.exec_args, strings(&["pacman", "-S", "vim"]));
    r.apply_edited_command("   ".to_string());
    assert_eq!(r.command, "   ");
    assert_eq!(r.exec_binary, "sudo");
}

#[test]
fn mapping_heuristics() {
    let m = PkgMappings::global();
    assert_eq!(m.translate_debian_pkg("build-essential"), "base-devel");
    assert_eq!(m.translate_debian_pkg("libfoo-dev"), "foo");
    assert_eq!(m.translate_debian_pkg("bar-dev"), "bar");
    assert_eq!(m.translate_debian_pkg("python3-requests"), "python-requests");
    assert_eq!(m.translate_debian_pkg("fonts-hack"), "ttf-hack");
    assert_eq!(m.translate_debian_pkg("htop"), "htop");
    assert_eq!(m.translate_fedora_pkg("openssl-devel"), "openssl");
    assert_eq!(m.translate_fedora_pkg("python3-pip"), "python-pip");
    assert_eq!(m.translate_alpine_pkg("py3-yaml"), "python-yaml");
    assert_eq!(m.translate_alpine_pkg("zlib-dev"), "zlib");
    assert_eq!(m.translate_zypper_pkg("ncurses-devel"), "ncurses");
    assert_eq!(m.translate_brew_pkg("node"), "nodejs");
    assert_eq!(m.translate_brew_pkg("node@20"), "nodejs");
    assert_eq!(m.translate_brew_pkg("python@3.12"), "python");
}

#[test]
fn rm_of_root_blocked() {
    let v = SafetyGuard::evaluate_command_safety("rm", &strings(&["-rf", "/"]));
    assert_eq!(v, DangerLevel::Blocked("Command 'rm' targets core system path: [\"-rf\", \"/\"]".to_string()));
    let v = SafetyGuard::evaluate_command_safety("/bin/rm", &strings(&["--recursive", "/etc"]));
    assert!(matches!(v, DangerLevel::Blocked(_)));
    assert_eq!(SafetyGuard::evaluate_command_safety("rm", &strings(&["-rf", "/tmp/x"])), DangerLevel::Safe);
}

#[test]
fn core_package_removal_blocked() {
    let v = SafetyGuard::evaluate_command_safety("pacman", &strings(&["-Rns", "glibc"]));
    assert_eq!(v, DangerLevel::Blocked("Removal of protected core package 'glibc' is blocked.".to_string()));
    let v = SafetyGuard::evaluate_command_safety("/usr/bin/pacman", &strings(&["-Rns", "/var/cache/systemd"]));
    assert_eq!(v, DangerLevel::Blocked("Removal of protected core package 'systemd' is blocked.".to_string()));
    let v = SafetyGuard::evaluate_command_safety("paru", &strings(&["--remove", "linux-headers"]));
    assert!(matches!(v, DangerLevel::Blocked(_)));
    let v = SafetyGuard::evaluate_command_safety("pacman", &strings(&["-Rc", "vim"]));
    assert!(matches!(v, DangerLevel::Warning(_)));
    let v = SafetyGuard::evaluate_command_safety("pacman", &strings(&["-Rdd", "vim"]));
    assert!(matches!(v, DangerLevel::Warning(_)));
    assert_eq!(SafetyGuard::evaluate_command_safety("pacman", &strings(&["-S", "glibc"])), DangerLevel::Safe);
    assert_eq!(SafetyGuard::evaluate_command_safety("ls", &strings(&["-R", "/"])), DangerLevel::Safe);
}

fn observation(lock_exists: bool) -> LockObservation {
    LockObservation {
        lock_exists,
        pidof_outputs: vec![None, None, None, None, None],
        lock_content: None,
        holder_alive: false,
        holder_comm: None,
        lock_age: None,
    }
}

#[test]
fn lock_states() {
    assert_eq!(SafetyGuard::classify_lock(&observation(false)), LockStatus::NotLocked);
    let mut o = observation(true);
    o.pidof_outputs[2] = Some("4242 17\n".to_string());
    assert_eq!(SafetyGuard::classify_lock(&o), LockStatus::LockedByProcess(4242, "yay".to_string()));
    let mut o = observation(true);
    o.lock_content = Some(" 311\n".to_string());
    assert_eq!(SafetyGuard::classify_lock(&o), LockStatus::StaleLock(311));
    o.holder_alive = true;
    o.holder_comm = Some("pacman\n".to_string());
    assert_eq!(SafetyGuard::classify_lock(&o), LockStatus::LockedByProcess(311, "pacman".to_string()));
    let mut o = observation(true);
    o.lock_age = Some((1000, 9000));
    assert_eq!(SafetyGuard::classify_lock(&o), LockStatus::StaleLock(0));
    o.lock_age = Some((1000, 8200));
    assert_eq!(SafetyGuard::classify_lock(&o), LockStatus::LockedUnknown);
    assert_eq!(SafetyGuard::classify_lock(&observation(true)), LockStatus::LockedUnknown);
    assert_eq!(SafetyGuard::lock_file_pid("  12\n"), Some(12));
    assert_eq!(SafetyGuard::pidof_output_pid("77 78"), Some(77));
    assert_eq!(SafetyGuard::pidof_output_pid(""), None);
    assert_eq!(SafetyGuard::lock_holder_programs(), strings(&["pacman", "paru", "yay", "pamac", "packagekitd"]));
    assert_eq!(
        SafetyGuard::conflicting_services(),
        strings(&["packagekit.service", "pamac-daemon.service", "discover.service"])
    );
}

#[test]
fn orphan_cleanup_commands() {
    assert!(Executor::orphan_removal(false, false, " \n").is_none());
    let o = Executor::orphan_removal(true, true, "a\nb\n").unwrap();
    assert_eq!(o.orphans, strings(&["a", "b"]));
    assert_eq!(o.binary, "pacman");
    assert_eq!(o.args, strings(&["-Rns", "--noconfirm", "a", "b"]));
    let o = Executor::orphan_removal(false, false, "a").unwrap();
    assert_eq!(o.binary, "sudo");
    assert_eq!(o.args, strings(&["pacman", "-Rns", "a"]));
}

#[test]
fn execution_plans() {
    let cfg = pacman_config();
    let c = ctx(SourceManager::Apt, &["install", "htop"], true, false);
    let r = translate(&c, &cfg);
    assert!(matches!(Executor::plan(&c, &r, true), ExecPlan::ReadOnlyRoot));
    match Executor::plan(&c, &r, false) {
        ExecPlan::Run { binary, args, as_user, warning } => {
            assert_eq!(binary, "pacman");
            assert_eq!(args, strings(&["-S", "htop"]));
            assert!(!as_user);
            assert!(warning.is_none());
        },
        _ => panic!("expected a run"),
    }
    let c = ctx(SourceManager::Apt, &["install", "htop"], true, true);
    let r = translate(&c, &Config::default());
    match Executor::plan(&c, &r, false) {
        ExecPlan::Run { binary, as_user, .. } => {
            assert_eq!(binary, "paru");
            assert!(as_user);
        },
        _ => panic!("expected a run"),
    }
    let c = ctx(SourceManager::Apt, &["autoremove", "-y"], false, false);
    let r = translate(&c, &Config::default());
    assert!(matches!(Executor::plan(&c, &r, false), ExecPlan::OrphanCleanup { noconfirm: true }));
    let c = ctx(SourceManager::Apt, &["remove", "systemd"], true, false);
    let r = translate(&c, &Config::default());
    assert!(matches!(Executor::plan(&c, &r, false), ExecPlan::Blocked { .. }));
}

#[test]
fn sudo_does_not_hide_danger() {
    let c = ctx(SourceManager::Apt, &["remove", "glibc"], false, false);
    let r = translate(&c, &Config::default());
    assert_eq!(r.exec_binary, "sudo");
    match Executor::plan(&c, &r, false) {
        ExecPlan::Blocked { reason } => {
            assert_eq!(reason, "Removal of protected core package 'glibc' is blocked.")
        },
        _ => panic!("expected a refusal"),
    }
    let mut edited = translate(&c, &Config::default());
    edited.apply_edited_command("sudo rm -rf /".to_string());
    assert!(matches!(Executor::plan(&c, &edited, false), ExecPlan::Blocked { .. }));
    let root = ctx(SourceManager::Apt, &["remove", "glibc"], true, false);
    assert!(matches!(Executor::plan(&root, &edited, false), ExecPlan::Blocked { .. }));

    let (b, a) = Executor::judged("/usr/bin/sudo", &strings(&["sudo", "rm", "-rf", "/"]));
    assert_eq!(b, "rm");
    assert_eq!(a, strings(&["-rf", "/"]));
    let (b, a) = Executor::judged("sudo", &Vec::new());
    assert_eq!(b, "sudo");
    assert!(a.is_empty());
    assert!(Executor::is_sudo_program("/usr/bin/sudo"));
    assert!(!Executor::is_sudo_program("sudoku"));

    let c = ctx(SourceManager::Apt, &["install", "htop"], false, false);
    let mut r = translate(&c, &pacman_config());
    r.apply_edited_command("sudo pacman -S vim".to_string());
    match Executor::plan(&c, &r, false) {
        ExecPlan::Run { binary, args, .. } => {
            assert_eq!(binary, "sudo");
            assert_eq!(args, strings(&["pacman", "-S", "vim"]));
        },
        _ => panic!("expected a run"),
    }
}
