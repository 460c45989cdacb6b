//! User configuration: the preferred helper, language, theme and custom
//! package mappings.
use crate::context::CliOptions;
use crate::strs::{distinct_keys, text, pairs_view};
use vstd::prelude::*;

verus! {

/// The `[general]` section of the configuration.
#[derive(Debug, Clone)]
pub struct GeneralConfig {
    /// Package tool that runs the translated command: `paru`, `yay` or `pacman`.
    pub helper: String,
    /// Explanation language: `both`, `en` or `fa`.
    pub language: String,
    /// Run the translated command without asking.
    pub auto_execute: bool,
    /// Draw the colored box rather than plain text.
    pub colored_ui: bool,
    /// Name of the color theme.
    pub theme: String,
    /// Suggest AUR packages.
    pub aur_fallback: bool,
    /// Wrap right-to-left notes in Unicode isolation marks.
    pub bidi_isolation: bool,
}

/// The whole configuration.
#[derive(Debug, Clone)]
pub struct Config {
    /// The `[general]` section.
    pub general: GeneralConfig,
    /// Custom package mappings (foreign name, Arch name). A name is looked up
    /// from the first entry on (`lookup`): where a name has several entries,
    /// the first one counts.
    pub package_overrides: Vec<(String, String)>,
}

impl Config {
    /// The custom package mappings as texts.
    pub open spec fn overrides(&self) -> Seq<(Seq<char>, Seq<char>)> {
        pairs_view(self.package_overrides@)
    }

    /// No foreign name has two custom mappings.
    pub open spec fn overrides_unique(&self) -> bool {
        distinct_keys(self.overrides())
    }

    /// The configuration used when no file supplies one.
    pub open spec fn is_default(&self) -> bool {
        &&& self.general.helper@ == "paru"@
        &&& self.general.language@ == "both"@
        &&& !self.general.auto_execute
        &&& self.general.colored_ui
        &&& self.general.theme@ == "neon"@
        &&& self.general.aur_fallback
        &&& self.general.bidi_isolation
        &&& self.package_overrides@.len() == 0
    }
}

/// The helper used when the configuration names none.
pub fn default_helper() -> (r: String)
    ensures
        r@ == "paru"@,
{
    text("paru")
}

/// The language used when the configuration names none.
pub fn default_language() -> (r: String)
    ensures
        r@ == "both"@,
{
    text("both")
}

/// The theme used when the configuration names none.
pub fn default_theme() -> (r: String)
    ensures
        r@ == "neon"@,
{
    text("neon")
}

/// The value of switches that are on unless the configuration turns them off.
pub fn default_true() -> (r: bool)
    ensures
        r,
{
    true
}

impl Default for Config {
    fn default() -> (r: Self)
        ensures
            r.is_default(),
            r.overrides_unique(),
    {
        Config {
            general: GeneralConfig {
                helper: default_helper(),
                language: default_language(),
                auto_execute: false,
                colored_ui: default_true(),
                theme: default_theme(),
                aur_fallback: default_true(),
                bidi_isolation: default_true(),
            },
            package_overrides: Vec::new(),
        }
    }
}

/// The first configuration present in `found`.
pub open spec fn first_found(found: Seq<Option<Config>>) -> Option<Config>
    decreases found.len(),
{
    if found.len() == 0 {
        None
    } else if found[0] is Some {
        found[0]
    } else {
        first_found(found.drop_first())
    }
}

impl Config {
    /// Picks the configuration in order of precedence: `candidates` holds, for each
    /// place a configuration may come from (the path given on the command line,
    /// the user's file, the system file), the configuration read from it if it
    /// exists and parses. The first one found wins; with none, the defaults.
    pub fn load(candidates: Vec<Option<Config>>) -> (r: Config)
        ensures
            first_found(candidates@) matches Some(c) ==> r == c,
            first_found(candidates@) is None ==> r.is_default(),
            (forall|i: int| 0 <= i < candidates@.len() && #[trigger] candidates@[i] is Some
                ==> candidates@[i]->0.overrides_unique()) ==> r.overrides_unique(),
    {
        let ghost orig = candidates@;
        let mut found = candidates;
        let n = found.len();
        let mut i: usize = 0;
        assert(orig.subrange(0, n as int) =~= orig);
        while i < n
            invariant
                found@ == orig,
                orig == candidates@,
                n == orig.len(),
                i <= n,
                first_found(orig) == first_found(orig.subrange(i as int, n as int)),
            decreases n - i,
        {
            assert(orig.subrange(i as int, n as int)[0] == orig[i as int]);
            if found[i].is_some() {
                assert(first_found(orig) == orig[i as int]);
                let c = found.remove(i);
                assert(c == orig[i as int]);
                match c {
                    Some(cfg) => {
                        return cfg;
                    },
                    None => {},
                }
            }
            assert(orig.subrange(i as int, n as int).drop_first() =~= orig.subrange(i + 1, n as int));
            i += 1;
        }
        Config::default()
    }
}

impl Config {
    /// Lets the command-line options override the configuration: a helper or
    /// theme given there replaces the configured one, and `--yes` turns on
    /// running without asking.
    pub fn apply_options(&mut self, opts: &CliOptions)
        ensures
            final(self).general.helper@ == (match opts@.helper {
                Some(h) => h,
                None => old(self).general.helper@,
            }),
            final(self).general.theme@ == (match opts@.theme {
                Some(t) => t,
                None => old(self).general.theme@,
            }),
            final(self).general.auto_execute == (old(self).general.auto_execute || opts.yes),
            final(self).general.language == old(self).general.language,
            final(self).general.colored_ui == old(self).general.colored_ui,
            final(self).general.aur_fallback == old(self).general.aur_fallback,
            final(self).general.bidi_isolation == old(self).general.bidi_isolation,
            final(self).package_overrides == old(self).package_overrides,
    {
        match &opts.helper {
            Some(h) => {
                self.general.helper = text(h.as_str());
            },
            None => {},
        }
        match &opts.theme {
            Some(t) => {
                self.general.theme = text(t.as_str());
            },
            None => {},
        }
        if opts.yes {
            self.general.auto_execute = true;
        }
    }
}

/// The user's configuration file under the home directory `home`, joined as
/// `PathBuf::join` joins a relative path: a `/` is put between them unless
/// `home` is empty or already ends with one.
pub open spec fn user_config_path(home: Seq<char>) -> Seq<char> {
    let sep = if home.len() > 0 && home.last() != '/' { "/"@ } else { Seq::empty() };
    home + sep + ".config/parch/helper.toml"@
}

/// The system-wide configuration file.
pub open spec fn system_config_path() -> Seq<char> {
    "/etc/parch/helper.toml"@
}

/// The places a configuration is looked for, first to last: the file named
/// on the command line, the user's file (when the home directory is known),
/// the system file.
pub open spec fn config_candidates(custom: Option<Seq<char>>, home: Option<Seq<char>>) -> Seq<Seq<char>> {
    let first = match custom {
        Some(c) => seq![c],
        None => Seq::empty(),
    };
    let user = match home {
        Some(h) => seq![user_config_path(h)],
        None => Seq::empty(),
    };
    first + user + seq![system_config_path()]
}

impl Config {
    /// The user's configuration file under the home directory `home`.
    pub fn user_config_path(home: &str) -> (r: String)
        ensures
            r@ == user_config_path(home@),
    {
        let n = home.unicode_len();
        let mut r = text(home);
        if n > 0 && home.get_char(n - 1) != '/' {
            r.append("/");
        }
        r.append(".config/parch/helper.toml");
        r
    }

    /// The files to read a configuration from, in order of precedence: the
    /// one named on the command line (`custom`), the user's (under `home`),
    /// the system's. `Config::load` takes what each of them gives.
    pub fn candidate_paths(custom: Option<&str>, home: Option<&str>) -> (r: Vec<String>)
        ensures
            r.deep_view() == config_candidates(
                match custom {
                    Some(c) => Some(c@),
                    None => None,
                },
                match home {
                    Some(h) => Some(h@),
                    None => None,
                },
            ),
    {
        let mut r: Vec<String> = Vec::new();
        match custom {
            Some(c) => {
                r.push(text(c));
            },
            None => {},
        }
        match home {
            Some(h) => {
                r.push(Config::user_config_path(h));
            },
            None => {},
        }
        r.push(text("/etc/parch/helper.toml"));
        assert(r.deep_view() =~= config_candidates(
            match custom {
                Some(c) => Some(c@),
                None => None,
            },
            match home {
                Some(h) => Some(h@),
                None => None,
            },
        ));
        r
    }
}

} // verus!
