//! Arch Linux names for the packages of other distributions: an embedded
//! table of known names, then naming heuristics.
use crate::strs::{
    distinct_keys,
    has_prefix, has_suffix, lookup, lookup_text, pairs_view, split_once, split_once_char, strip_prefix,
    strip_suffix, cat, text, text_pair,
};
use vstd::prelude::*;

verus! {

/// Name tables from each foreign distribution's package names to Arch ones,
/// as (foreign name, Arch name) entries looked up in order: where a name has
/// several entries, the first one counts (`lookup`).
pub struct PkgMappings {
    /// Debian / Ubuntu names.
    pub debian: Vec<(String, String)>,
    /// Fedora / RHEL names.
    pub fedora: Vec<(String, String)>,
    /// Alpine names.
    pub alpine: Vec<(String, String)>,
    /// openSUSE names.
    pub zypper: Vec<(String, String)>,
    /// Homebrew formula names.
    pub brew: Vec<(String, String)>,
}

/// No foreign name has two entries in an embedded table.
proof fn lemma_builtin_keys_distinct()
    ensures
        distinct_keys(builtin_debian()),
        distinct_keys(builtin_fedora()),
        distinct_keys(builtin_alpine()),
        distinct_keys(builtin_zypper()),
        distinct_keys(builtin_brew()),
{
    reveal_strlit("@development-tools");
    reveal_strlit("Mesa-libGL-devel");
    reveal_strlit("build-base");
    reveal_strlit("build-essential");
    reveal_strlit("default-jdk");
    reveal_strlit("docker.io");
    reveal_strlit("fonts-firacode");
    reveal_strlit("fonts-noto");
    reveal_strlit("g++");
    reveal_strlit("gcc-c++");
    reveal_strlit("gnu-sed");
    reveal_strlit("gnu-tar");
    reveal_strlit("golang");
    reveal_strlit("gtk+3.0");
    reveal_strlit("gtk3-devel");
    reveal_strlit("gtk4-devel");
    reveal_strlit("gtk4.0");
    reveal_strlit("java-17-openjdk");
    reveal_strlit("libgl1-mesa-dev");
    reveal_strlit("libgtk-3-dev");
    reveal_strlit("libgtk-4-dev");
    reveal_strlit("libopenssl-devel");
    reveal_strlit("libssl-dev");
    reveal_strlit("mesa-dev");
    reveal_strlit("mesa-libGL-devel");
    reveal_strlit("moby-engine");
    reveal_strlit("node");
    reveal_strlit("openjdk");
    reveal_strlit("openjdk-17-jdk");
    reveal_strlit("openjdk17");
    reveal_strlit("openssl-dev");
    reveal_strlit("patterns-devel-base-devel_basis");
    reveal_strlit("python-is-python3");
    assert(distinct_keys(builtin_debian())) by {
        let t = builtin_debian();
        assert forall|i: int, j: int| 0 <= i < j < t.len() implies #[trigger] t[i].0 != #[trigger] t[j].0 by {
            assert(t[0].0 == "build-essential"@);
            assert(t[1].0 == "libssl-dev"@);
            assert(t[2].0 == "docker.io"@);
            assert(t[3].0 == "libgtk-3-dev"@);
            assert(t[4].0 == "libgtk-4-dev"@);
            assert(t[5].0 == "libgl1-mesa-dev"@);
            assert(t[6].0 == "python-is-python3"@);
            assert(t[7].0 == "fonts-noto"@);
            assert(t[8].0 == "fonts-firacode"@);
            assert(t[9].0 == "openjdk-17-jdk"@);
            assert(t[10].0 == "default-jdk"@);
            assert(t[11].0 == "g++"@);
            assert(t[12].0 == "golang"@);
            assert("build-essential"@[0] != "libgl1-mesa-dev"@[0]);
            assert("libssl-dev"@[0] != "fonts-noto"@[0]);
            assert("libgtk-3-dev"@[7] != "libgtk-4-dev"@[7]);
            assert("fonts-firacode"@[0] != "openjdk-17-jdk"@[0]);
            assert(i == 0 || i == 1 || i == 2 || i == 3 || i == 4 || i == 5 || i == 6 || i == 7 || i == 8 || i == 9 || i == 10 || i == 11 || i == 12);
            assert(j == 0 || j == 1 || j == 2 || j == 3 || j == 4 || j == 5 || j == 6 || j == 7 || j == 8 || j == 9 || j == 10 || j == 11 || j == 12);
        }
    }
    assert(distinct_keys(builtin_fedora())) by {
        let t = builtin_fedora();
        assert forall|i: int, j: int| 0 <= i < j < t.len() implies #[trigger] t[i].0 != #[trigger] t[j].0 by {
            assert(t[0].0 == "gcc-c++"@);
            assert(t[1].0 == "@development-tools"@);
            assert(t[2].0 == "moby-engine"@);
            assert(t[3].0 == "gtk3-devel"@);
            assert(t[4].0 == "gtk4-devel"@);
            assert(t[5].0 == "mesa-libGL-devel"@);
            assert(t[6].0 == "golang"@);
            assert(t[7].0 == "java-17-openjdk"@);
            assert("gtk3-devel"@[3] != "gtk4-devel"@[3]);
            assert(i == 0 || i == 1 || i == 2 || i == 3 || i == 4 || i == 5 || i == 6 || i == 7);
            assert(j == 0 || j == 1 || j == 2 || j == 3 || j == 4 || j == 5 || j == 6 || j == 7);
        }
    }
    assert(distinct_keys(builtin_alpine())) by {
        let t = builtin_alpine();
        assert forall|i: int, j: int| 0 <= i < j < t.len() implies #[trigger] t[i].0 != #[trigger] t[j].0 by {
            assert(t[0].0 == "build-base"@);
            assert(t[1].0 == "openssl-dev"@);
            assert(t[2].0 == "gtk+3.0"@);
            assert(t[3].0 == "gtk4.0"@);
            assert(t[4].0 == "mesa-dev"@);
            assert(t[5].0 == "openjdk17"@);
            assert(i == 0 || i == 1 || i == 2 || i == 3 || i == 4 || i == 5);
            assert(j == 0 || j == 1 || j == 2 || j == 3 || j == 4 || j == 5);
        }
    }
    assert(distinct_keys(builtin_zypper())) by {
        let t = builtin_zypper();
        assert forall|i: int, j: int| 0 <= i < j < t.len() implies #[trigger] t[i].0 != #[trigger] t[j].0 by {
            assert(t[0].0 == "libopenssl-devel"@);
            assert(t[1].0 == "patterns-devel-base-devel_basis"@);
            assert(t[2].0 == "gtk3-devel"@);
            assert(t[3].0 == "gtk4-devel"@);
            assert(t[4].0 == "Mesa-libGL-devel"@);
            assert(t[5].0 == "java-17-openjdk"@);
            assert("libopenssl-devel"@[0] != "Mesa-libGL-devel"@[0]);
            assert("gtk3-devel"@[3] != "gtk4-devel"@[3]);
            assert(i == 0 || i == 1 || i == 2 || i == 3 || i == 4 || i == 5);
            assert(j == 0 || j == 1 || j == 2 || j == 3 || j == 4 || j == 5);
        }
    }
    assert(distinct_keys(builtin_brew())) by {
        let t = builtin_brew();
        assert forall|i: int, j: int| 0 <= i < j < t.len() implies #[trigger] t[i].0 != #[trigger] t[j].0 by {
            assert(t[0].0 == "node"@);
            assert(t[1].0 == "openjdk"@);
            assert(t[2].0 == "gnu-sed"@);
            assert(t[3].0 == "gnu-tar"@);
            assert("openjdk"@[0] != "gnu-sed"@[0]);
            assert("openjdk"@[0] != "gnu-tar"@[0]);
            assert("gnu-sed"@[4] != "gnu-tar"@[4]);
            assert(i == 0 || i == 1 || i == 2 || i == 3);
            assert(j == 0 || j == 1 || j == 2 || j == 3);
        }
    }
}

/// The embedded Debian table.
pub open spec fn builtin_debian() -> Seq<(Seq<char>, Seq<char>)> {
    seq![
        ("build-essential"@, "base-devel"@),
        ("libssl-dev"@, "openssl"@),
        ("docker.io"@, "docker"@),
        ("libgtk-3-dev"@, "gtk3"@),
        ("libgtk-4-dev"@, "gtk4"@),
        ("libgl1-mesa-dev"@, "mesa"@),
        ("python-is-python3"@, "python"@),
        ("fonts-noto"@, "noto-fonts"@),
        ("fonts-firacode"@, "ttf-fira-code"@),
        ("openjdk-17-jdk"@, "jdk17-openjdk"@),
        ("default-jdk"@, "jdk-openjdk"@),
        ("g++"@, "gcc"@),
        ("golang"@, "go"@),
    ]
}

/// The embedded Fedora table.
pub open spec fn builtin_fedora() -> Seq<(Seq<char>, Seq<char>)> {
    seq![
        ("gcc-c++"@, "gcc"@),
        ("@development-tools"@, "base-devel"@),
        ("moby-engine"@, "docker"@),
        ("gtk3-devel"@, "gtk3"@),
        ("gtk4-devel"@, "gtk4"@),
        ("mesa-libGL-devel"@, "mesa"@),
        ("golang"@, "go"@),
        ("java-17-openjdk"@, "jdk17-openjdk"@),
    ]
}

/// The embedded Alpine table.
pub open spec fn builtin_alpine() -> Seq<(Seq<char>, Seq<char>)> {
    seq![
        ("build-base"@, "base-devel"@),
        ("openssl-dev"@, "openssl"@),
        ("gtk+3.0"@, "gtk3"@),
        ("gtk4.0"@, "gtk4"@),
        ("mesa-dev"@, "mesa"@),
        ("openjdk17"@, "jdk17-openjdk"@),
    ]
}

/// The embedded openSUSE table.
pub open spec fn builtin_zypper() -> Seq<(Seq<char>, Seq<char>)> {
    seq![
        ("libopenssl-devel"@, "openssl"@),
        ("patterns-devel-base-devel_basis"@, "base-devel"@),
        ("gtk3-devel"@, "gtk3"@),
        ("gtk4-devel"@, "gtk4"@),
        ("Mesa-libGL-devel"@, "mesa"@),
        ("java-17-openjdk"@, "jdk17-openjdk"@),
    ]
}

/// The embedded Homebrew table.
pub open spec fn builtin_brew() -> Seq<(Seq<char>, Seq<char>)> {
    seq![
        ("node"@, "nodejs"@),
        ("openjdk"@, "jdk-openjdk"@),
        ("gnu-sed"@, "sed"@),
        ("gnu-tar"@, "tar"@),
    ]
}

/// The Arch name of a Debian package: the table entry, else
/// `lib<x>-dev` to `x`, `<x>-dev` to `x`, `python3-<x>` to `python-<x>`,
/// `fonts-<x>` to `ttf-<x>`, else the name itself.
pub open spec fn debian_name(table: Seq<(Seq<char>, Seq<char>)>, name: Seq<char>) -> Seq<char> {
    let lib = "lib"@;
    let dev = "-dev"@;
    let py = "python3-"@;
    let fonts = "fonts-"@;
    match lookup(table, name) {
        Some(t) => t,
        None => {
            let rest = name.subrange(lib.len() as int, name.len() as int);
            if has_prefix(name, lib) && has_suffix(rest, dev) {
                rest.subrange(0, rest.len() - dev.len())
            } else if has_suffix(name, dev) {
                name.subrange(0, name.len() - dev.len())
            } else if has_prefix(name, py) {
                "python-"@ + name.subrange(py.len() as int, name.len() as int)
            } else if has_prefix(name, fonts) {
                "ttf-"@ + name.subrange(fonts.len() as int, name.len() as int)
            } else {
                name
            }
        },
    }
}

/// The Arch name of a Fedora package: the table entry, else `<x>-devel` to
/// `x`, `python3-<x>` to `python-<x>`, else the name itself.
pub open spec fn fedora_name(table: Seq<(Seq<char>, Seq<char>)>, name: Seq<char>) -> Seq<char> {
    let devel = "-devel"@;
    let py = "python3-"@;
    match lookup(table, name) {
        Some(t) => t,
        None => if has_suffix(name, devel) {
            name.subrange(0, name.len() - devel.len())
        } else if has_prefix(name, py) {
            "python-"@ + name.subrange(py.len() as int, name.len() as int)
        } else {
            name
        },
    }
}

/// The Arch name of an Alpine package: the table entry, else `py3-<x>` to
/// `python-<x>`, `<x>-dev` to `x`, else the name itself.
pub open spec fn alpine_name(table: Seq<(Seq<char>, Seq<char>)>, name: Seq<char>) -> Seq<char> {
    let py = "py3-"@;
    let dev = "-dev"@;
    match lookup(table, name) {
        Some(t) => t,
        None => if has_prefix(name, py) {
            "python-"@ + name.subrange(py.len() as int, name.len() as int)
        } else if has_suffix(name, dev) {
            name.subrange(0, name.len() - dev.len())
        } else {
            name
        },
    }
}

/// The Arch name of an openSUSE package: the table entry, else
/// `<x>-devel` to `x`, else the name itself.
pub open spec fn zypper_name(table: Seq<(Seq<char>, Seq<char>)>, name: Seq<char>) -> Seq<char> {
    let devel = "-devel"@;
    match lookup(table, name) {
        Some(t) => t,
        None => if has_suffix(name, devel) {
            name.subrange(0, name.len() - devel.len())
        } else {
            name
        },
    }
}

/// The Arch name of a Homebrew formula: the table entry, else for
/// `<base>@<version>` the entry of `base` or `base` itself, else the name.
pub open spec fn brew_name(table: Seq<(Seq<char>, Seq<char>)>, name: Seq<char>) -> Seq<char> {
    match lookup(table, name) {
        Some(t) => t,
        None => match split_once(name, '@') {
            Some((base, _)) => match lookup(table, base) {
                Some(t) => t,
                None => base,
            },
            None => name,
        },
    }
}

impl PkgMappings {
    /// The tables as texts.
    pub open spec fn debian_table(&self) -> Seq<(Seq<char>, Seq<char>)> {
        pairs_view(self.debian@)
    }

    /// The tables as texts.
    pub open spec fn fedora_table(&self) -> Seq<(Seq<char>, Seq<char>)> {
        pairs_view(self.fedora@)
    }

    /// The tables as texts.
    pub open spec fn alpine_table(&self) -> Seq<(Seq<char>, Seq<char>)> {
        pairs_view(self.alpine@)
    }

    /// The tables as texts.
    pub open spec fn zypper_table(&self) -> Seq<(Seq<char>, Seq<char>)> {
        pairs_view(self.zypper@)
    }

    /// The tables as texts.
    pub open spec fn brew_table(&self) -> Seq<(Seq<char>, Seq<char>)> {
        pairs_view(self.brew@)
    }

    /// No foreign name has two entries in any of the tables.
    pub open spec fn keys_unique(&self) -> bool {
        &&& distinct_keys(self.debian_table())
        &&& distinct_keys(self.fedora_table())
        &&& distinct_keys(self.alpine_table())
        &&& distinct_keys(self.zypper_table())
        &&& distinct_keys(self.brew_table())
    }

    /// These are the embedded tables.
    pub open spec fn is_builtin(&self) -> bool {
        &&& self.debian_table() == builtin_debian()
        &&& self.fedora_table() == builtin_fedora()
        &&& self.alpine_table() == builtin_alpine()
        &&& self.zypper_table() == builtin_zypper()
        &&& self.brew_table() == builtin_brew()
    }

    /// The embedded name tables. Their entries are a selection of well-known
    /// packages made for this library; names not in them go through the
    /// naming heuristics.
    pub fn global() -> (r: PkgMappings)
        ensures
            r.is_builtin(),
            r.keys_unique(),
    {
        let mut debian: Vec<(String, String)> = Vec::new();
        debian.push(text_pair("build-essential", "base-devel"));
        debian.push(text_pair("libssl-dev", "openssl"));
        debian.push(text_pair("docker.io", "docker"));
        debian.push(text_pair("libgtk-3-dev", "gtk3"));
        debian.push(text_pair("libgtk-4-dev", "gtk4"));
        debian.push(text_pair("libgl1-mesa-dev", "mesa"));
        debian.push(text_pair("python-is-python3", "python"));
        debian.push(text_pair("fonts-noto", "noto-fonts"));
        debian.push(text_pair("fonts-firacode", "ttf-fira-code"));
        debian.push(text_pair("openjdk-17-jdk", "jdk17-openjdk"));
        debian.push(text_pair("default-jdk", "jdk-openjdk"));
        debian.push(text_pair("g++", "gcc"));
        debian.push(text_pair("golang", "go"));
        assert(pairs_view(debian@) =~= builtin_debian());

        let mut fedora: Vec<(String, String)> = Vec::new();
        fedora.push(text_pair("gcc-c++", "gcc"));
        fedora.push(text_pair("@development-tools", "base-devel"));
        fedora.push(text_pair("moby-engine", "docker"));
        fedora.push(text_pair("gtk3-devel", "gtk3"));
        fedora.push(text_pair("gtk4-devel", "gtk4"));
        fedora.push(text_pair("mesa-libGL-devel", "mesa"));
        fedora.push(text_pair("golang", "go"));
        fedora.push(text_pair("java-17-openjdk", "jdk17-openjdk"));
        assert(pairs_view(fedora@) =~= builtin_fedora());

        let mut alpine: Vec<(String, String)> = Vec::new();
        alpine.push(text_pair("build-base", "base-devel"));
        alpine.push(text_pair("openssl-dev", "openssl"));
        alpine.push(text_pair("gtk+3.0", "gtk3"));
        alpine.push(text_pair("gtk4.0", "gtk4"));
        alpine.push(text_pair("mesa-dev", "mesa"));
        alpine.push(text_pair("openjdk17", "jdk17-openjdk"));
        assert(pairs_view(alpine@) =~= builtin_alpine());

        let mut zypper: Vec<(String, String)> = Vec::new();
        zypper.push(text_pair("libopenssl-devel", "openssl"));
        zypper.push(text_pair("patterns-devel-base-devel_basis", "base-devel"));
        zypper.push(text_pair("gtk3-devel", "gtk3"));
        zypper.push(text_pair("gtk4-devel", "gtk4"));
        zypper.push(text_pair("Mesa-libGL-devel", "mesa"));
        zypper.push(text_pair("java-17-openjdk", "jdk17-openjdk"));
        assert(pairs_view(zypper@) =~= builtin_zypper());

        let mut brew: Vec<(String, String)> = Vec::new();
        brew.push(text_pair("node", "nodejs"));
        brew.push(text_pair("openjdk", "jdk-openjdk"));
        brew.push(text_pair("gnu-sed", "sed"));
        brew.push(text_pair("gnu-tar", "tar"));
        assert(pairs_view(brew@) =~= builtin_brew());

        proof {
            lemma_builtin_keys_distinct();
        }
        PkgMappings { debian, fedora, alpine, zypper, brew }
    }

    /// The Arch name of a Debian package.
    pub fn translate_debian_pkg(&self, name: &str) -> (r: String)
        ensures
            r@ == debian_name(self.debian_table(), name@),
    {
        if let Some(target) = lookup_text(self.debian.as_slice(), name) {
            return target;
        }
        if let Some(rest) = strip_prefix(name, "lib") {
            if let Some(inner) = strip_suffix(rest.as_str(), "-dev") {
                return inner;
            }
        }
        if let Some(inner) = strip_suffix(name, "-dev") {
            return inner;
        }
        if let Some(stripped) = strip_prefix(name, "python3-") {
            return cat("python-", stripped.as_str());
        }
        if let Some(stripped) = strip_prefix(name, "fonts-") {
            return cat("ttf-", stripped.as_str());
        }
        text(name)
    }

    /// The Arch name of a Fedora package.
    pub fn translate_fedora_pkg(&self, name: &str) -> (r: String)
        ensures
            r@ == fedora_name(self.fedora_table(), name@),
    {
        if let Some(target) = lookup_text(self.fedora.as_slice(), name) {
            return target;
        }
        if let Some(inner) = strip_suffix(name, "-devel") {
            return inner;
        }
        if let Some(stripped) = strip_prefix(name, "python3-") {
            return cat("python-", stripped.as_str());
        }
        text(name)
    }

    /// The Arch name of an Alpine package.
    pub fn translate_alpine_pkg(&self, name: &str) -> (r: String)
        ensures
            r@ == alpine_name(self.alpine_table(), name@),
    {
        if let Some(target) = lookup_text(self.alpine.as_slice(), name) {
            return target;
        }
        if let Some(stripped) = strip_prefix(name, "py3-") {
            return cat("python-", stripped.as_str());
        }
        if let Some(inner) = strip_suffix(name, "-dev") {
            return inner;
        }
        text(name)
    }

    /// The Arch name of an openSUSE package.
    pub fn translate_zypper_pkg(&self, name: &str) -> (r: String)
        ensures
            r@ == zypper_name(self.zypper_table(), name@),
    {
        if let Some(target) = lookup_text(self.zypper.as_slice(), name) {
            return target;
        }
        if let Some(inner) = strip_suffix(name, "-devel") {
            return inner;
        }
        text(name)
    }

    /// The Arch name of a Homebrew formula.
    pub fn translate_brew_pkg(&self, name: &str) -> (r: String)
        ensures
            r@ == brew_name(self.brew_table(), name@),
    {
        if let Some(target) = lookup_text(self.brew.as_slice(), name) {
            return target;
        }
        if let Some((base, _)) = split_once_char(name, '@') {
            if let Some(target) = lookup_text(self.brew.as_slice(), base.as_str()) {
                return target;
            }
            return base;
        }
        text(name)
    }
}

} // verus!
