# parch_helper

Translates commands of foreign package managers (`apt`, `dnf`, `apk`,
`zypper`, `brew`, `flatpak`, `snap`, `dpkg`, `rpm`) into Arch Linux
`pacman` / AUR-helper commands, explains them in English and Persian, and
runs them after safety checks.

Layout:

- `src/` — the library, verified with Verus:
  - `translator/` — one module per package manager, each with a spec
    function that states the whole translation, and `mapper` for package
    names;
  - `context.rs` — reading the invocation (program name, options);
  - `config.rs` — configuration precedence and command-line overrides;
  - `safety.rs` — the command blocker and the pacman lock classification;
  - `executor.rs` — what to run, as whom, or why not;
  - `ui/` — themes, the box around a translation, layout, and the
    decisions of the interactive prompt;
  - `laws.rs` — properties that relate several functions or hold of every
    input;
  - `strs.rs` — text operations with their specifications.
- `app/` — the program: files, processes, terminal and system calls.
- `tests/` — tests of the library on concrete values.
