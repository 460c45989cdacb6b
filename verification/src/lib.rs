//! Translation of foreign package-manager commands (apt, dnf, apk, zypper,
//! brew, flatpak, snap, dpkg, rpm) into Arch Linux `pacman` / AUR-helper
//! invocations, with the safety rules, option parsing and presentation logic
//! around them.
pub mod config;
pub mod context;
pub mod executor;
pub mod laws;
pub mod safety;
pub mod strs;
pub mod translator;
pub mod ui;
