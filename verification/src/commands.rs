//! The exact command lines the menu drives the package manager with: the
//! list query, the mutating install / remove / update commands (run with
//! elevated privileges and auto-confirm), and the terminal-clear command.

use vstd::prelude::*;

verus! {

/// Which set of packages a list query asks for.
#[derive(Clone, Copy, Debug, PartialEq, Eq, Structural)]
pub enum ListMode {
    Installed,
    Available,
}

/// The flag that selects the package set of a list query.
pub open spec fn spec_list_mode_flag(mode: ListMode) -> Seq<char> {
    match mode {
        ListMode::Installed => "--installed"@,
        ListMode::Available => "--available"@,
    }
}

/// The package-manager program that list queries are handed to.
pub fn package_manager_program() -> (r: String)
    ensures
        r@ == "dnf"@,
{
    "dnf".to_owned()
}

/// The program that runs a mutating command with elevated privileges.
pub fn privilege_program() -> (r: String)
    ensures
        r@ == "sudo"@,
{
    "sudo".to_owned()
}

/// The program that clears the terminal before each menu iteration.
pub fn clear_screen_program() -> (r: String)
    ensures
        r@ == "clear"@,
{
    "clear".to_owned()
}

/// The arguments of a list query, handed to the package manager: the
/// `list` subcommand and the flag for the requested package set.
pub fn list_query_args(mode: ListMode) -> (r: Vec<String>)
    ensures
        r.deep_view() == seq!["list"@, spec_list_mode_flag(mode)],
{
    let mut r: Vec<String> = Vec::new();
    r.push("list".to_owned());
    match mode {
        ListMode::Installed => r.push("--installed".to_owned()),
        ListMode::Available => r.push("--available".to_owned()),
    }
    proof {
        assert(r.deep_view() =~~= seq!["list"@, spec_list_mode_flag(mode)]);
    }
    r
}

/// The arguments of the install command, handed to the privilege program:
/// the package manager, its `install` subcommand, the chosen package, and
/// the auto-confirm flag.
pub fn install_command_args(package: &str) -> (r: Vec<String>)
    ensures
        r.deep_view() == seq!["dnf"@, "install"@, package@, "-y"@],
{
    let mut r: Vec<String> = Vec::new();
    r.push("dnf".to_owned());
    r.push("install".to_owned());
    r.push(package.to_owned());
    r.push("-y".to_owned());
    proof {
        assert(r.deep_view() =~~= seq!["dnf"@, "install"@, package@, "-y"@]);
    }
    r
}

/// The arguments of the removal command, handed to the privilege program:
/// the package manager, its `remove` subcommand, the chosen package, and
/// the auto-confirm flag.
pub fn remove_command_args(package: &str) -> (r: Vec<String>)
    ensures
        r.deep_view() == seq!["dnf"@, "remove"@, package@, "-y"@],
{
    let mut r: Vec<String> = Vec::new();
    r.push("dnf".to_owned());
    r.push("remove".to_owned());
    r.push(package.to_owned());
    r.push("-y".to_owned());
    proof {
        assert(r.deep_view() =~~= seq!["dnf"@, "remove"@, package@, "-y"@]);
    }
    r
}

/// The arguments of the full-update command, handed to the privilege
/// program: the package manager, its `update` subcommand, and the
/// auto-confirm flag. No package is named: the whole system is updated.
pub fn update_command_args() -> (r: Vec<String>)
    ensures
        r.deep_view() == seq!["dnf"@, "update"@, "-y"@],
{
    let mut r: Vec<String> = Vec::new();
    r.push("dnf".to_owned());
    r.push("update".to_owned());
    r.push("-y".to_owned());
    proof {
        assert(r.deep_view() =~~= seq!["dnf"@, "update"@, "-y"@]);
    }
    r
}

} // verus!
