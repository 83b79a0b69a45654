//! The fixed console text of the menu: the main-menu labels, the prompt
//! lines of each interactive selection, and the reports printed after an
//! action.

use vstd::prelude::*;

verus! {

/// The five labels of the main menu, in presentation order; the label at
/// each index names the `MenuOption` that `menu_option_of_index` maps that
/// index to.
pub fn main_menu_labels() -> (r: Vec<String>)
    ensures
        r.deep_view() == seq![
            "Install Package"@,
            "List Packages Installed"@,
            "Remove Package"@,
            "Update Packages"@,
            "Exit"@,
        ],
{
    let mut r: Vec<String> = Vec::new();
    r.push("Install Package".to_owned());
    r.push("List Packages Installed".to_owned());
    r.push("Remove Package".to_owned());
    r.push("Update Packages".to_owned());
    r.push("Exit".to_owned());
    proof {
        assert(r.deep_view() =~~= seq![
            "Install Package"@,
            "List Packages Installed"@,
            "Remove Package"@,
            "Update Packages"@,
            "Exit"@,
        ]);
    }
    r
}

/// The label of the sentinel entry appended after the real packages, so
/// the user can leave the list without acting on it.
pub fn exit_sentinel_label() -> (r: String)
    ensures
        r@ == "Exit"@,
{
    "Exit".to_owned()
}

/// The prompt line of the main menu.
pub fn main_menu_prompt() -> (r: String)
    ensures
        r@ == "Select one of the options:"@,
{
    "Select one of the options:".to_owned()
}

/// The prompt line of the install selection.
pub fn install_prompt() -> (r: String)
    ensures
        r@ == "Select package to install (Select Exit to go back):"@,
{
    "Select package to install (Select Exit to go back):".to_owned()
}

/// The prompt line of the removal selection; it warns that removing a
/// package other packages depend on may break the system.
pub fn remove_prompt() -> (r: String)
    ensures
        r@
            == "Select package to remove (WARNING: It may break your system if it's a dependency.) (Select Exit to go back):"@,
{
    "Select package to remove (WARNING: It may break your system if it's a dependency.) (Select Exit to go back):".to_owned()
}

/// The prompt line of the browse-installed-packages list, where any
/// selection just returns to the menu.
pub fn browse_prompt() -> (r: String)
    ensures
        r@ == "Select any package to go back to the menu: "@,
{
    "Select any package to go back to the menu: ".to_owned()
}

/// The report printed after an install attempt: the package's name on
/// success, a generic error line otherwise.
pub fn install_report(succeeded: bool, package: &str) -> (r: String)
    ensures
        succeeded ==> r@ == "Successfully installed package: "@ + package@,
        !succeeded ==> r@ == "Error installing the package."@,
{
    if succeeded {
        let mut msg: String = "Successfully installed package: ".to_owned();
        msg.append(package);
        msg
    } else {
        "Error installing the package.".to_owned()
    }
}

/// The report printed after a removal attempt: the package's name on
/// success, a generic error line otherwise.
pub fn remove_report(succeeded: bool, package: &str) -> (r: String)
    ensures
        succeeded ==> r@ == "Successfully removed package: "@ + package@,
        !succeeded ==> r@ == "Error removing the package."@,
{
    if succeeded {
        let mut msg: String = "Successfully removed package: ".to_owned();
        msg.append(package);
        msg
    } else {
        "Error removing the package.".to_owned()
    }
}

/// The report printed when the full update fails to run.
pub fn update_error_message() -> (r: String)
    ensures
        r@ == "Error with the update."@,
{
    "Error with the update.".to_owned()
}

/// The report printed when a list query cannot be run or its output
/// cannot be decoded as text.
pub fn query_failure_message() -> (r: String)
    ensures
        r@ == "Error listing the packages."@,
{
    "Error listing the packages.".to_owned()
}

/// The message printed when the top-level prompt itself fails: the one
/// fatal condition, after which the process ends with an error result.
pub fn fatal_prompt_error_message() -> (r: String)
    ensures
        r@ == "Error not expected, closing program."@,
{
    "Error not expected, closing program.".to_owned()
}

} // verus!
