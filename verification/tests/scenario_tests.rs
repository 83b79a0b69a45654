//! Scenario walks through the pure decision chain an action handler makes,
//! with the interactive prompt's answer and the subprocess outcome supplied
//! as plain values.

use pkg_menu::commands::{install_command_args, list_query_args, ListMode};
use pkg_menu::menu::{
    decide_package_selection, main_menu_step, prompt_items_with_sentinel, MenuDirective,
    MenuOption, SelectionResult,
};
use pkg_menu::messages::{exit_sentinel_label, install_report, main_menu_labels};
use pkg_menu::parser::parse_package_list;

#[test]
fn installing_the_second_package_runs_install_on_it() {
    // The user picks "Install Package" at the main menu.
    assert_eq!(
        main_menu_step(SelectionResult::Chosen(0)),
        MenuDirective::Run(MenuOption::Install)
    );
    // The list query asks for the available set and its output parses to
    // ["foo", "bar"].
    assert_eq!(list_query_args(ListMode::Available)[1], "--available");
    let packages = parse_package_list("Available Packages\nfoo 1.0\nbar 2.0");
    assert_eq!(packages, vec!["foo".to_string(), "bar".to_string()]);
    // The prompt shows the packages and the sentinel, and the user picks
    // index 1, "bar".
    let items = prompt_items_with_sentinel(&packages, exit_sentinel_label());
    assert_eq!(items[1], "bar");
    let decision = decide_package_selection(packages.len(), SelectionResult::Chosen(1));
    assert_eq!(decision, Some(1));
    // The install command is invoked on "bar" with auto-confirm.
    let args = install_command_args(&packages[1]);
    assert_eq!(
        args,
        vec![
            "dnf".to_string(),
            "install".to_string(),
            "bar".to_string(),
            "-y".to_string(),
        ]
    );
    // On success the console names the package; on failure it shows the
    // generic install error.
    assert!(install_report(true, &packages[1]).contains("bar"));
    assert_eq!(install_report(false, &packages[1]), "Error installing the package.");
}

#[test]
fn choosing_the_sentinel_at_install_runs_nothing() {
    let packages = parse_package_list("Available Packages\nfoo 1.0\nbar 2.0");
    let n = packages.len();
    // The sentinel stands right after the real packages.
    let items = prompt_items_with_sentinel(&packages, exit_sentinel_label());
    assert_eq!(items[n], "Exit");
    // Choosing it decides against any command.
    assert_eq!(decide_package_selection(n, SelectionResult::Chosen(n)), None);
}

#[test]
fn cancelling_a_package_prompt_changes_nothing() {
    let packages = parse_package_list("Installed Packages\nfoo 1.0\nbar 2.0");
    assert_eq!(
        decide_package_selection(packages.len(), SelectionResult::Cancelled),
        None
    );
}

#[test]
fn choosing_exit_at_the_main_menu_ends_with_success() {
    let labels = main_menu_labels();
    let exit_index = labels.iter().position(|l| l == "Exit").unwrap();
    assert_eq!(exit_index, 4);
    // The loop ends normally: no handler is dispatched, no command is run.
    assert_eq!(
        main_menu_step(SelectionResult::Chosen(exit_index)),
        MenuDirective::ExitSuccess
    );
}
