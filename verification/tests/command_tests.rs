use pkg_menu::commands::{
    clear_screen_program, install_command_args, list_query_args, package_manager_program,
    privilege_program, remove_command_args, update_command_args, ListMode,
};
use pkg_menu::messages::{
    browse_prompt, fatal_prompt_error_message, install_prompt, install_report, main_menu_prompt,
    query_failure_message, remove_prompt, remove_report, update_error_message,
};

#[test]
fn list_query_names_the_requested_set() {
    assert_eq!(
        list_query_args(ListMode::Installed),
        vec!["list".to_string(), "--installed".to_string()]
    );
    assert_eq!(
        list_query_args(ListMode::Available),
        vec!["list".to_string(), "--available".to_string()]
    );
    assert_eq!(package_manager_program(), "dnf".to_string());
}

#[test]
fn install_command_carries_the_package_and_auto_confirm() {
    assert_eq!(
        install_command_args("bar"),
        vec![
            "dnf".to_string(),
            "install".to_string(),
            "bar".to_string(),
            "-y".to_string(),
        ]
    );
    assert_eq!(privilege_program(), "sudo".to_string());
}

#[test]
fn remove_command_carries_the_package_and_auto_confirm() {
    assert_eq!(
        remove_command_args("old-tool"),
        vec![
            "dnf".to_string(),
            "remove".to_string(),
            "old-tool".to_string(),
            "-y".to_string(),
        ]
    );
}

#[test]
fn update_command_updates_everything_with_auto_confirm() {
    assert_eq!(
        update_command_args(),
        vec!["dnf".to_string(), "update".to_string(), "-y".to_string()]
    );
}

#[test]
fn clear_command_is_the_terminal_clear() {
    assert_eq!(clear_screen_program(), "clear".to_string());
}

#[test]
fn install_report_names_the_package_on_success() {
    let ok = install_report(true, "bar");
    assert_eq!(ok, "Successfully installed package: bar");
    assert!(ok.contains("bar"));
    assert_eq!(install_report(false, "bar"), "Error installing the package.");
}

#[test]
fn remove_report_names_the_package_on_success() {
    let ok = remove_report(true, "bar");
    assert_eq!(ok, "Successfully removed package: bar");
    assert!(ok.contains("bar"));
    assert_eq!(remove_report(false, "bar"), "Error removing the package.");
}

#[test]
fn error_messages_are_the_fixed_generic_lines() {
    assert_eq!(update_error_message(), "Error with the update.");
    assert_eq!(query_failure_message(), "Error listing the packages.");
    assert_eq!(fatal_prompt_error_message(), "Error not expected, closing program.");
}

#[test]
fn prompts_carry_their_warnings() {
    assert_eq!(main_menu_prompt(), "Select one of the options:");
    assert!(install_prompt().contains("Select Exit to go back"));
    assert!(remove_prompt().contains("WARNING"));
    assert!(remove_prompt().contains("Select Exit to go back"));
    assert!(browse_prompt().contains("go back to the menu"));
}
