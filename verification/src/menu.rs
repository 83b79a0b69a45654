//! The menu model: the closed set of main-menu options, the outcome of an
//! interactive prompt, and the decisions the menu loop and the action
//! handlers make from them.

use vstd::prelude::*;

verus! {

/// The five entries of the main menu, a closed set fixed at process start.
#[derive(Clone, Copy, Debug, PartialEq, Eq, Structural)]
pub enum MenuOption {
    Install,
    ListInstalled,
    Remove,
    Update,
    Exit,
}

/// What an interactive prompt came back with: the index the user chose,
/// or a cancellation (interrupt, abort).
#[derive(Clone, Copy, Debug, PartialEq, Eq, Structural)]
pub enum SelectionResult {
    Chosen(usize),
    Cancelled,
}

/// What the menu loop does next after the top-level prompt returns.
#[derive(Clone, Copy, Debug, PartialEq, Eq, Structural)]
pub enum MenuDirective {
    /// Dispatch to the handler of this option, then show the menu again.
    Run(MenuOption),
    /// Leave the loop normally, with a success result.
    ExitSuccess,
    /// The top-level prompt failed: terminate with an error result.
    ExitError,
}

/// The menu option presented at a given index of the main menu.
pub open spec fn spec_menu_option_of_index(i: usize) -> Option<MenuOption> {
    if i == 0 {
        Some(MenuOption::Install)
    } else if i == 1 {
        Some(MenuOption::ListInstalled)
    } else if i == 2 {
        Some(MenuOption::Remove)
    } else if i == 3 {
        Some(MenuOption::Update)
    } else if i == 4 {
        Some(MenuOption::Exit)
    } else {
        None
    }
}

/// Maps a main-menu index to its option; indices past the menu get `None`.
pub fn menu_option_of_index(i: usize) -> (r: Option<MenuOption>)
    ensures
        r == spec_menu_option_of_index(i),
{
    if i == 0 {
        Some(MenuOption::Install)
    } else if i == 1 {
        Some(MenuOption::ListInstalled)
    } else if i == 2 {
        Some(MenuOption::Remove)
    } else if i == 3 {
        Some(MenuOption::Update)
    } else if i == 4 {
        Some(MenuOption::Exit)
    } else {
        None
    }
}

/// The step the menu loop takes from the outcome of its own prompt.
///
/// Choosing `Exit` (or an index past the menu, which the prompt never
/// produces) ends the loop normally; a cancellation of the top-level prompt
/// is the one fatal condition of the whole program.
pub fn main_menu_step(sel: SelectionResult) -> (r: MenuDirective)
    ensures
        forall|i: usize, opt: MenuOption|
            sel == SelectionResult::Chosen(i) && spec_menu_option_of_index(i) == Some(opt)
                && opt != MenuOption::Exit ==> r == MenuDirective::Run(opt),
        forall|i: usize|
            sel == SelectionResult::Chosen(i) && (spec_menu_option_of_index(i) == Some(
                MenuOption::Exit,
            ) || spec_menu_option_of_index(i) is None) ==> r == MenuDirective::ExitSuccess,
        sel == SelectionResult::Cancelled ==> r == MenuDirective::ExitError,
{
    match sel {
        SelectionResult::Chosen(i) => match menu_option_of_index(i) {
            Some(MenuOption::Exit) => MenuDirective::ExitSuccess,
            Some(opt) => MenuDirective::Run(opt),
            None => MenuDirective::ExitSuccess,
        },
        SelectionResult::Cancelled => MenuDirective::ExitError,
    }
}

/// The decision an install/remove handler takes once its prompt returns:
/// `Some(i)` exactly when the user chose a real package, `None` when the
/// appended sentinel (index `n`, past the `n` real packages) was chosen or
/// the prompt was cancelled — in which case no command is run.
pub fn decide_package_selection(n: usize, sel: SelectionResult) -> (r: Option<usize>)
    ensures
        forall|i: usize| sel == SelectionResult::Chosen(i) && i < n ==> r == Some(i),
        forall|i: usize| sel == SelectionResult::Chosen(i) && i >= n ==> r is None,
        sel == SelectionResult::Cancelled ==> r is None,
        r matches Some(i) ==> sel == SelectionResult::Chosen(i) && i < n,
{
    match sel {
        SelectionResult::Chosen(i) => if i < n {
            Some(i)
        } else {
            None
        },
        SelectionResult::Cancelled => None,
    }
}

/// The items handed to a package-selection prompt: the packages in their
/// original order, with the sentinel label appended after all of them.
pub fn prompt_items_with_sentinel(packages: &Vec<String>, sentinel: String) -> (r: Vec<String>)
    ensures
        r@.len() == packages@.len() + 1,
        forall|i: int| 0 <= i < packages@.len() ==> r@[i] == packages@[i],
        r@[packages@.len() as int] == sentinel,
{
    let mut r: Vec<String> = Vec::new();
    let mut i: usize = 0;
    while i < packages.len()
        invariant
            i <= packages@.len(),
            r@.len() == i,
            forall|t: int| 0 <= t < i ==> r@[t] == packages@[t],
        decreases packages@.len() - i,
    {
        r.push(packages[i].clone());
        i = i + 1;
    }
    r.push(sentinel);
    r
}

/// Order preservation: the selection prompt is handed the caller's labels
/// in their original order (a sentinel may follow them), so a returned
/// index that is valid for the caller's sequence names exactly the label
/// the caller put at that index.
pub proof fn lemma_selection_order_preserved(
    labels: Seq<Seq<char>>,
    items: Seq<Seq<char>>,
    i: int,
)
    requires
        items.len() >= labels.len(),
        forall|t: int| 0 <= t < labels.len() ==> items[t] == labels[t],
        0 <= i < labels.len(),
    ensures
        items[i] == labels[i],
{
}

} // verus!
