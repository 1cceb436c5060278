//! The application menu.

use vstd::prelude::*;
use vstd::string::StringExecFns;

verus! {

/// What a click on a menu item asks for.
#[derive(Debug, Clone, Copy, PartialEq, Eq, Structural)]
pub enum MenuAction {
    /// End the process with status 0.
    Quit,
    /// Let the user pick a file to open.
    OpenFile,
    /// The item is none of ours.
    Ignore,
}

/// The action behind the menu item with identifier `id`.
pub open spec fn menu_action(id: Seq<char>) -> MenuAction {
    if id == "quit"@ {
        MenuAction::Quit
    } else if id == "open_file"@ {
        MenuAction::OpenFile
    } else {
        MenuAction::Ignore
    }
}

/// Decides what a click on the menu item with identifier `id` asks for.
pub fn menu_event_handler(id: &str) -> (action: MenuAction)
    ensures
        action == menu_action(id@),
{
    let id = String::from_str(id);
    if id == String::from_str("quit") {
        MenuAction::Quit
    } else if id == String::from_str("open_file") {
        MenuAction::OpenFile
    } else {
        MenuAction::Ignore
    }
}

} // verus!
