//! The command line text of each action, as the window manager reads it.
use crate::model::Action;
use vstd::prelude::*;
use vstd::string::StringExecFns;

verus! {

/// Prefix of the command that focuses a workspace by name; it never toggles
/// back to the previously focused workspace.
pub open spec fn focus_prefix() -> Seq<char> {
    "workspace --no-auto-back-and-forth "@
}

/// Prefix of the command that moves the focused workspace to an output.
pub open spec fn move_prefix() -> Seq<char> {
    "move workspace to output "@
}

impl Action {
    /// The command text that performs this action.
    pub fn command_text(&self) -> (r: String)
        ensures
            r@ == match self {
                Action::Focus(n) => focus_prefix() + n@,
                Action::MoveFocusedTo(o) => move_prefix() + o@,
            },
    {
        match self {
            Action::Focus(n) => String::from_str("workspace --no-auto-back-and-forth ").concat(
                n.as_str(),
            ),
            Action::MoveFocusedTo(o) => String::from_str("move workspace to output ").concat(
                o.as_str(),
            ),
        }
    }
}

} // verus!
