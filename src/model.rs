//! Snapshot records returned by the window manager, and the actions the
//! reconciler emits.
use vstd::prelude::*;

verus! {

/// Geometry of an output or workspace; carried through, never inspected.
#[derive(Clone, Copy, Debug, PartialEq, Eq)]
pub struct Rect {
    pub x: i32,
    pub y: i32,
    pub width: i32,
    pub height: i32,
}

/// A display surface.
#[derive(Clone, Debug, PartialEq, Eq)]
pub struct Output {
    pub name: String,
    pub active: bool,
    pub primary: bool,
    pub rect: Rect,
    /// Name of the workspace rendered on this output, if any.
    pub current_workspace: Option<String>,
}

/// A named logical desktop.
#[derive(Clone, Debug, PartialEq, Eq)]
pub struct Workspace {
    pub num: u32,
    pub name: String,
    /// Rendered on its output right now.
    pub visible: bool,
    /// Receives input focus.
    pub focused: bool,
    pub rect: Rect,
    /// Name of the output this workspace belongs to.
    pub output: String,
    pub urgent: bool,
}

/// A command for the window manager.
#[derive(Clone, Debug, PartialEq, Eq)]
pub enum Action {
    /// Focus the workspace with this name, creating it if needed.
    Focus(String),
    /// Move the focused workspace to the output with this name.
    MoveFocusedTo(String),
}

/// The mathematical value of an [`Action`].
pub enum ActionModel {
    Focus(Seq<char>),
    MoveFocusedTo(Seq<char>),
}

impl View for Action {
    type V = ActionModel;

    open spec fn view(&self) -> ActionModel {
        match self {
            Action::Focus(n) => ActionModel::Focus(n@),
            Action::MoveFocusedTo(o) => ActionModel::MoveFocusedTo(o@),
        }
    }
}

/// Why no action sequence could be chosen.
#[derive(Clone, Copy, Debug, PartialEq, Eq)]
pub enum ReconcileError {
    /// The snapshot does not have exactly one focused workspace.
    PreconditionViolation,
    /// The target is visible on another output, yet no output shows it.
    LookupFailure,
}

/// The models of a sequence of actions.
pub open spec fn actions_model(acts: Seq<Action>) -> Seq<ActionModel> {
    acts.map_values(|a: Action| a@)
}

} // verus!
