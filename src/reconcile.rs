//! The decision: which actions bring the target workspace onto the active
//! output.
use crate::model::{actions_model, Action, ActionModel, Output, ReconcileError, Workspace};
use vstd::prelude::*;

verus! {

/// Exactly one workspace of `ws` is focused.
pub open spec fn has_unique_focus(ws: Seq<Workspace>) -> bool {
    exists|i: int|
        0 <= i < ws.len() && #[trigger] ws[i].focused && forall|j: int|
            0 <= j < ws.len() && #[trigger] ws[j].focused ==> j == i
}

/// Position of a focused workspace of `ws` (the only one, under
/// `has_unique_focus`).
pub open spec fn focused_index(ws: Seq<Workspace>) -> int {
    choose|i: int| 0 <= i < ws.len() && #[trigger] ws[i].focused
}

/// Position of the first element of `s` that satisfies `p`, if there is one.
pub open spec fn first_where<A>(s: Seq<A>, p: spec_fn(A) -> bool) -> Option<int> {
    if exists|i: int| is_first_where(s, p, i) {
        Some(choose|i: int| is_first_where(s, p, i))
    } else {
        None
    }
}

/// `s[i]` satisfies `p` and no element before it does.
pub open spec fn is_first_where<A>(s: Seq<A>, p: spec_fn(A) -> bool, i: int) -> bool {
    0 <= i < s.len() && p(s[i]) && forall|j: int| 0 <= j < i ==> !p(#[trigger] s[j])
}

/// A workspace named `target` that lives on an output other than `active`.
pub open spec fn is_candidate(target: Seq<char>, active: Seq<char>) -> spec_fn(Workspace) -> bool {
    |w: Workspace| w.name@ == target && w.output@ != active
}

/// An output that currently renders the workspace named `name`.
pub open spec fn shows(name: Seq<char>) -> spec_fn(Output) -> bool {
    |o: Output|
        match o.current_workspace {
            Some(c) => c@ == name,
            None => false,
        }
}

/// Bring up a workspace that is absent or already belongs to the active output.
pub open spec fn switch_actions(target: Seq<char>) -> Seq<ActionModel> {
    seq![ActionModel::Focus(target)]
}

/// Pull a hidden workspace of another output onto the active output.
pub open spec fn move_actions(target: Seq<char>, active: Seq<char>) -> Seq<ActionModel> {
    seq![
        ActionModel::Focus(target),
        ActionModel::MoveFocusedTo(active),
        ActionModel::Focus(target),
    ]
}

/// Exchange the workspace of the active output with the target, which is
/// rendered on `other`.
pub open spec fn swap_actions(target: Seq<char>, other: Seq<char>, active: Seq<char>) -> Seq<
    ActionModel,
> {
    seq![
        ActionModel::MoveFocusedTo(other),
        ActionModel::Focus(target),
        ActionModel::MoveFocusedTo(active),
        ActionModel::Focus(target),
    ]
}

/// The actions that bring `target` onto the output of the focused workspace,
/// or why there are none.
pub open spec fn plan(outputs: Seq<Output>, ws: Seq<Workspace>, target: Seq<char>) -> Result<
    Seq<ActionModel>,
    ReconcileError,
> {
    if !has_unique_focus(ws) {
        Err(ReconcileError::PreconditionViolation)
    } else {
        let focused = ws[focused_index(ws)];
        let active = focused.output@;
        if focused.name@ == target {
            Ok(Seq::empty())
        } else {
            match first_where(ws, is_candidate(target, active)) {
                None => Ok(switch_actions(target)),
                Some(i) => if !ws[i].visible {
                    Ok(move_actions(target, active))
                } else {
                    match first_where(outputs, shows(target)) {
                        None => Err(ReconcileError::LookupFailure),
                        Some(k) => Ok(swap_actions(target, outputs[k].name@, active)),
                    }
                },
            }
        }
    }
}

/// The model of a result of [`reconcile`].
pub open spec fn result_model(r: Result<Vec<Action>, ReconcileError>) -> Result<
    Seq<ActionModel>,
    ReconcileError,
> {
    match r {
        Ok(acts) => Ok(actions_model(acts@)),
        Err(e) => Err(e),
    }
}

/// Position of the focused workspace, provided exactly one is focused.
pub fn find_focused(ws: &Vec<Workspace>) -> (r: Option<usize>)
    ensures
        r is Some <==> has_unique_focus(ws@),
        r matches Some(i) ==> i == focused_index(ws@) && ws@[i as int].focused,
{
    let mut found: Option<usize> = None;
    let mut i: usize = 0;
    while i < ws.len()
        invariant
            0 <= i <= ws@.len(),
            match found {
                None => forall|j: int| 0 <= j < i ==> !(#[trigger] ws@[j].focused),
                Some(f) => f < i && ws@[f as int].focused && forall|j: int|
                    0 <= j < i && #[trigger] ws@[j].focused ==> j == f,
            },
        decreases ws.len() - i,
    {
        if ws[i].focused {
            if found.is_some() {
                assert(!has_unique_focus(ws@));
                return None;
            }
            found = Some(i);
        }
        i += 1;
    }
    match found {
        None => {
            assert(!has_unique_focus(ws@));
            None
        },
        Some(f) => {
            assert(has_unique_focus(ws@));
            let ghost c = focused_index(ws@);
            assert(ws@[c].focused);
            Some(f)
        },
    }
}


/// Position of the first workspace named `target` whose output is not
/// `active`.
pub fn find_candidate(ws: &Vec<Workspace>, target: &String, active: &String) -> (r: Option<usize>)
    ensures
        r matches Some(i) ==> Some(i as int) == first_where(ws@, is_candidate(target@, active@)),
        r is None ==> first_where(ws@, is_candidate(target@, active@)) is None,
        r is None ==> forall|j: int|
            0 <= j < ws@.len() ==> !is_candidate(target@, active@)(#[trigger] ws@[j]),
{
    let ghost p = is_candidate(target@, active@);
    let mut i: usize = 0;
    while i < ws.len()
        invariant
            0 <= i <= ws@.len(),
            p == is_candidate(target@, active@),
            forall|j: int| 0 <= j < i ==> !p(#[trigger] ws@[j]),
        decreases ws.len() - i,
    {
        if ws[i].name == *target && ws[i].output != *active {
            assert(is_first_where(ws@, p, i as int));
            let ghost c = choose|c: int| is_first_where(ws@, p, c);
            assert(c == i) by {
                if c < i {
                    assert(!p(ws@[c]));
                } else if c > i {
                    assert(!p(ws@[i as int]));
                }
            };
            return Some(i);
        }
        i += 1;
    }
    None
}

/// Position of the first output that renders the workspace named `name`.
pub fn find_showing(outputs: &Vec<Output>, name: &String) -> (r: Option<usize>)
    ensures
        r matches Some(k) ==> Some(k as int) == first_where(outputs@, shows(name@)),
        r is None ==> first_where(outputs@, shows(name@)) is None,
{
    let ghost p = shows(name@);
    let mut k: usize = 0;
    while k < outputs.len()
        invariant
            0 <= k <= outputs@.len(),
            p == shows(name@),
            forall|j: int| 0 <= j < k ==> !p(#[trigger] outputs@[j]),
        decreases outputs.len() - k,
    {
        let hit = match &outputs[k].current_workspace {
            Some(c) => *c == *name,
            None => false,
        };
        if hit {
            assert(is_first_where(outputs@, p, k as int));
            let ghost c = choose|c: int| is_first_where(outputs@, p, c);
            assert(c == k) by {
                if c < k {
                    assert(!p(outputs@[c]));
                } else if c > k {
                    assert(!p(outputs@[k as int]));
                }
            };
            return Some(k);
        }
        k += 1;
    }
    None
}

/// Decide the actions that bring the workspace named `target` onto the
/// output of the focused workspace: none when it is already focused; a swap
/// when it is rendered on another output; a move when it is hidden on another
/// output; otherwise a plain focus, which creates it when absent.
pub fn reconcile(outputs: &Vec<Output>, workspaces: &Vec<Workspace>, target: &String) -> (r:
    Result<Vec<Action>, ReconcileError>)
    ensures
        result_model(r) == plan(outputs@, workspaces@, target@),
{
    let f = match find_focused(workspaces) {
        None => return Err(ReconcileError::PreconditionViolation),
        Some(f) => f,
    };
    let focused = &workspaces[f];
    let active = &focused.output;
    if focused.name == *target {
        let r: Vec<Action> = Vec::new();
        assert(actions_model(r@) =~= Seq::empty());
        return Ok(r);
    }
    match find_candidate(workspaces, target, active) {
        None => {
            let r: Vec<Action> = vec![Action::Focus(target.clone())];
            assert(actions_model(r@) =~= switch_actions(target@));
            Ok(r)
        },
        Some(i) => {
            let w = &workspaces[i];
            if !w.visible {
                let r: Vec<Action> = vec![
                    Action::Focus(target.clone()),
                    Action::MoveFocusedTo(active.clone()),
                    Action::Focus(target.clone()),
                ];
                assert(actions_model(r@) =~= move_actions(target@, active@));
                Ok(r)
            } else {
                match find_showing(outputs, &w.name) {
                    None => Err(ReconcileError::LookupFailure),
                    Some(k) => {
                        let r: Vec<Action> = vec![
                            Action::MoveFocusedTo(outputs[k].name.clone()),
                            Action::Focus(w.name.clone()),
                            Action::MoveFocusedTo(active.clone()),
                            Action::Focus(w.name.clone()),
                        ];
                        assert(actions_model(r@) =~= swap_actions(
                            target@,
                            outputs@[k as int].name@,
                            active@,
                        ));
                        Ok(r)
                    },
                }
            }
        },
    }
}

} // verus!
