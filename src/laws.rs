//! What holds of every decision: the laws of the reconciler, stated over
//! `plan` and the window manager model.
use crate::model::{ActionModel, Output, ReconcileError, Workspace};
use crate::reconcile::{
    first_where, focused_index, has_unique_focus, is_candidate, is_first_where, plan, shows,
    swap_actions,
};
use crate::wm::{lemma_run_four, lemma_run_one, lemma_run_three, WmModel};
use vstd::prelude::*;

verus! {

/// When some element satisfies `p`, a first one does.
pub proof fn lemma_first_exists<A>(s: Seq<A>, p: spec_fn(A) -> bool, i: int)
    requires
        0 <= i < s.len(),
        p(s[i]),
    ensures
        first_where(s, p) is Some,
        is_first_where(s, p, first_where(s, p)->Some_0),
    decreases i,
{
    if forall|j: int| 0 <= j < i ==> !p(#[trigger] s[j]) {
        assert(is_first_where(s, p, i));
    } else {
        let j = choose|j: int| 0 <= j < i && p(#[trigger] s[j]);
        lemma_first_exists(s, p, j);
    }
}

/// When no first element satisfies `p`, none does.
pub proof fn lemma_first_where_none<A>(s: Seq<A>, p: spec_fn(A) -> bool)
    requires
        first_where(s, p) is None,
    ensures
        forall|j: int| 0 <= j < s.len() ==> !p(#[trigger] s[j]),
{
    assert forall|j: int| 0 <= j < s.len() implies !p(#[trigger] s[j]) by {
        if p(s[j]) {
            lemma_first_exists(s, p, j);
        }
    }
}

/// When the focused workspace is the target, the decision is to do nothing.
pub proof fn lemma_already_focused_is_no_op(
    outputs: Seq<Output>,
    ws: Seq<Workspace>,
    target: Seq<char>,
)
    requires
        has_unique_focus(ws),
        ws[focused_index(ws)].name@ == target,
    ensures
        plan(outputs, ws, target) == Ok::<Seq<ActionModel>, ReconcileError>(Seq::empty()),
{
}

/// A decision is empty when the target is focused, one action when the
/// target is absent or already belongs to the active output, three when it
/// is hidden on another output, and four when it is rendered on another
/// output.
pub proof fn lemma_action_counts(outputs: Seq<Output>, ws: Seq<Workspace>, target: Seq<char>)
    requires
        plan(outputs, ws, target) is Ok,
    ensures
        ({
            let acts = plan(outputs, ws, target)->Ok_0;
            let focused = ws[focused_index(ws)];
            if focused.name@ == target {
                acts.len() == 0
            } else {
                match first_where(ws, is_candidate(target, focused.output@)) {
                    None => acts.len() == 1,
                    Some(i) => if ws[i].visible {
                        acts.len() == 4
                    } else {
                        acts.len() == 3
                    },
                }
            }
        }),
{
}


/// Executing a decision on a window manager in the state that the snapshot
/// reports leaves the target focused, belonging to the output that was
/// active before, and rendered there.
pub proof fn lemma_target_lands_on_active_output(
    outputs: Seq<Output>,
    ws: Seq<Workspace>,
    target: Seq<char>,
    m: WmModel,
)
    requires
        m.wf(),
        m.describes(outputs, ws),
        plan(outputs, ws, target) is Ok,
    ensures
        ({
            let active = ws[focused_index(ws)].output@;
            let end = m.run(plan(outputs, ws, target)->Ok_0);
            &&& end.focused == target
            &&& end.home.contains_key(target) && end.home[target] == active
            &&& end.shown.contains_key(active) && end.shown[active] == target
        }),
{
    let fi = focused_index(ws);
    let focused = ws[fi];
    let active = focused.output@;
    assert(ws[fi].focused);
    assert(m.focused == focused.name@);
    assert(m.home[ws[fi].name@] == active);
    let p = is_candidate(target, active);
    if focused.name@ == target {
        assert(m.run(Seq::empty()) == m);
    } else {
        match first_where(ws, p) {
            None => {
                lemma_first_where_none(ws, p);
                lemma_run_one(m, ActionModel::Focus(target));
                if m.home.contains_key(target) {
                    let i = choose|i: int| 0 <= i < ws.len() && ws[i].name@ == target;
                    assert(!p(ws[i]));
                }
            },
            Some(i) => {
                lemma_first_exists(ws, p, i);
                assert(p(ws[i]));
                assert(m.home[ws[i].name@] == ws[i].output@);
                if !ws[i].visible {
                    lemma_run_three(
                        m,
                        ActionModel::Focus(target),
                        ActionModel::MoveFocusedTo(active),
                        ActionModel::Focus(target),
                    );
                } else {
                    let k = first_where(outputs, shows(target))->Some_0;
                    let other = outputs[k].name@;
                    lemma_run_four(
                        m,
                        ActionModel::MoveFocusedTo(other),
                        ActionModel::Focus(target),
                        ActionModel::MoveFocusedTo(active),
                        ActionModel::Focus(target),
                    );
                    let m1 = m.apply(ActionModel::MoveFocusedTo(other));
                    assert(m1.home[target] == ws[i].output@);
                    assert(m1.focused == focused.name@);
                }
            },
        }
    }
}

/// Swapping the target onto the active output and then swapping the old
/// workspace back, with the roles reversed, restores which workspace each
/// output renders, which output each workspace belongs to, and focus.
pub proof fn lemma_swap_twice_restores(
    m: WmModel,
    target: Seq<char>,
    other: Seq<char>,
    active: Seq<char>,
)
    requires
        m.focused != target,
        other != active,
        m.home.contains_key(m.focused) && m.home[m.focused] == active,
        m.home.contains_key(target) && m.home[target] == other,
        m.shown.contains_key(active) && m.shown[active] == m.focused,
        m.shown.contains_key(other) && m.shown[other] == target,
    ensures
        ({
            let once = m.run(swap_actions(target, other, active));
            let twice = once.run(swap_actions(m.focused, other, active));
            &&& once.focused == target
            &&& once.home[m.focused] == other && once.home[target] == active
            &&& once.shown[active] == target && once.shown[other] == m.focused
            &&& twice.shown == m.shown
            &&& twice.home == m.home
            &&& twice.focused == m.focused
        }),
{
    let a = m.focused;
    lemma_run_four(
        m,
        ActionModel::MoveFocusedTo(other),
        ActionModel::Focus(target),
        ActionModel::MoveFocusedTo(active),
        ActionModel::Focus(target),
    );
    let once = m.run(swap_actions(target, other, active));
    lemma_run_four(
        once,
        ActionModel::MoveFocusedTo(other),
        ActionModel::Focus(a),
        ActionModel::MoveFocusedTo(active),
        ActionModel::Focus(a),
    );
    let twice = once.run(swap_actions(a, other, active));
    assert(twice.shown =~= m.shown);
    assert(twice.home =~= m.home);
}

} // verus!
