//! A mathematical model of the window manager's response to actions, used to
//! state what executing an action sequence achieves.
use crate::model::{ActionModel, Output, Workspace};
use vstd::prelude::*;

verus! {

/// Window manager state: which workspace each output renders, which output
/// each workspace belongs to, and which workspace has focus. Each output also
/// remembers the workspace it rendered before the current one, and renders
/// that one again when its current workspace moves away.
pub struct WmModel {
    /// Output name to the name of the workspace it renders.
    pub shown: Map<Seq<char>, Seq<char>>,
    /// Output name to the name of the workspace it rendered before.
    pub previous: Map<Seq<char>, Seq<char>>,
    /// Workspace name to the name of the output it belongs to.
    pub home: Map<Seq<char>, Seq<char>>,
    /// Name of the focused workspace.
    pub focused: Seq<char>,
}

impl WmModel {
    /// The focused workspace belongs to an output, which renders it.
    pub open spec fn wf(self) -> bool {
        &&& self.home.contains_key(self.focused)
        &&& self.shown.contains_key(self.home[self.focused])
        &&& self.shown[self.home[self.focused]] == self.focused
    }

    /// Output `o` renders workspace `w`; what it rendered before is
    /// remembered.
    pub open spec fn show(self, o: Seq<char>, w: Seq<char>) -> WmModel {
        WmModel {
            shown: self.shown.insert(o, w),
            previous: if self.shown.contains_key(o) && self.shown[o] != w {
                self.previous.insert(o, self.shown[o])
            } else {
                self.previous
            },
            ..self
        }
    }

    /// Output `o` loses the workspace it renders and falls back to the one it
    /// rendered before, if any.
    pub open spec fn vacate(self, o: Seq<char>) -> WmModel {
        if self.previous.contains_key(o) {
            WmModel {
                shown: self.shown.insert(o, self.previous[o]),
                previous: self.previous.remove(o),
                ..self
            }
        } else {
            WmModel { shown: self.shown.remove(o), ..self }
        }
    }

    /// Focus workspace `w`: it is rendered on its own output, or, when it does
    /// not exist, created on the output of the focused workspace.
    pub open spec fn focus(self, w: Seq<char>) -> WmModel {
        let o = if self.home.contains_key(w) {
            self.home[w]
        } else {
            self.home[self.focused]
        };
        WmModel { home: self.home.insert(w, o), focused: w, ..self.show(o, w) }
    }

    /// Move the focused workspace to output `o`, where it is rendered; the
    /// output it leaves falls back to its previous workspace.
    pub open spec fn move_focused(self, o: Seq<char>) -> WmModel {
        let f = self.focused;
        let p = self.home[f];
        if p == o {
            self
        } else {
            WmModel { home: self.home.insert(f, o), ..self.vacate(p).show(o, f) }
        }
    }

    /// The state after one action.
    pub open spec fn apply(self, a: ActionModel) -> WmModel {
        match a {
            ActionModel::Focus(w) => self.focus(w),
            ActionModel::MoveFocusedTo(o) => self.move_focused(o),
        }
    }

    /// The state after the actions of `acts`, in order.
    pub open spec fn run(self, acts: Seq<ActionModel>) -> WmModel
        decreases acts.len(),
    {
        if acts.len() == 0 {
            self
        } else {
            self.apply(acts[0]).run(acts.drop_first())
        }
    }

    /// This state is the one that the snapshot `outputs`, `ws` reports.
    pub open spec fn describes(self, outputs: Seq<Output>, ws: Seq<Workspace>) -> bool {
        &&& forall|i: int| 0 <= i < ws.len() && #[trigger] ws[i].focused ==> self.focused == ws[i].name@
        &&& forall|i: int|
            0 <= i < ws.len() ==> self.home.contains_key(#[trigger] ws[i].name@) && self.home[ws[i].name@]
                == ws[i].output@
        &&& forall|n: Seq<char>|
            #[trigger] self.home.contains_key(n) ==> exists|i: int| 0 <= i < ws.len() && ws[i].name@ == n
        &&& forall|k: int|
            0 <= k < outputs.len() ==> match #[trigger] outputs[k].current_workspace {
                Some(c) => self.shown.contains_key(outputs[k].name@) && self.shown[outputs[k].name@]
                    == c@,
                None => !self.shown.contains_key(outputs[k].name@),
            }
    }
}

/// Running one action is applying it.
pub proof fn lemma_run_one(m: WmModel, a: ActionModel)
    ensures
        m.run(seq![a]) == m.apply(a),
{
    let s = seq![a];
    assert(s.drop_first() =~= Seq::<ActionModel>::empty());
    assert(m.apply(a).run(Seq::empty()) == m.apply(a));
}

/// Running three actions applies them in order.
pub proof fn lemma_run_three(m: WmModel, a: ActionModel, b: ActionModel, c: ActionModel)
    ensures
        m.run(seq![a, b, c]) == m.apply(a).apply(b).apply(c),
{
    assert(seq![a, b, c].drop_first() =~= seq![b, c]);
    assert(seq![b, c].drop_first() =~= seq![c]);
    assert(m.apply(a).run(seq![b, c]) == m.apply(a).apply(b).run(seq![c]));
    lemma_run_one(m.apply(a).apply(b), c);
}

/// Running four actions applies them in order.
pub proof fn lemma_run_four(m: WmModel, a: ActionModel, b: ActionModel, c: ActionModel, d: ActionModel)
    ensures
        m.run(seq![a, b, c, d]) == m.apply(a).apply(b).apply(c).apply(d),
{
    assert(seq![a, b, c, d].drop_first() =~= seq![b, c, d]);
    lemma_run_three(m.apply(a), b, c, d);
}

} // verus!
