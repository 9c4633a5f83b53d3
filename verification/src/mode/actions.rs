//! What a key binding stands for.

use vstd::prelude::*;

use crate::keymaps::{Action, OPending};

verus! {

/// Actions to be taken as a result of a keypress.
#[derive(Debug)]
pub enum Actions {
    /// List of buffer actions to be followed.
    List(Vec<Action>),
    /// New pending command to wait on.
    OPending(OPending),
}

/// What an [`Actions`] holds, as mathematical values.
pub enum ActionsView {
    /// The actions to be followed, in order.
    List(Seq<Action>),
    /// The pending command to wait on.
    OPending(OPending),
}

impl View for Actions {
    type V = ActionsView;

    open spec fn view(&self) -> ActionsView {
        match self {
            Actions::List(list) => ActionsView::List(list@),
            Actions::OPending(opending) => ActionsView::OPending(*opending),
        }
    }
}

impl ActionsView {
    /// The binding of a key that does nothing.
    pub open spec fn nothing() -> Self {
        ActionsView::List(Seq::empty())
    }

    /// The binding of a key that stands for one action.
    pub open spec fn one(action: Action) -> Self {
        ActionsView::List(seq![action])
    }

    /// The binding of a key that stands for two actions.
    pub open spec fn two(first: Action, second: Action) -> Self {
        ActionsView::List(seq![first, second])
    }

    /// The binding of a key that stands for three actions.
    pub open spec fn three(first: Action, second: Action, third: Action) -> Self {
        ActionsView::List(seq![first, second, third])
    }
}

impl Actions {
    /// The binding of a key that does nothing.
    pub fn nothing() -> (actions: Self)
        ensures
            actions@ == ActionsView::nothing(),
    {
        Actions::List(Vec::new())
    }

    /// The binding of a key that stands for one action.
    pub fn one(action: Action) -> (actions: Self)
        ensures
            actions@ == ActionsView::one(action),
    {
        let mut list = Vec::new();
        list.push(action);
        assert(list@ =~= seq![action]);
        Actions::List(list)
    }

    /// The binding of a key that stands for two actions.
    pub fn two(first: Action, second: Action) -> (actions: Self)
        ensures
            actions@ == ActionsView::two(first, second),
    {
        let mut list = Vec::new();
        list.push(first);
        list.push(second);
        assert(list@ =~= seq![first, second]);
        Actions::List(list)
    }

    /// The binding of a key that stands for three actions.
    pub fn three(first: Action, second: Action, third: Action) -> (actions: Self)
        ensures
            actions@ == ActionsView::three(first, second, third),
    {
        let mut list = Vec::new();
        list.push(first);
        list.push(second);
        list.push(third);
        assert(list@ =~= seq![first, second, third]);
        Actions::List(list)
    }
}

impl Default for Actions {
    /// The binding of a key that does nothing.
    fn default() -> (actions: Self)
        ensures
            actions@ == ActionsView::nothing(),
    {
        Actions::nothing()
    }
}

} // verus!
