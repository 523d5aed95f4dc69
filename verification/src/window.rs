//! The window-visibility controller: a two-state machine, and what the host
//! window is asked to do for each action of the router.
//!
//! The window is never closed from here. A close request hides it; only the
//! Quit identifiers end the process.

use crate::router::{Action, ActionModel};
use vstd::prelude::*;

verus! {

/// Whether the window is on screen.
#[derive(Clone, Copy, Debug, PartialEq, Eq, Structural)]
pub enum WindowVisibility {
    Visible,
    Hidden,
}

/// What can happen to the visibility of the window.
#[derive(Clone, Copy, Debug, PartialEq, Eq, Structural)]
pub enum Transition {
    /// Show the window and give it the input focus.
    Show,
    /// Hide the window.
    Hide,
    /// A primary click on the tray icon: to the opposite state.
    ToggleFromTrayClick,
    /// A close request, answered by hiding instead of closing.
    InterceptedClose,
}

/// What the host window is asked to do.
#[derive(Clone, Copy, Debug, PartialEq, Eq, Structural)]
pub enum WindowOp {
    /// Make the window visible, then give it the input focus.
    ShowAndFocus,
    /// Hide the window.
    Hide,
}

impl WindowVisibility {
    /// The visibility after `transition`.
    pub open spec fn after(self, transition: Transition) -> WindowVisibility {
        match transition {
            Transition::Show => WindowVisibility::Visible,
            Transition::Hide => WindowVisibility::Hidden,
            Transition::InterceptedClose => WindowVisibility::Hidden,
            Transition::ToggleFromTrayClick => match self {
                WindowVisibility::Visible => WindowVisibility::Hidden,
                WindowVisibility::Hidden => WindowVisibility::Visible,
            },
        }
    }

    /// The visibility after `transition`.
    pub fn apply(self, transition: Transition) -> (next: WindowVisibility)
        ensures
            next == self.after(transition),
    {
        match transition.resolve(self) {
            WindowOp::ShowAndFocus => WindowVisibility::Visible,
            WindowOp::Hide => WindowVisibility::Hidden,
        }
    }
}

impl Transition {
    /// What the window is asked to do for this transition when it is in
    /// state `from`.
    pub open spec fn op(self, from: WindowVisibility) -> WindowOp {
        if from.after(self) == WindowVisibility::Visible {
            WindowOp::ShowAndFocus
        } else {
            WindowOp::Hide
        }
    }

    /// What the window is asked to do for this transition when it is in
    /// state `from`. A toggle reads the state; the others do not.
    pub fn resolve(self, from: WindowVisibility) -> (op: WindowOp)
        ensures
            op == self.op(from),
    {
        match self {
            Transition::Show => WindowOp::ShowAndFocus,
            Transition::Hide => WindowOp::Hide,
            Transition::InterceptedClose => WindowOp::Hide,
            Transition::ToggleFromTrayClick => match from {
                WindowVisibility::Visible => WindowOp::Hide,
                WindowVisibility::Hidden => WindowOp::ShowAndFocus,
            },
        }
    }
}

impl ActionModel {
    /// The transition that this action asks of the window, if it is about
    /// the window at all.
    pub open spec fn transition(self) -> Option<Transition> {
        match self {
            ActionModel::ShowWindow => Some(Transition::Show),
            ActionModel::HideWindow => Some(Transition::Hide),
            ActionModel::ToggleWindow => Some(Transition::ToggleFromTrayClick),
            ActionModel::Terminate => None,
            ActionModel::Forward(_) => None,
        }
    }
}

/// What the window is asked to do for `transition`. Without a window
/// (`None`) nothing is asked.
pub open spec fn op_for(transition: Option<Transition>, window: Option<WindowVisibility>) -> Option<
    WindowOp,
> {
    match (transition, window) {
        (Some(t), Some(v)) => Some(t.op(v)),
        _ => None,
    }
}

/// The visibility after `transition`. Without a window there is none
/// before and none after; without a transition it stays as it is.
pub open spec fn visibility_after(
    transition: Option<Transition>,
    window: Option<WindowVisibility>,
) -> Option<WindowVisibility> {
    match (transition, window) {
        (Some(t), Some(v)) => Some(v.after(t)),
        _ => window,
    }
}

/// The answer of the shell to one event: what was decided, what the window
/// is asked to do for it, and the visibility that results.
#[derive(Debug, PartialEq, Eq)]
pub struct Reaction {
    /// What the router decided. `Terminate` and `Forward` are carried out by
    /// the host; the window actions are spelled out in `op`.
    pub action: Action,
    /// What to ask of the window; `None` where the action is not about the
    /// window, or where there is no window.
    pub op: Option<WindowOp>,
    /// The visibility of the window afterwards; `None` without a window.
    pub window: Option<WindowVisibility>,
}

impl Action {
    /// The transition that this action asks of the window, if it is about
    /// the window at all.
    pub fn transition(&self) -> (transition: Option<Transition>)
        ensures
            transition == self@.transition(),
    {
        match self {
            Action::ShowWindow => Some(Transition::Show),
            Action::HideWindow => Some(Transition::Hide),
            Action::ToggleWindow => Some(Transition::ToggleFromTrayClick),
            Action::Terminate => None,
            Action::Forward(_) => None,
        }
    }
}

/// Carries `transition` out on a window that may not exist.
///
/// Without a window this is a silent no-op: nothing is asked, and nothing
/// fails.
pub fn step(transition: Option<Transition>, window: Option<WindowVisibility>) -> (result: (
    Option<WindowOp>,
    Option<WindowVisibility>,
))
    ensures
        result.0 == op_for(transition, window),
        result.1 == visibility_after(transition, window),
{
    match (transition, window) {
        (Some(t), Some(v)) => (Some(t.resolve(v)), Some(v.apply(t))),
        _ => (None, window),
    }
}

/// Decides what the window is asked to do for `action`, given its current
/// visibility (`None`: there is no window).
///
/// `Terminate` and `Forward` leave the window alone. The action itself is
/// handed back unchanged for the host to carry out.
pub fn react(action: Action, window: Option<WindowVisibility>) -> (reaction: Reaction)
    ensures
        reaction.action == action,
        reaction.op == op_for(action@.transition(), window),
        reaction.window == visibility_after(action@.transition(), window),
{
    let (op, next) = step(action.transition(), window);
    Reaction { action, op, window: next }
}

/// A close request never ends in a visible window, whatever the state it
/// found; from `Visible` it leads to `Hidden`.
pub proof fn lemma_close_hides(from: WindowVisibility)
    ensures
        from.after(Transition::InterceptedClose) == WindowVisibility::Hidden,
        Transition::InterceptedClose.op(from) == WindowOp::Hide,
{
}

/// Two tray-icon clicks in a row bring the window back to the state it was
/// in: from `Visible` over `Hidden` to `Visible`, and likewise from `Hidden`.
pub proof fn lemma_toggle_twice_restores(from: WindowVisibility)
    ensures
        from.after(Transition::ToggleFromTrayClick) != from,
        from.after(Transition::ToggleFromTrayClick).after(Transition::ToggleFromTrayClick) == from,
{
}

/// Show and Hide do not depend on the state they find, and doing either
/// twice is doing it once.
pub proof fn lemma_show_and_hide_are_idempotent(from: WindowVisibility)
    ensures
        from.after(Transition::Show) == WindowVisibility::Visible,
        from.after(Transition::Hide) == WindowVisibility::Hidden,
        from.after(Transition::Show).after(Transition::Show) == from.after(Transition::Show),
        from.after(Transition::Hide).after(Transition::Hide) == from.after(Transition::Hide),
{
}

/// Without a window no transition asks anything of it, and there is still
/// no window afterwards.
pub proof fn lemma_no_window_no_op(transition: Option<Transition>)
    ensures
        op_for(transition, None) is None,
        visibility_after(transition, None) is None,
{
}

} // verus!
