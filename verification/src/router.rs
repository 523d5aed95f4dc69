//! The event router: from the identifier of a clicked item to what the
//! shell does about it.
//!
//! A few identifiers are handled by the shell itself. Every other identifier
//! is forwarded, unchanged and unexamined, to the embedding application.

use crate::compare::str_eq;
use vstd::prelude::*;
use vstd::string::StringExecFns;

verus! {

/// The name of the event under which a forwarded identifier reaches the
/// embedding application.
pub const MENU_EVENT: &'static str = "menu-event";

/// What the shell does about one event.
#[derive(Debug, PartialEq, Eq)]
pub enum Action {
    /// End the process.
    Terminate,
    /// Make the window visible and give it the input focus.
    ShowWindow,
    /// Hide the window.
    HideWindow,
    /// Hide the window if it is visible, show and focus it otherwise.
    ToggleWindow,
    /// Hand the identifier to the embedding application.
    Forward(String),
}

/// The model of an [`Action`].
pub enum ActionModel {
    Terminate,
    ShowWindow,
    HideWindow,
    ToggleWindow,
    Forward(Seq<char>),
}

impl View for Action {
    type V = ActionModel;

    open spec fn view(&self) -> ActionModel {
        match self {
            Action::Terminate => ActionModel::Terminate,
            Action::ShowWindow => ActionModel::ShowWindow,
            Action::HideWindow => ActionModel::HideWindow,
            Action::ToggleWindow => ActionModel::ToggleWindow,
            Action::Forward(id) => ActionModel::Forward(id@),
        }
    }
}

/// A button of the pointer.
#[derive(Clone, Copy, Debug, PartialEq, Eq, Structural)]
pub enum MouseButton {
    Left,
    Right,
    Middle,
}

/// The rules that both routers share, once Quit is out of the way:
/// `tray_show` shows the window, `tray_hide` hides it, anything else is
/// forwarded as it came.
pub open spec fn route_window(id: Seq<char>) -> ActionModel {
    if id == "tray_show"@ {
        ActionModel::ShowWindow
    } else if id == "tray_hide"@ {
        ActionModel::HideWindow
    } else {
        ActionModel::Forward(id)
    }
}

/// The route of a click in the menu bar. `app_quit` comes first.
pub open spec fn menu_route(id: Seq<char>) -> ActionModel {
    if id == "app_quit"@ {
        ActionModel::Terminate
    } else {
        route_window(id)
    }
}

/// The route of a click in the tray menu. `tray_quit` comes first.
pub open spec fn tray_route(id: Seq<char>) -> ActionModel {
    if id == "tray_quit"@ {
        ActionModel::Terminate
    } else {
        route_window(id)
    }
}

/// The route of a click on the tray icon itself: the primary button toggles
/// the window, the other buttons do nothing here.
pub open spec fn icon_route(button: MouseButton) -> Option<ActionModel> {
    if button == MouseButton::Left {
        Some(ActionModel::ToggleWindow)
    } else {
        None
    }
}

/// The rules shared by both routers.
fn route_window_event(id: &str) -> (action: Action)
    ensures
        action@ == route_window(id@),
{
    if str_eq(id, "tray_show") {
        Action::ShowWindow
    } else if str_eq(id, "tray_hide") {
        Action::HideWindow
    } else {
        Action::Forward(String::from_str(id))
    }
}

/// Routes a click on the menu-bar item `id`.
///
/// `app_quit` terminates. Nothing is checked against the identifiers that
/// the embedding application understands: what the shell does not handle is
/// forwarded.
pub fn route_menu_event(id: &str) -> (action: Action)
    ensures
        action@ == menu_route(id@),
{
    if str_eq(id, "app_quit") {
        Action::Terminate
    } else {
        route_window_event(id)
    }
}

/// Routes a click on the tray-menu item `id`.
///
/// `tray_quit` terminates, `tray_show` shows the window, `tray_hide` hides
/// it; every other identifier is forwarded.
pub fn route_tray_event(id: &str) -> (action: Action)
    ensures
        action@ == tray_route(id@),
{
    if str_eq(id, "tray_quit") {
        Action::Terminate
    } else {
        route_window_event(id)
    }
}

/// Routes a click on the tray icon: the primary button toggles the window.
pub fn route_tray_icon_click(button: MouseButton) -> (action: Option<Action>)
    ensures
        action is Some == icon_route(button) is Some,
        action matches Some(a) ==> Some(a@) == icon_route(button),
{
    match button {
        MouseButton::Left => Some(Action::ToggleWindow),
        _ => None,
    }
}

/// A forwarded identifier is the one that came in: the routers never
/// rewrite what they hand on.
pub proof fn lemma_forward_is_unchanged(id: Seq<char>)
    ensures
        menu_route(id) matches ActionModel::Forward(out) ==> out == id,
        tray_route(id) matches ActionModel::Forward(out) ==> out == id,
{
}

/// The routers never ask for a toggle: that is what a click on the tray icon
/// does, and no identifier.
pub proof fn lemma_no_identifier_toggles(id: Seq<char>)
    ensures
        !(menu_route(id) is ToggleWindow),
        !(tray_route(id) is ToggleWindow),
{
}

} // verus!
