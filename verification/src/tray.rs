//! The system tray: its flat menu, and the answers of the shell to a click
//! in that menu, to a click on the tray icon, and to a close request.
//!
//! The host toolkit owns the icon and the window. These functions decide;
//! the host reads the visibility of the window, asks, and carries out what
//! comes back.

use crate::menu_i18n::{is_zh_tag, label, MenuI18n, TextKey};
use crate::node::{ids_of, ids_upto, views, MenuNode, NodeModel};
use crate::router::{route_tray_event, tray_route, Action, ActionModel};
use crate::window::{op_for, react, step, visibility_after, Reaction, Transition, WindowOp, WindowVisibility};
use vstd::prelude::*;

verus! {

/// The menu of the tray icon: a flat list, in on-screen order.
#[derive(Debug, PartialEq, Eq)]
pub struct TrayTree {
    pub items: Vec<MenuNode>,
}

impl View for TrayTree {
    type V = Seq<NodeModel>;

    open spec fn view(&self) -> Seq<NodeModel> {
        views(self.items@)
    }
}

/// What every tray menu must satisfy: it is flat, and no identifier occurs
/// twice in it.
pub open spec fn tray_well_formed(tree: Seq<NodeModel>) -> bool {
    &&& forall|i: int| 0 <= i < tree.len() ==> !(#[trigger] tree[i] is Submenu)
    &&& ids_of(tree).no_duplicates()
}

/// The tray menu: Show, Hide, a separator, Quit. Tray menus are used with
/// the pointer only, so no item has an accelerator.
pub open spec fn tray_model(zh: bool) -> Seq<NodeModel> {
    seq![
        NodeModel::item("tray_show"@, label(TextKey::TrayShow, zh), None),
        NodeModel::item("tray_hide"@, label(TextKey::TrayHide, zh), None),
        NodeModel::Separator,
        NodeModel::item("tray_quit"@, label(TextKey::TrayQuit, zh), None),
    ]
}

/// The identifiers of the tray menu, in on-screen order.
pub open spec fn tray_ids() -> Seq<Seq<char>> {
    seq!["tray_show"@, "tray_hide"@, "tray_quit"@]
}

/// Builds the tray menu from a text table.
pub fn build_tray_menu(i18n: &MenuI18n) -> (tree: TrayTree)
    ensures
        tree@ == tray_model(i18n.zh()),
        tray_well_formed(tree@),
{
    let mut items: Vec<MenuNode> = Vec::new();
    items.push(MenuNode::item("tray_show", i18n.tray_show(), None));
    items.push(MenuNode::item("tray_hide", i18n.tray_hide(), None));
    items.push(MenuNode::separator());
    items.push(MenuNode::item("tray_quit", i18n.tray_quit(), None));
    proof {
        assert(views(items@) =~= tray_model(i18n.zh()));
        lemma_tray_is_well_formed(i18n.zh());
    }
    TrayTree { items }
}

/// Builds the tray menu for `locale`. Every tag is accepted: `zh` gives the
/// Chinese labels, any other tag the English ones.
pub fn build_tray(locale: &str) -> (tree: TrayTree)
    ensures
        tree@ == tray_model(is_zh_tag(locale@)),
        tray_well_formed(tree@),
{
    let i18n = MenuI18n::new(locale);
    build_tray_menu(&i18n)
}

/// Answers a click on the tray-menu item `id`, for a window of visibility
/// `window` (`None`: there is no window).
///
/// The identifier is routed as [`route_tray_event`] says. Where the route is
/// about the window and there is none, nothing is asked of it.
pub fn handle_tray_event(window: Option<WindowVisibility>, id: &str) -> (reaction: Reaction)
    ensures
        reaction.action@ == tray_route(id@),
        reaction.op == op_for(tray_route(id@).transition(), window),
        reaction.window == visibility_after(tray_route(id@).transition(), window),
{
    react(route_tray_event(id), window)
}

/// Answers a primary click on the tray icon: the window is hidden if it is
/// visible, shown and focused if it is hidden, and left alone if there is
/// none.
pub fn handle_tray_icon_click(window: Option<WindowVisibility>) -> (reaction: Reaction)
    ensures
        reaction.action@ == ActionModel::ToggleWindow,
        reaction.op == op_for(Some(Transition::ToggleFromTrayClick), window),
        reaction.window == visibility_after(Some(Transition::ToggleFromTrayClick), window),
{
    react(Action::ToggleWindow, window)
}

/// The answer to a close request.
#[derive(Debug, PartialEq, Eq)]
pub struct CloseReaction {
    /// Whether the host must suppress the default close, which would destroy
    /// the window and end the process with its last window.
    pub prevent_close: bool,
    /// What is done instead.
    pub reaction: Reaction,
}

/// Answers a close request of a window of visibility `window`: the default
/// close is suppressed and the window is hidden instead. Whatever the state
/// of the window, the answer never asks to terminate.
pub fn handle_window_close(window: WindowVisibility) -> (answer: CloseReaction)
    ensures
        answer.prevent_close,
        answer.reaction.action@ == ActionModel::HideWindow,
        answer.reaction.op == Some(WindowOp::Hide),
        answer.reaction.window == Some(window.after(Transition::InterceptedClose)),
        answer.reaction.window == Some(WindowVisibility::Hidden),
{
    let (op, next) = step(Some(Transition::InterceptedClose), Some(window));
    CloseReaction { prevent_close: true, reaction: Reaction { action: Action::HideWindow, op, window: next } }
}

/// The three identifiers of the tray differ from one another.
pub proof fn lemma_tray_ids_are_distinct()
    ensures
        "tray_show"@ != "tray_hide"@,
        "tray_show"@ != "tray_quit"@,
        "tray_hide"@ != "tray_quit"@,
        tray_ids().no_duplicates(),
{
    reveal_strlit("tray_show");
    reveal_strlit("tray_hide");
    reveal_strlit("tray_quit");
    assert("tray_show"@[5] == 's' && "tray_hide"@[5] == 'h' && "tray_quit"@[5] == 'q');
}

/// The identifiers of a built tray menu are the three of the tray,
/// whatever the locale.
pub proof fn lemma_tray_ids(zh: bool)
    ensures
        ids_of(tray_model(zh)) == tray_ids(),
{
    reveal_with_fuel(NodeModel::ids, 2);
    reveal_with_fuel(ids_upto, 6);
    assert(ids_of(tray_model(zh)) =~= tray_ids());
}

/// Identifier uniqueness and flatness: every built tray menu is well
/// formed.
pub proof fn lemma_tray_is_well_formed(zh: bool)
    ensures
        tray_well_formed(tray_model(zh)),
{
    lemma_tray_ids(zh);
    lemma_tray_ids_are_distinct();
}

/// Every identifier of the tray menu is handled by the shell itself: Show
/// shows, Hide hides, Quit terminates, and none is forwarded.
pub proof fn lemma_tray_ids_are_handled()
    ensures
        tray_route("tray_show"@) == ActionModel::ShowWindow,
        tray_route("tray_hide"@) == ActionModel::HideWindow,
        tray_route("tray_quit"@) == ActionModel::Terminate,
{
    lemma_tray_ids_are_distinct();
}

/// Two tray-icon clicks in a row give the window back the visibility it
/// had: starting from `Visible`, over `Hidden`, to `Visible` again. Without
/// a window both clicks do nothing.
pub proof fn lemma_two_clicks_restore(window: Option<WindowVisibility>)
    ensures
        visibility_after(
            Some(Transition::ToggleFromTrayClick),
            visibility_after(Some(Transition::ToggleFromTrayClick), window),
        ) == window,
        visibility_after(Some(Transition::ToggleFromTrayClick), Some(WindowVisibility::Visible))
            == Some(WindowVisibility::Hidden),
        visibility_after(Some(Transition::ToggleFromTrayClick), Some(WindowVisibility::Hidden))
            == Some(WindowVisibility::Visible),
{
}

} // verus!
